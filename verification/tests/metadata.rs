use index_meta::views::attribute::BinaryAttribute;
use index_meta::views::error::MetadataError;
use index_meta::views::metadata::{IndexMetadata, IndexType};
use index_meta::views::reader::Reader;

#[test]
fn test_binary_attribute_read_write() {
    let mut buf = Vec::new();
    11_u64.write(&mut buf);
    12_u64.write(&mut buf);
    assert_eq!(buf.len(), 16);

    let mut reader = Reader::new(&buf);
    let a: u64 = u64::read(&mut reader).unwrap();
    let b: u64 = u64::read(&mut reader).unwrap();
    assert_eq!(a, 11);
    assert_eq!(b, 12);
}

#[test]
fn test_index_metadata_binary_value() {
    let metadata = IndexMetadata {
        identifier: 12,
        index_type: IndexType::ProofList,
        state: 16_u64,
    };

    let bytes = metadata.to_bytes();
    assert_eq!(IndexMetadata::from_bytes(bytes.into()).unwrap(), metadata);
}

#[test]
fn metadata_layout_is_little_endian() {
    let metadata = IndexMetadata {
        identifier: 0x0102_0304_0506_0708,
        index_type: IndexType::ProofList,
        state: 16_u64,
    };
    assert_eq!(
        metadata.to_bytes(),
        vec![8, 7, 6, 5, 4, 3, 2, 1, 7, 0, 0, 0, 8, 0, 0, 0, 16, 0, 0, 0, 0, 0, 0, 0]
    );
}

#[test]
fn metadata_without_state_is_the_header() {
    let metadata = IndexMetadata { identifier: 3, index_type: IndexType::Unknown, state: () };
    let bytes = metadata.to_bytes();
    assert_eq!(bytes, vec![3, 0, 0, 0, 0, 0, 0, 0, 255, 0, 0, 0, 0, 0, 0, 0]);
    assert_eq!(IndexMetadata::<()>::from_bytes(bytes.into()), Ok(metadata));
}

#[test]
fn short_header_is_an_unexpected_end() {
    let bytes = vec![0u8; 15];
    assert_eq!(IndexMetadata::<u64>::from_bytes(bytes.into()), Err(MetadataError::UnexpectedEof));
    let empty: &[u8] = &[];
    assert_eq!(IndexMetadata::<u64>::from_bytes(empty.into()), Err(MetadataError::UnexpectedEof));
}

#[test]
fn missing_state_bytes_are_reported() {
    let bytes = vec![1, 0, 0, 0, 0, 0, 0, 0, 2, 0, 0, 0, 8, 0, 0, 0, 9, 9, 9];
    assert_eq!(IndexMetadata::<u64>::from_bytes(bytes.into()), Err(MetadataError::StateTooShort));
}

#[test]
fn state_shorter_than_a_counter_is_an_unexpected_end() {
    let bytes = vec![1, 0, 0, 0, 0, 0, 0, 0, 2, 0, 0, 0, 4, 0, 0, 0, 9, 9, 9, 9];
    assert_eq!(IndexMetadata::<u64>::from_bytes(bytes.into()), Err(MetadataError::UnexpectedEof));
}

#[test]
fn unknown_tag_is_reported_with_its_number() {
    let bytes = vec![1, 0, 0, 0, 0, 0, 0, 0, 9, 0, 0, 0, 0, 0, 0, 0];
    assert_eq!(IndexMetadata::<()>::from_bytes(bytes.into()), Err(MetadataError::UnknownIndexType(9)));
    let bytes = vec![1, 0, 0, 0, 0, 0, 0, 0, 0, 1, 0, 0, 0, 0, 0, 0];
    assert_eq!(IndexMetadata::<()>::from_bytes(bytes.into()), Err(MetadataError::UnknownIndexType(256)));
}

#[test]
fn bytes_after_the_state_are_ignored() {
    let bytes = vec![1, 0, 0, 0, 0, 0, 0, 0, 2, 0, 0, 0, 8, 0, 0, 0, 5, 0, 0, 0, 0, 0, 0, 0, 77, 78];
    assert_eq!(
        IndexMetadata::<u64>::from_bytes(bytes.into()),
        Ok(IndexMetadata { identifier: 1, index_type: IndexType::List, state: 5 })
    );
}

#[test]
fn tags_of_the_kinds() {
    let kinds = [
        (IndexType::MapIndex, 1u32),
        (IndexType::List, 2),
        (IndexType::Entry, 3),
        (IndexType::ValueSet, 4),
        (IndexType::KeySet, 5),
        (IndexType::SparseList, 6),
        (IndexType::ProofList, 7),
        (IndexType::ProofMap, 8),
        (IndexType::Unknown, 255),
    ];
    for (kind, tag) in kinds {
        assert_eq!(kind.tag(), tag);
        assert_eq!(IndexType::from_u32(tag), Some(kind));
    }
    assert_eq!(IndexType::from_u32(0), None);
    assert_eq!(IndexType::from_u32(9), None);
    assert_eq!(IndexType::from_u32(254), None);
    assert_eq!(IndexType::from_u32(256), None);
    assert_eq!(IndexType::default(), IndexType::Unknown);
}

#[test]
fn reading_a_counter_from_too_few_bytes_fails() {
    let buf = vec![1u8, 2, 3, 4, 5, 6, 7];
    let mut reader = Reader::new(&buf);
    assert_eq!(u64::read(&mut reader), Err(MetadataError::UnexpectedEof));
}

#[test]
fn unit_state_reads_and_writes_nothing() {
    let mut buf = vec![1u8, 2];
    ().write(&mut buf);
    assert_eq!(buf, vec![1, 2]);
    assert_eq!(().size(), 0);
    let mut reader = Reader::new(&buf);
    assert_eq!(<()>::read(&mut reader), Ok(()));
    assert_eq!(reader.remaining(), &[1, 2]);
    assert_eq!(7_u64.size(), 8);
}

#[test]
fn reader_consumes_what_it_reads() {
    let buf = vec![1u8, 2, 3, 4, 5, 6, 7, 8, 9, 10, 11, 12, 13];
    let mut reader = Reader::new(&buf);
    assert_eq!(reader.read_u32(), Ok(0x0403_0201));
    assert_eq!(reader.remaining(), &[5, 6, 7, 8, 9, 10, 11, 12, 13]);
    assert_eq!(reader.read_u64(), Ok(0x0c0b_0a09_0807_0605));
    assert_eq!(reader.remaining(), &[13]);
    assert_eq!(reader.read_u32(), Err(MetadataError::UnexpectedEof));
    let mut short = Reader::new(&buf[..7]);
    assert_eq!(short.read_u64(), Err(MetadataError::UnexpectedEof));
}
