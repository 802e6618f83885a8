use index_meta::encoding::error::{EncodingError, FloatBits};
use index_meta::encoding::field::Field;
use index_meta::encoding::float::{F32, F64};
use index_meta::encoding::offset::CheckedOffset;

fn singles() -> Vec<f32> {
    vec![
        0.0,
        -0.0,
        1.0,
        -1.0,
        2.71828,
        -2.71828,
        1.0e-40,
        -1.0e-40,
        f32::MIN_POSITIVE,
        f32::MAX,
        f32::MIN,
        f32::EPSILON,
        123456.79,
    ]
}

fn doubles() -> Vec<f64> {
    vec![
        0.0,
        -0.0,
        1.0,
        -1.0,
        1.6180339887,
        -1.6180339887,
        5.0e-324,
        -5.0e-324,
        f64::MIN_POSITIVE,
        f64::MAX,
        f64::MIN,
        f64::EPSILON,
        1.0e300,
    ]
}

#[test]
fn finite_singles_are_accepted_and_kept() {
    for v in singles() {
        assert!(v.is_finite());
        let wrapped = F32::try_from(v.to_bits()).unwrap();
        assert_eq!(wrapped.get(), v.to_bits());
        assert_eq!(f32::from_bits(wrapped.get()).to_bits(), v.to_bits());
        assert_eq!(F32::new(v.to_bits()).get(), v.to_bits());
    }
}

#[test]
fn finite_doubles_are_accepted_and_kept() {
    for v in doubles() {
        assert!(v.is_finite());
        let wrapped = F64::try_from(v.to_bits()).unwrap();
        assert_eq!(wrapped.get(), v.to_bits());
        assert_eq!(F64::new(v.to_bits()).get(), v.to_bits());
    }
}

#[test]
fn non_finite_singles_are_refused() {
    for v in [f32::NAN, -f32::NAN, f32::INFINITY, f32::NEG_INFINITY] {
        assert!(!v.is_finite());
        assert!(F32::try_from(v.to_bits()).is_none());
    }
    assert!(F32::try_from(0x7f80_0001).is_none());
    assert!(F32::try_from(0xffff_ffff).is_none());
    assert!(F32::try_from(0x7f7f_ffff).is_some());
    assert!(F32::try_from(0xff7f_ffff).is_some());
}

#[test]
fn non_finite_doubles_are_refused() {
    for v in [f64::NAN, -f64::NAN, f64::INFINITY, f64::NEG_INFINITY] {
        assert!(!v.is_finite());
        assert!(F64::try_from(v.to_bits()).is_none());
    }
    assert!(F64::try_from(0x7ff0_0000_0000_0001).is_none());
    assert!(F64::try_from(0xffff_ffff_ffff_ffff).is_none());
    assert!(F64::try_from(0x7fef_ffff_ffff_ffff).is_some());
    assert!(F64::try_from(0xffef_ffff_ffff_ffff).is_some());
}

#[test]
fn finiteness_of_bit_patterns_agrees_with_the_floats() {
    let mut bits: u32 = 0;
    loop {
        assert_eq!(F32::try_from(bits).is_some(), f32::from_bits(bits).is_finite());
        match bits.checked_add(0x0001_2345) {
            Some(next) => bits = next,
            None => break,
        }
    }
    let mut bits: u64 = 0;
    loop {
        assert_eq!(F64::try_from(bits).is_some(), f64::from_bits(bits).is_finite());
        match bits.checked_add(0x0000_1234_5678_9abc) {
            Some(next) => bits = next,
            None => break,
        }
    }
}

#[test]
fn field_sizes() {
    assert_eq!(F32::field_size(), 4);
    assert_eq!(F64::field_size(), 8);
}

#[test]
fn single_is_written_little_endian_in_place() {
    let mut buffer = vec![0xaau8; 8];
    F32::new(1.0f32.to_bits()).write(&mut buffer, 2, 6);
    assert_eq!(buffer, vec![0xaa, 0xaa, 0x00, 0x00, 0x80, 0x3f, 0xaa, 0xaa]);
}

#[test]
fn double_is_written_little_endian_in_place() {
    let mut buffer = vec![0x55u8; 10];
    F64::new(1.0f64.to_bits()).write(&mut buffer, 1, 9);
    assert_eq!(buffer, vec![0x55, 0, 0, 0, 0, 0, 0, 0xf0, 0x3f, 0x55]);
}

#[test]
fn single_round_trip_is_exact() {
    for v in singles() {
        let mut buffer = vec![0u8; 12];
        F32::new(v.to_bits()).write(&mut buffer, 4, 8);
        assert_eq!(buffer.len(), 12);
        assert_eq!(&buffer[4..8], &v.to_le_bytes()[..]);
        let read = F32::read(&buffer, 4, 8);
        assert_eq!(read.get(), v.to_bits());
    }
}

#[test]
fn double_round_trip_is_exact() {
    for v in doubles() {
        let mut buffer = vec![0u8; 16];
        F64::new(v.to_bits()).write(&mut buffer, 8, 16);
        assert_eq!(buffer.len(), 16);
        assert_eq!(&buffer[8..16], &v.to_le_bytes()[..]);
        let read = F64::read(&buffer, 8, 16);
        assert_eq!(read.get(), v.to_bits());
    }
}

#[test]
fn check_accepts_a_finite_single_and_returns_the_marker() {
    let mut buffer = vec![0u8; 8];
    F32::new(2.5f32.to_bits()).write(&mut buffer, 4, 8);
    let marker = CheckedOffset::new(1234);
    let result = F32::check(&buffer, CheckedOffset::new(4), CheckedOffset::new(8), marker);
    assert_eq!(result, Ok(marker));
    assert_eq!(result.unwrap().unchecked_offset(), 1234);
}

#[test]
fn check_accepts_a_finite_double_and_returns_the_marker() {
    let mut buffer = vec![0u8; 8];
    F64::new((-2.5f64).to_bits()).write(&mut buffer, 0, 8);
    let marker = CheckedOffset::new(8);
    let result = F64::check(&buffer, CheckedOffset::new(0), CheckedOffset::new(8), marker);
    assert_eq!(result, Ok(marker));
}

#[test]
fn check_reports_a_non_finite_single_with_position_and_value() {
    for v in [f32::NAN, f32::INFINITY, f32::NEG_INFINITY] {
        let mut buffer = vec![0u8; 7];
        buffer[3..7].copy_from_slice(&v.to_le_bytes());
        let result = F32::check(
            &buffer,
            CheckedOffset::new(3),
            CheckedOffset::new(7),
            CheckedOffset::new(0),
        );
        assert_eq!(
            result,
            Err(EncodingError::UnsupportedFloat {
                position: 3,
                value: FloatBits::Single(v.to_bits()),
            })
        );
    }
}

#[test]
fn check_reports_a_non_finite_double_with_position_and_value() {
    for v in [f64::NAN, f64::INFINITY, f64::NEG_INFINITY] {
        let mut buffer = vec![0u8; 13];
        buffer[5..13].copy_from_slice(&v.to_le_bytes());
        let result = F64::check(
            &buffer,
            CheckedOffset::new(5),
            CheckedOffset::new(13),
            CheckedOffset::new(0),
        );
        assert_eq!(
            result,
            Err(EncodingError::UnsupportedFloat {
                position: 5,
                value: FloatBits::Double(v.to_bits()),
            })
        );
    }
}

#[test]
fn check_reports_a_range_that_ends_before_it_starts() {
    let buffer = vec![0u8; 8];
    let result = F32::check(
        &buffer,
        CheckedOffset::new(6),
        CheckedOffset::new(2),
        CheckedOffset::new(0),
    );
    assert_eq!(result, Err(EncodingError::OffsetUnderflow));
    let result = F64::check(
        &buffer,
        CheckedOffset::new(8),
        CheckedOffset::new(0),
        CheckedOffset::new(0),
    );
    assert_eq!(result, Err(EncodingError::OffsetUnderflow));
}

#[test]
fn checked_sums() {
    let a = CheckedOffset::new(40);
    let b = CheckedOffset::new(2);
    assert_eq!((a + b).map(CheckedOffset::unchecked_offset), Ok(42));
    assert_eq!((a + 2u32).map(CheckedOffset::unchecked_offset), Ok(42));
    let top = CheckedOffset::new(u32::MAX);
    assert_eq!((top + CheckedOffset::new(0)).map(CheckedOffset::unchecked_offset), Ok(u32::MAX));
    assert_eq!(top + CheckedOffset::new(1), Err(EncodingError::OffsetOverflow));
    assert_eq!(top + 1u32, Err(EncodingError::OffsetOverflow));
    assert_eq!(top + top, Err(EncodingError::OffsetOverflow));
    assert_eq!(
        CheckedOffset::new(0x8000_0000) + CheckedOffset::new(0x8000_0000),
        Err(EncodingError::OffsetOverflow)
    );
}

#[test]
fn checked_differences() {
    let a = CheckedOffset::new(40);
    let b = CheckedOffset::new(2);
    assert_eq!((a - b).map(CheckedOffset::unchecked_offset), Ok(38));
    assert_eq!((a - 2u32).map(CheckedOffset::unchecked_offset), Ok(38));
    assert_eq!((a - a).map(CheckedOffset::unchecked_offset), Ok(0));
    assert_eq!(b - a, Err(EncodingError::OffsetUnderflow));
    assert_eq!(b - 3u32, Err(EncodingError::OffsetUnderflow));
    assert_eq!(CheckedOffset::new(0) - CheckedOffset::new(1), Err(EncodingError::OffsetUnderflow));
    assert_eq!(
        (CheckedOffset::new(u32::MAX) - CheckedOffset::new(0)).map(CheckedOffset::unchecked_offset),
        Ok(u32::MAX)
    );
}

#[test]
fn singles_compare_as_numbers() {
    let values = singles();
    for a in &values {
        for b in &values {
            let x = F32::new(a.to_bits());
            let y = F32::new(b.to_bits());
            assert_eq!(x == y, a == b);
            assert_eq!(x.partial_cmp(&y), a.partial_cmp(b));
            assert_eq!(x < y, a < b);
        }
    }
}

#[test]
fn doubles_compare_as_numbers() {
    let values = doubles();
    for a in &values {
        for b in &values {
            let x = F64::new(a.to_bits());
            let y = F64::new(b.to_bits());
            assert_eq!(x == y, a == b);
            assert_eq!(x.partial_cmp(&y), a.partial_cmp(b));
            assert_eq!(x >= y, a >= b);
        }
    }
}

#[test]
fn check_refuses_a_range_of_the_wrong_width() {
    let buffer = vec![0u8; 8];
    let marker = CheckedOffset::new(0);
    assert_eq!(
        F64::check(&buffer, CheckedOffset::new(0), CheckedOffset::new(4), marker),
        Err(EncodingError::IncorrectFieldSize { position: 0, actual_size: 4, expected_size: 8 })
    );
    assert_eq!(
        F32::check(&buffer, CheckedOffset::new(1), CheckedOffset::new(8), marker),
        Err(EncodingError::IncorrectFieldSize { position: 1, actual_size: 7, expected_size: 4 })
    );
    assert_eq!(
        F32::check(&buffer, CheckedOffset::new(2), CheckedOffset::new(2), marker),
        Err(EncodingError::IncorrectFieldSize { position: 2, actual_size: 0, expected_size: 4 })
    );
    assert_eq!(
        F32::check(&buffer, CheckedOffset::new(0), CheckedOffset::new(u32::MAX), marker),
        Err(EncodingError::IncorrectFieldSize {
            position: 0,
            actual_size: u32::MAX,
            expected_size: 4,
        })
    );
}

#[test]
fn check_tests_the_width_before_the_bytes() {
    let buffer = f64::NAN.to_le_bytes().to_vec();
    assert_eq!(
        F32::check(&buffer, CheckedOffset::new(0), CheckedOffset::new(8), CheckedOffset::new(0)),
        Err(EncodingError::IncorrectFieldSize { position: 0, actual_size: 8, expected_size: 4 })
    );
    assert_eq!(
        F64::check(&buffer, CheckedOffset::new(0), CheckedOffset::new(8), CheckedOffset::new(9)),
        Err(EncodingError::UnsupportedFloat {
            position: 0,
            value: FloatBits::Double(f64::NAN.to_bits()),
        })
    );
}

#[test]
fn check_refuses_a_range_behind_the_buffer() {
    let buffer = vec![0u8; 7];
    let marker = CheckedOffset::new(0);
    assert_eq!(
        F32::check(&buffer, CheckedOffset::new(4), CheckedOffset::new(8), marker),
        Err(EncodingError::UnexpectedlyShortPayload { actual_size: 7, minimum_size: 8 })
    );
    assert_eq!(
        F64::check(&buffer, CheckedOffset::new(0), CheckedOffset::new(8), marker),
        Err(EncodingError::UnexpectedlyShortPayload { actual_size: 7, minimum_size: 8 })
    );
    assert_eq!(
        F64::check(&[], CheckedOffset::new(100), CheckedOffset::new(108), marker),
        Err(EncodingError::UnexpectedlyShortPayload { actual_size: 0, minimum_size: 108 })
    );
    assert_eq!(F32::check(&buffer, CheckedOffset::new(3), CheckedOffset::new(7), marker), Ok(marker));
}

#[test]
fn offsets_made_from_one_number_are_equal() {
    assert_eq!(CheckedOffset::new(40), CheckedOffset::new(40));
    assert_ne!(CheckedOffset::new(40), CheckedOffset::new(41));
    assert_eq!(CheckedOffset::new(38) + 2u32, Ok(CheckedOffset::new(40)));
}
