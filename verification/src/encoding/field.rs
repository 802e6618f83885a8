//! The capability of a fixed-size value to live at a byte range of a buffer.

use vstd::prelude::*;
use crate::encoding::error::{EncodingError, Offset};
use crate::encoding::offset::CheckedOffset;

verus! {

/// Why the range from `from` to `to` cannot hold a field of `width` bytes in a
/// buffer of `len` bytes, or `None` where it can. A range that ends before it
/// starts is an underflow; then comes a range of another width than the
/// field's; then a range that ends behind the buffer.
pub open spec fn range_refusal(width: nat, len: nat, from: int, to: int) -> Option<
    EncodingError,
> {
    if to < from {
        Some(EncodingError::OffsetUnderflow)
    } else if to - from != width {
        Some(
            EncodingError::IncorrectFieldSize {
                position: from as Offset,
                actual_size: (to - from) as Offset,
                expected_size: width as Offset,
            },
        )
    } else if to > len {
        Some(
            EncodingError::UnexpectedlyShortPayload {
                actual_size: len as Offset,
                minimum_size: to as Offset,
            },
        )
    } else {
        None
    }
}

/// What `check` answers: the reason why the range cannot hold the field, if
/// there is one; else the marker it was handed where the bytes of the range
/// stand for a value, or the reason why they stand for none.
pub open spec fn check_outcome<T>(
    refusal: Option<EncodingError>,
    decoded: Result<T, EncodingError>,
    latest_segment: CheckedOffset,
) -> Result<CheckedOffset, EncodingError> {
    match refusal {
        Some(e) => Err(e),
        None => match decoded {
            Ok(_) => Ok(latest_segment),
            Err(e) => Err(e),
        },
    }
}

/// Tests whether the range from `from` to `to` can hold a field of `width`
/// bytes in `buffer`, and says why where it cannot.
pub fn check_range(
    buffer: &[u8],
    from: CheckedOffset,
    to: CheckedOffset,
    width: Offset,
) -> (result: Result<(), EncodingError>)
    ensures
        match range_refusal(width as nat, buffer@.len(), from@, to@) {
            Some(e) => result == Err::<(), EncodingError>(e),
            None => result == Ok::<(), EncodingError>(()),
        },
{
    let size: Offset = (to - from)?.unchecked_offset();
    let position: Offset = from.unchecked_offset();
    let end: Offset = to.unchecked_offset();
    if size != width {
        return Err(
            EncodingError::IncorrectFieldSize {
                position,
                actual_size: size,
                expected_size: width,
            },
        );
    }
    if end as usize > buffer.len() {
        return Err(
            EncodingError::UnexpectedlyShortPayload {
                actual_size: buffer.len() as Offset,
                minimum_size: end,
            },
        );
    }
    Ok(())
}

/// A value of fixed width that can be written to and read from a byte range.
///
/// All contracts speak of the value's view and of three descriptions of the
/// layout: its width, the bytes of a value, and the value of some bytes.
pub trait Field: Sized + View {
    /// The number of bytes every value takes.
    spec fn width() -> nat;

    /// Whether `value` is the view of some value of this type.
    spec fn valid(value: Self::V) -> bool;

    /// The bytes that stand for `value`.
    spec fn encoding(value: Self::V) -> Seq<u8>;

    /// What `bytes`, found at `position`, stand for: a value, or the reason why
    /// they stand for none.
    spec fn decoding(bytes: Seq<u8>, position: Offset) -> Result<Self::V, EncodingError>;

    /// Every value takes `width()` bytes, and its bytes stand for it wherever they are found.
    proof fn lemma_round_trip(value: Self::V, position: Offset)
        requires
            Self::valid(value),
        ensures
            Self::encoding(value).len() == Self::width(),
            Self::decoding(Self::encoding(value), position) == Ok::<Self::V, EncodingError>(value),
    ;

    /// The width of a value in bytes.
    fn field_size() -> (size: Offset)
        ensures
            size == Self::width(),
    ;

    /// Reads the value at `buffer[from..to]`.
    ///
    /// The range must have been validated with [`Field::check`] beforehand.
    fn read(buffer: &[u8], from: Offset, to: Offset) -> (value: Self)
        requires
            from <= to <= buffer@.len(),
            to - from == Self::width(),
            Self::decoding(buffer@.subrange(from as int, to as int), from) is Ok,
        ensures
            Self::decoding(buffer@.subrange(from as int, to as int), from) == Ok::<
                Self::V,
                EncodingError,
            >(value@),
            Self::valid(value@),
    ;

    /// Writes the value over `buffer[from..to]`, leaving the rest of the buffer as it was.
    fn write(&self, buffer: &mut Vec<u8>, from: Offset, to: Offset)
        requires
            from <= to <= old(buffer)@.len(),
            to - from == Self::width(),
        ensures
            final(buffer)@ == old(buffer)@.subrange(0, from as int) + Self::encoding(self@) + old(
                buffer,
            )@.subrange(to as int, old(buffer)@.len() as int),
    ;

    /// Validates the range and the bytes at `buffer[from..to]` before they are trusted.
    ///
    /// Every range is admitted. One that cannot hold the field is refused
    /// with the failure that [`range_refusal`] names, and its bytes are not
    /// looked at. Otherwise the answer is `latest_segment` where the bytes
    /// stand for a value, else the failure that `decoding` names.
    fn check(
        buffer: &[u8],
        from: CheckedOffset,
        to: CheckedOffset,
        latest_segment: CheckedOffset,
    ) -> (result: Result<CheckedOffset, EncodingError>)
        ensures
            result == check_outcome(
                range_refusal(Self::width(), buffer@.len(), from@, to@),
                Self::decoding(buffer@.subrange(from@, to@), from@ as Offset),
                latest_segment,
            ),
    ;
}

/// What `write` leaves in a buffer is what `read` finds there: after a valid
/// value is written over a range of the right width, the buffer is as long as
/// before and the bytes of the range stand for the value.
pub proof fn lemma_read_after_write<F: Field>(
    before: Seq<u8>,
    from: Offset,
    to: Offset,
    value: F::V,
)
    requires
        from <= to <= before.len(),
        to - from == F::width(),
        F::valid(value),
    ensures
        ({
            let after = before.subrange(0, from as int) + F::encoding(value) + before.subrange(
                to as int,
                before.len() as int,
            );
            &&& after.len() == before.len()
            &&& after.subrange(from as int, to as int) == F::encoding(value)
            &&& F::decoding(after.subrange(from as int, to as int), from) == Ok::<
                F::V,
                EncodingError,
            >(value)
        }),
{
    F::lemma_round_trip(value, from);
    let after = before.subrange(0, from as int) + F::encoding(value) + before.subrange(
        to as int,
        before.len() as int,
    );
    assert(after.subrange(from as int, to as int) =~= F::encoding(value));
}

} // verus!
