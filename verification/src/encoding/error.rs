//! Failures of the binary encoding layer.

use vstd::prelude::*;

verus! {

/// A byte position or a byte count inside a buffer.
pub type Offset = u32;

/// The bit pattern of a floating-point number that was refused.
#[derive(Debug, Clone, Copy, PartialEq, Eq, Structural)]
pub enum FloatBits {
    /// An IEEE 754 single-precision pattern.
    Single(u32),
    /// An IEEE 754 double-precision pattern.
    Double(u64),
}

/// Why a value could not be laid out in, or accepted from, a buffer.
#[derive(Debug, Clone, Copy, PartialEq, Eq, Structural)]
pub enum EncodingError {
    /// A sum of offsets does not fit in an [`Offset`].
    OffsetOverflow,
    /// A difference of offsets would be negative.
    OffsetUnderflow,
    /// The range that starts at `position` is `actual_size` bytes wide, and the
    /// field takes `expected_size`.
    IncorrectFieldSize { position: Offset, actual_size: Offset, expected_size: Offset },
    /// The buffer holds `actual_size` bytes, and the range ends at `minimum_size`.
    UnexpectedlyShortPayload { actual_size: Offset, minimum_size: Offset },
    /// The bytes at `position` hold a NaN or an infinity.
    UnsupportedFloat { position: Offset, value: FloatBits },
}

} // verus!
