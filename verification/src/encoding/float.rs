//! Floating-point numbers that are never NaN nor infinite.
//!
//! A number is held as its IEEE 754 bit pattern, which the layout below writes
//! little-endian. A pattern is finite where its exponent bits are not all set.

use core::cmp::Ordering;
use vstd::prelude::*;
use vstd::slice::slice_subrange;
use vstd::std_specs::cmp::PartialEqSpecImpl;
use vstd::std_specs::cmp::PartialOrdSpecImpl;
use crate::bytes::{
    le_bytes, le_read_u32, le_read_u64, le_value, le_write_u32, le_write_u64,
    lemma_le_bytes_len, lemma_le_limits, lemma_le_value_of_bytes,
};
use crate::encoding::error::{EncodingError, FloatBits, Offset};
use crate::encoding::field::{check_range, Field};
use crate::encoding::offset::CheckedOffset;

verus! {

/// Whether a single-precision pattern is a finite number: its eight exponent
/// bits, above the 23 bits of the fraction, are not all set.
pub open spec fn is_finite_single(bits: u32) -> bool {
    bits / 0x80_0000 % 0x100 != 0xff
}

/// Whether a double-precision pattern is a finite number: its eleven exponent
/// bits, above the 52 bits of the fraction, are not all set.
pub open spec fn is_finite_double(bits: u64) -> bool {
    bits / 0x10_0000_0000_0000 % 0x800 != 0x7ff
}

/// Whether a single-precision pattern is an infinity of either sign: below
/// the sign bit, all exponent bits are set and the fraction is zero.
pub open spec fn is_infinite_single(bits: u32) -> bool {
    bits % 0x8000_0000 == 0x7f80_0000
}

/// Whether a single-precision pattern is a NaN: below the sign bit, all
/// exponent bits are set and the fraction is not zero.
pub open spec fn is_nan_single(bits: u32) -> bool {
    bits % 0x8000_0000 > 0x7f80_0000
}

/// Whether a double-precision pattern is an infinity of either sign.
pub open spec fn is_infinite_double(bits: u64) -> bool {
    bits % 0x8000_0000_0000_0000 == 0x7ff0_0000_0000_0000
}

/// Whether a double-precision pattern is a NaN.
pub open spec fn is_nan_double(bits: u64) -> bool {
    bits % 0x8000_0000_0000_0000 > 0x7ff0_0000_0000_0000
}

/// The finite patterns are those that are neither an infinity nor a NaN.
pub proof fn lemma_finite_is_neither_infinite_nor_nan(single: u32, double: u64)
    ensures
        is_finite_single(single) <==> !is_infinite_single(single) && !is_nan_single(single),
        is_finite_double(double) <==> !is_infinite_double(double) && !is_nan_double(double),
{
}

/// Of every pattern: `F32::try_from` accepts it and keeps it exactly where it
/// is finite, and gives `None` where it is an infinity or a NaN; `F32::new`
/// can be called on every finite pattern, and its precondition leaves out the
/// others, on which there is no value to return.
pub proof fn lemma_single_is_accepted_iff_finite(bits: u32, tried: Option<F32>)
    requires
        call_ensures(F32::try_from, (bits,), tried),
    ensures
        !is_infinite_single(bits) && !is_nan_single(bits) ==> tried.is_some() && tried.unwrap()@
            == bits && call_requires(F32::new, (bits,)),
        is_infinite_single(bits) || is_nan_single(bits) ==> tried.is_none(),
{
    lemma_finite_is_neither_infinite_nor_nan(bits, 0);
}

/// Of every pattern: `F64::try_from` accepts it and keeps it exactly where it
/// is finite, and gives `None` where it is an infinity or a NaN; `F64::new`
/// can be called on every finite pattern, and its precondition leaves out the
/// others, on which there is no value to return.
pub proof fn lemma_double_is_accepted_iff_finite(bits: u64, tried: Option<F64>)
    requires
        call_ensures(F64::try_from, (bits,), tried),
    ensures
        !is_infinite_double(bits) && !is_nan_double(bits) ==> tried.is_some() && tried.unwrap()@
            == bits && call_requires(F64::new, (bits,)),
        is_infinite_double(bits) || is_nan_double(bits) ==> tried.is_none(),
{
    lemma_finite_is_neither_infinite_nor_nan(0, bits);
}

/// Where a finite single-precision pattern stands among the numbers: patterns
/// below the sign bit stand in their own order, patterns with the sign bit in
/// the opposite order below them, and the two zeros stand together.
pub open spec fn rank_single(bits: u32) -> int {
    if bits < 0x8000_0000 {
        bits as int
    } else {
        0x8000_0000 - bits
    }
}

/// Where a finite double-precision pattern stands among the numbers; see [`rank_single`].
pub open spec fn rank_double(bits: u64) -> int {
    if bits < 0x8000_0000_0000_0000 {
        bits as int
    } else {
        0x8000_0000_0000_0000 - bits
    }
}

/// How two ranks compare.
pub open spec fn order_of(a: int, b: int) -> Ordering {
    if a < b {
        Ordering::Less
    } else if a == b {
        Ordering::Equal
    } else {
        Ordering::Greater
    }
}

/// A single-precision number that is finite.
#[derive(Debug, Clone, Copy)]
pub struct F32 {
    bits: u32,
}

impl View for F32 {
    type V = u32;

    /// The bit pattern of the number.
    closed spec fn view(&self) -> u32 {
        self.bits
    }
}

impl F32 {
    #[verifier::type_invariant]
    spec fn finite(self) -> bool {
        is_finite_single(self.bits)
    }

    /// The number with the given bit pattern, which must be finite.
    pub fn new(bits: u32) -> (value: Self)
        requires
            is_finite_single(bits),
        ensures
            value@ == bits,
    {
        F32 { bits }
    }

    /// The number with the given bit pattern, or `None` for a NaN or an infinity.
    pub fn try_from(bits: u32) -> (value: Option<Self>)
        ensures
            is_finite_single(bits) ==> value.is_some() && value.unwrap()@ == bits,
            !is_finite_single(bits) ==> value.is_none(),
    {
        if bits / 0x80_0000 % 0x100 != 0xff {
            Some(F32 { bits })
        } else {
            None
        }
    }

    /// The bit pattern of the number.
    pub fn get(&self) -> (bits: u32)
        ensures
            bits == self@,
            is_finite_single(bits),
    {
        proof {
            use_type_invariant(self);
        }
        self.bits
    }
}

impl PartialEq for F32 {
    /// Whether the two numbers are equal; a zero equals the zero of the other sign.
    fn eq(&self, other: &F32) -> (equal: bool) {
        let a: u32 = self.bits;
        let b: u32 = other.bits;
        a == b || (a % 0x8000_0000 == 0 && b % 0x8000_0000 == 0)
    }
}

impl PartialEqSpecImpl for F32 {
    open spec fn obeys_eq_spec() -> bool {
        true
    }

    open spec fn eq_spec(&self, other: &F32) -> bool {
        rank_single(self@) == rank_single(other@)
    }
}

impl PartialOrd for F32 {
    /// How the two numbers compare; there is always an answer.
    fn partial_cmp(&self, other: &F32) -> (order: Option<Ordering>) {
        let a: u32 = self.bits;
        let b: u32 = other.bits;
        let order = if a < 0x8000_0000 {
            if b < 0x8000_0000 {
                if a < b {
                    Ordering::Less
                } else if a == b {
                    Ordering::Equal
                } else {
                    Ordering::Greater
                }
            } else if a == 0 && b == 0x8000_0000 {
                Ordering::Equal
            } else {
                Ordering::Greater
            }
        } else if b < 0x8000_0000 {
            if a == 0x8000_0000 && b == 0 {
                Ordering::Equal
            } else {
                Ordering::Less
            }
        } else if a > b {
            Ordering::Less
        } else if a == b {
            Ordering::Equal
        } else {
            Ordering::Greater
        };
        Some(order)
    }
}

impl PartialOrdSpecImpl for F32 {
    open spec fn obeys_partial_cmp_spec() -> bool {
        true
    }

    open spec fn partial_cmp_spec(&self, other: &F32) -> Option<Ordering> {
        Some(order_of(rank_single(self@), rank_single(other@)))
    }
}

impl Field for F32 {
    open spec fn width() -> nat {
        4
    }

    open spec fn valid(value: u32) -> bool {
        is_finite_single(value)
    }

    open spec fn encoding(value: u32) -> Seq<u8> {
        le_bytes(value as nat, 4)
    }

    open spec fn decoding(bytes: Seq<u8>, position: Offset) -> Result<u32, EncodingError> {
        let bits = le_value(bytes) as u32;
        if is_finite_single(bits) {
            Ok(bits)
        } else {
            Err(EncodingError::UnsupportedFloat { position, value: FloatBits::Single(bits) })
        }
    }

    proof fn lemma_round_trip(value: u32, position: Offset) {
        lemma_le_limits();
        lemma_le_bytes_len(value as nat, 4);
        lemma_le_value_of_bytes(value as nat, 4);
    }

    fn field_size() -> (size: Offset) {
        4
    }

    fn read(buffer: &[u8], from: Offset, to: Offset) -> (value: Self) {
        let range = slice_subrange(buffer, from as usize, to as usize);
        assert(range@.subrange(0, 4) =~= range@);
        F32::new(le_read_u32(range))
    }

    fn write(&self, buffer: &mut Vec<u8>, from: Offset, to: Offset) {
        le_write_u32(buffer, from as usize, to as usize, self.get());
    }

    fn check(
        buffer: &[u8],
        from: CheckedOffset,
        to: CheckedOffset,
        latest_segment: CheckedOffset,
    ) -> (result: Result<CheckedOffset, EncodingError>) {
        check_range(buffer, from, to, Self::field_size())?;
        let from: Offset = from.unchecked_offset();
        let to: Offset = to.unchecked_offset();
        let range = slice_subrange(buffer, from as usize, to as usize);
        assert(range@.subrange(0, 4) =~= range@);
        let bits: u32 = le_read_u32(range);
        match F32::try_from(bits) {
            Some(_) => Ok(latest_segment),
            None => Err(
                EncodingError::UnsupportedFloat { position: from, value: FloatBits::Single(bits) },
            ),
        }
    }
}

/// A double-precision number that is finite.
#[derive(Debug, Clone, Copy)]
pub struct F64 {
    bits: u64,
}

impl View for F64 {
    type V = u64;

    /// The bit pattern of the number.
    closed spec fn view(&self) -> u64 {
        self.bits
    }
}

impl F64 {
    #[verifier::type_invariant]
    spec fn finite(self) -> bool {
        is_finite_double(self.bits)
    }

    /// The number with the given bit pattern, which must be finite.
    pub fn new(bits: u64) -> (value: Self)
        requires
            is_finite_double(bits),
        ensures
            value@ == bits,
    {
        F64 { bits }
    }

    /// The number with the given bit pattern, or `None` for a NaN or an infinity.
    pub fn try_from(bits: u64) -> (value: Option<Self>)
        ensures
            is_finite_double(bits) ==> value.is_some() && value.unwrap()@ == bits,
            !is_finite_double(bits) ==> value.is_none(),
    {
        if bits / 0x10_0000_0000_0000 % 0x800 != 0x7ff {
            Some(F64 { bits })
        } else {
            None
        }
    }

    /// The bit pattern of the number.
    pub fn get(&self) -> (bits: u64)
        ensures
            bits == self@,
            is_finite_double(bits),
    {
        proof {
            use_type_invariant(self);
        }
        self.bits
    }
}

impl PartialEq for F64 {
    /// Whether the two numbers are equal; a zero equals the zero of the other sign.
    fn eq(&self, other: &F64) -> (equal: bool) {
        let a: u64 = self.bits;
        let b: u64 = other.bits;
        a == b || (a % 0x8000_0000_0000_0000 == 0 && b % 0x8000_0000_0000_0000 == 0)
    }
}

impl PartialEqSpecImpl for F64 {
    open spec fn obeys_eq_spec() -> bool {
        true
    }

    open spec fn eq_spec(&self, other: &F64) -> bool {
        rank_double(self@) == rank_double(other@)
    }
}

impl PartialOrd for F64 {
    /// How the two numbers compare; there is always an answer.
    fn partial_cmp(&self, other: &F64) -> (order: Option<Ordering>) {
        let a: u64 = self.bits;
        let b: u64 = other.bits;
        let order = if a < 0x8000_0000_0000_0000 {
            if b < 0x8000_0000_0000_0000 {
                if a < b {
                    Ordering::Less
                } else if a == b {
                    Ordering::Equal
                } else {
                    Ordering::Greater
                }
            } else if a == 0 && b == 0x8000_0000_0000_0000 {
                Ordering::Equal
            } else {
                Ordering::Greater
            }
        } else if b < 0x8000_0000_0000_0000 {
            if a == 0x8000_0000_0000_0000 && b == 0 {
                Ordering::Equal
            } else {
                Ordering::Less
            }
        } else if a > b {
            Ordering::Less
        } else if a == b {
            Ordering::Equal
        } else {
            Ordering::Greater
        };
        Some(order)
    }
}

impl PartialOrdSpecImpl for F64 {
    open spec fn obeys_partial_cmp_spec() -> bool {
        true
    }

    open spec fn partial_cmp_spec(&self, other: &F64) -> Option<Ordering> {
        Some(order_of(rank_double(self@), rank_double(other@)))
    }
}

impl Field for F64 {
    open spec fn width() -> nat {
        8
    }

    open spec fn valid(value: u64) -> bool {
        is_finite_double(value)
    }

    open spec fn encoding(value: u64) -> Seq<u8> {
        le_bytes(value as nat, 8)
    }

    open spec fn decoding(bytes: Seq<u8>, position: Offset) -> Result<u64, EncodingError> {
        let bits = le_value(bytes) as u64;
        if is_finite_double(bits) {
            Ok(bits)
        } else {
            Err(EncodingError::UnsupportedFloat { position, value: FloatBits::Double(bits) })
        }
    }

    proof fn lemma_round_trip(value: u64, position: Offset) {
        lemma_le_limits();
        lemma_le_bytes_len(value as nat, 8);
        lemma_le_value_of_bytes(value as nat, 8);
    }

    fn field_size() -> (size: Offset) {
        8
    }

    fn read(buffer: &[u8], from: Offset, to: Offset) -> (value: Self) {
        let range = slice_subrange(buffer, from as usize, to as usize);
        assert(range@.subrange(0, 8) =~= range@);
        F64::new(le_read_u64(range))
    }

    fn write(&self, buffer: &mut Vec<u8>, from: Offset, to: Offset) {
        le_write_u64(buffer, from as usize, to as usize, self.get());
    }

    fn check(
        buffer: &[u8],
        from: CheckedOffset,
        to: CheckedOffset,
        latest_segment: CheckedOffset,
    ) -> (result: Result<CheckedOffset, EncodingError>) {
        check_range(buffer, from, to, Self::field_size())?;
        let from: Offset = from.unchecked_offset();
        let to: Offset = to.unchecked_offset();
        let range = slice_subrange(buffer, from as usize, to as usize);
        assert(range@.subrange(0, 8) =~= range@);
        let bits: u64 = le_read_u64(range);
        match F64::try_from(bits) {
            Some(_) => Ok(latest_segment),
            None => Err(
                EncodingError::UnsupportedFloat { position: from, value: FloatBits::Double(bits) },
            ),
        }
    }
}

} // verus!
