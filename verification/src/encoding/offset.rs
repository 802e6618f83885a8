//! Byte positions whose arithmetic fails instead of wrapping.

use vstd::prelude::*;
use vstd::std_specs::ops::AddSpecImpl;
use vstd::std_specs::ops::SubSpecImpl;
use crate::encoding::error::{EncodingError, Offset};

verus! {

/// An [`Offset`] whose sums and differences are checked.
///
/// `a + b` and `a - b`, with a checked or a raw offset on the right, give
/// `Ok` with the exact result or the failure that says why there is none.
#[derive(Debug, Clone, Copy, PartialEq, Eq, Structural)]
pub struct CheckedOffset {
    offset: Offset,
}

impl View for CheckedOffset {
    type V = int;

    closed spec fn view(&self) -> int {
        self.offset as int
    }
}

/// What a sum of offsets is: the sum where it fits in an [`Offset`], else the overflow failure.
pub open spec fn checked_sum(a: int, b: int) -> Result<int, EncodingError> {
    if a + b <= Offset::MAX {
        Ok(a + b)
    } else {
        Err(EncodingError::OffsetOverflow)
    }
}

/// What a difference of offsets is: the difference where it is not negative, else the
/// underflow failure.
pub open spec fn checked_difference(a: int, b: int) -> Result<int, EncodingError> {
    if a >= b {
        Ok(a - b)
    } else {
        Err(EncodingError::OffsetUnderflow)
    }
}

/// The outcome of a checked operation as a plain integer, or the failure.
pub open spec fn outcome(result: Result<CheckedOffset, EncodingError>) -> Result<
    int,
    EncodingError,
> {
    match result {
        Ok(offset) => Ok(offset@),
        Err(e) => Err(e),
    }
}

impl CheckedOffset {
    /// Wraps a raw offset.
    pub fn new(offset: Offset) -> (result: Self)
        ensures
            result@ == offset,
    {
        CheckedOffset { offset }
    }

    /// The raw offset, for use once it is known to be in range.
    pub fn unchecked_offset(self) -> (offset: Offset)
        ensures
            offset == self@,
    {
        self.offset
    }

    /// The checked offset with the given view.
    spec fn of(value: int) -> CheckedOffset {
        CheckedOffset { offset: value as Offset }
    }

    /// The checked outcome that stands for a plain one.
    spec fn lift(plain: Result<int, EncodingError>) -> Result<
        CheckedOffset,
        EncodingError,
    > {
        match plain {
            Ok(value) => Ok(Self::of(value)),
            Err(e) => Err(e),
        }
    }
}

/// Two checked offsets with the same view are the same offset.
pub proof fn lemma_view_is_injective(a: CheckedOffset, b: CheckedOffset)
    requires
        a@ == b@,
    ensures
        a == b,
{
}

/// The view of a checked offset is a number that an [`Offset`] can hold.
pub proof fn lemma_view_in_range(a: CheckedOffset)
    ensures
        0 <= a@ <= Offset::MAX,
{
}

impl core::ops::Add for CheckedOffset {
    type Output = Result<CheckedOffset, EncodingError>;

    /// `self + rhs`, or [`EncodingError::OffsetOverflow`] where the sum does not fit.
    fn add(self, rhs: CheckedOffset) -> (result: Result<CheckedOffset, EncodingError>)
        ensures
            outcome(result) == checked_sum(self@, rhs@),
    {
        match self.offset.checked_add(rhs.offset) {
            Some(offset) => Ok(CheckedOffset { offset }),
            None => Err(EncodingError::OffsetOverflow),
        }
    }
}

impl AddSpecImpl for CheckedOffset {
    open spec fn obeys_add_spec() -> bool {
        true
    }

    open spec fn add_req(self, rhs: CheckedOffset) -> bool {
        true
    }

    closed spec fn add_spec(self, rhs: CheckedOffset) -> Result<CheckedOffset, EncodingError> {
        Self::lift(checked_sum(self@, rhs@))
    }
}

impl core::ops::Add<Offset> for CheckedOffset {
    type Output = Result<CheckedOffset, EncodingError>;

    /// `self + rhs`, or [`EncodingError::OffsetOverflow`] where the sum does not fit.
    fn add(self, rhs: Offset) -> (result: Result<CheckedOffset, EncodingError>)
        ensures
            outcome(result) == checked_sum(self@, rhs as int),
    {
        match self.offset.checked_add(rhs) {
            Some(offset) => Ok(CheckedOffset { offset }),
            None => Err(EncodingError::OffsetOverflow),
        }
    }
}

impl AddSpecImpl<Offset> for CheckedOffset {
    open spec fn obeys_add_spec() -> bool {
        true
    }

    open spec fn add_req(self, rhs: Offset) -> bool {
        true
    }

    closed spec fn add_spec(self, rhs: Offset) -> Result<CheckedOffset, EncodingError> {
        Self::lift(checked_sum(self@, rhs as int))
    }
}

impl core::ops::Sub for CheckedOffset {
    type Output = Result<CheckedOffset, EncodingError>;

    /// `self - rhs`, or [`EncodingError::OffsetUnderflow`] where `rhs` is the larger.
    fn sub(self, rhs: CheckedOffset) -> (result: Result<CheckedOffset, EncodingError>)
        ensures
            outcome(result) == checked_difference(self@, rhs@),
    {
        match self.offset.checked_sub(rhs.offset) {
            Some(offset) => Ok(CheckedOffset { offset }),
            None => Err(EncodingError::OffsetUnderflow),
        }
    }
}

impl SubSpecImpl for CheckedOffset {
    open spec fn obeys_sub_spec() -> bool {
        true
    }

    open spec fn sub_req(self, rhs: CheckedOffset) -> bool {
        true
    }

    closed spec fn sub_spec(self, rhs: CheckedOffset) -> Result<CheckedOffset, EncodingError> {
        Self::lift(checked_difference(self@, rhs@))
    }
}

impl core::ops::Sub<Offset> for CheckedOffset {
    type Output = Result<CheckedOffset, EncodingError>;

    /// `self - rhs`, or [`EncodingError::OffsetUnderflow`] where `rhs` is the larger.
    fn sub(self, rhs: Offset) -> (result: Result<CheckedOffset, EncodingError>)
        ensures
            outcome(result) == checked_difference(self@, rhs as int),
    {
        match self.offset.checked_sub(rhs) {
            Some(offset) => Ok(CheckedOffset { offset }),
            None => Err(EncodingError::OffsetUnderflow),
        }
    }
}

impl SubSpecImpl<Offset> for CheckedOffset {
    open spec fn obeys_sub_spec() -> bool {
        true
    }

    open spec fn sub_req(self, rhs: Offset) -> bool {
        true
    }

    closed spec fn sub_spec(self, rhs: Offset) -> Result<CheckedOffset, EncodingError> {
        Self::lift(checked_difference(self@, rhs as int))
    }
}

} // verus!
