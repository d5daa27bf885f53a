//! Integers that are known to differ from zero.
//!
//! Identities and generations use zero for "absent", so the values that stand
//! for a present identity carry that fact in their type.

use vstd::prelude::*;

verus! {

/// A `u64` that differs from zero.
#[derive(Debug, Clone, Copy, PartialEq, Eq, PartialOrd, Ord, Hash, Structural)]
pub struct NonZeroU64 {
    pub(crate) value: u64,
}

/// A `u32` that differs from zero.
#[derive(Debug, Clone, Copy, PartialEq, Eq, PartialOrd, Ord, Hash, Structural)]
pub struct NonZeroU32 {
    pub(crate) value: u32,
}

impl NonZeroU64 {
    #[verifier::type_invariant]
    spec fn inv(self) -> bool {
        self.value != 0
    }

    /// The number itself.
    pub closed spec fn view(&self) -> u64 {
        self.value
    }

    pub fn new(value: u64) -> (result: Option<Self>)
        ensures
            result is None <==> value == 0,
            result matches Some(number) ==> number@ == value,
    {
        if value == 0 {
            None
        } else {
            Some(NonZeroU64 { value })
        }
    }

    /// A number that is known to differ from zero.
    pub fn known(value: u64) -> (number: Self)
        requires
            value != 0,
        ensures
            number@ == value,
    {
        NonZeroU64 { value }
    }

    pub fn get(self) -> (value: u64)
        ensures
            value == self@,
            value != 0,
    {
        proof {
            use_type_invariant(&self);
        }
        self.value
    }
}

impl NonZeroU32 {
    #[verifier::type_invariant]
    spec fn inv(self) -> bool {
        self.value != 0
    }

    /// The number itself.
    pub closed spec fn view(&self) -> u32 {
        self.value
    }

    pub fn new(value: u32) -> (result: Option<Self>)
        ensures
            result is None <==> value == 0,
            result matches Some(number) ==> number@ == value,
    {
        if value == 0 {
            None
        } else {
            Some(NonZeroU32 { value })
        }
    }

    /// A number that is known to differ from zero.
    pub fn known(value: u32) -> (number: Self)
        requires
            value != 0,
        ensures
            number@ == value,
    {
        NonZeroU32 { value }
    }

    pub fn get(self) -> (value: u32)
        ensures
            value == self@,
            value != 0,
    {
        proof {
            use_type_invariant(&self);
        }
        self.value
    }
}

/// Equal numbers make equal values.
pub broadcast proof fn nonzero_u64_ext(left: NonZeroU64, right: NonZeroU64)
    ensures
        (#[trigger] left@ == #[trigger] right@) ==> left == right,
{
}

/// Equal numbers make equal values.
pub broadcast proof fn nonzero_u32_ext(left: NonZeroU32, right: NonZeroU32)
    ensures
        (#[trigger] left@ == #[trigger] right@) ==> left == right,
{
}

} // verus!
