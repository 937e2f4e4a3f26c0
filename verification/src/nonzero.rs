//! Numbers that are not zero.

use vstd::prelude::*;

verus! {

/// A number of 16 bits that is not zero.
#[derive(Clone, Copy, Debug, PartialEq, Eq, Hash, Structural)]
pub struct NonZeroU16 {
    value: u16,
}

impl NonZeroU16 {
    #[verifier::type_invariant]
    closed spec fn is_non_zero(self) -> bool {
        self.value != 0
    }

    /// The number itself.
    pub closed spec fn spec_get(self) -> u16 {
        self.value
    }

    /// Takes a number, or returns `None` when it is zero.
    pub fn new(value: u16) -> (number: Option<NonZeroU16>)
        ensures
            value == 0 ==> number is None,
            value != 0 ==> (number matches Some(number) && number.get() == value),
    {
        if value == 0 {
            None
        } else {
            Some(NonZeroU16 { value })
        }
    }

    pub(crate) fn of(value: u16) -> (number: NonZeroU16)
        requires
            value != 0,
        ensures
            number.get() == value,
    {
        NonZeroU16 { value }
    }

    /// Returns the number itself.
    #[verifier::when_used_as_spec(spec_get)]
    pub fn get(self) -> (value: u16)
        ensures
            value == self.get(),
            value != 0,
    {
        proof {
            use_type_invariant(self);
        }
        self.value
    }
}

/// A number of 32 bits that is not zero.
#[derive(Clone, Copy, Debug, PartialEq, Eq, Hash, Structural)]
pub struct NonZeroU32 {
    value: u32,
}

impl NonZeroU32 {
    #[verifier::type_invariant]
    closed spec fn is_non_zero(self) -> bool {
        self.value != 0
    }

    /// The number itself.
    pub closed spec fn spec_get(self) -> u32 {
        self.value
    }

    /// Takes a number, or returns `None` when it is zero.
    pub fn new(value: u32) -> (number: Option<NonZeroU32>)
        ensures
            value == 0 ==> number is None,
            value != 0 ==> (number matches Some(number) && number.get() == value),
    {
        if value == 0 {
            None
        } else {
            Some(NonZeroU32 { value })
        }
    }

    pub(crate) fn of(value: u32) -> (number: NonZeroU32)
        requires
            value != 0,
        ensures
            number.get() == value,
    {
        NonZeroU32 { value }
    }

    /// Returns the number itself.
    #[verifier::when_used_as_spec(spec_get)]
    pub fn get(self) -> (value: u32)
        ensures
            value == self.get(),
            value != 0,
    {
        proof {
            use_type_invariant(self);
        }
        self.value
    }
}

} // verus!
