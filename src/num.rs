//! Integers that are known to be non-zero.

use vstd::prelude::*;

verus! {

/// An 8-bit unsigned integer that is never zero.
#[derive(Clone, Copy)]
pub struct NonZeroU8 {
    value: u8,
}

impl View for NonZeroU8 {
    type V = u8;

    closed spec fn view(&self) -> u8 {
        self.value
    }
}

impl NonZeroU8 {
    #[verifier::type_invariant]
    spec fn inv(self) -> bool {
        self.value != 0
    }

    /// Wraps `value`, or returns `None` when it is zero.
    pub fn new(value: u8) -> (r: Option<NonZeroU8>)
        ensures
            r is None <==> value == 0,
            r matches Some(n) ==> n@ == value,
    {
        if value == 0 {
            None
        } else {
            Some(NonZeroU8 { value })
        }
    }

    /// The wrapped value.
    pub fn get(&self) -> (r: u8)
        ensures
            r == self@,
            r != 0,
    {
        proof {
            use_type_invariant(self);
        }
        self.value
    }
}

} // verus!
