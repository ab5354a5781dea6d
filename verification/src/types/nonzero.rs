//! Integers that are never zero.
use vstd::prelude::*;

verus! {

/// A `u16` that is never zero, such as an HTTP status code.
#[derive(Debug, Clone, Copy, PartialEq, Eq, PartialOrd, Ord, Hash, Structural)]
pub struct NonZeroU16(u16);

impl NonZeroU16 {
    #[verifier::type_invariant]
    spec fn not_zero(self) -> bool {
        self.0 != 0
    }
}

impl View for NonZeroU16 {
    type V = u16;

    closed spec fn view(&self) -> u16 {
        self.0
    }
}

impl NonZeroU16 {
    /// The value, or `None` for zero.
    pub fn new(n: u16) -> (r: Option<NonZeroU16>)
        ensures
            r is Some <==> n != 0,
            r matches Some(v) ==> v@ == n,
    {
        if n == 0 {
            None
        } else {
            Some(NonZeroU16(n))
        }
    }

    /// The value, which is never zero.
    pub fn get(&self) -> (n: u16)
        ensures
            n == self@,
            n != 0,
    {
        proof {
            use_type_invariant(self);
        }
        self.0
    }
}

/// A `u32` that is never zero, such as the amount of a duration.
#[derive(Debug, Clone, Copy, PartialEq, Eq, PartialOrd, Ord, Hash, Structural)]
pub struct NonZeroU32(u32);

impl NonZeroU32 {
    #[verifier::type_invariant]
    spec fn not_zero(self) -> bool {
        self.0 != 0
    }
}

impl View for NonZeroU32 {
    type V = u32;

    closed spec fn view(&self) -> u32 {
        self.0
    }
}

impl NonZeroU32 {
    /// The value, or `None` for zero.
    pub fn new(n: u32) -> (r: Option<NonZeroU32>)
        ensures
            r is Some <==> n != 0,
            r matches Some(v) ==> v@ == n,
    {
        if n == 0 {
            None
        } else {
            Some(NonZeroU32(n))
        }
    }

    /// The value, which is never zero.
    pub fn get(&self) -> (n: u32)
        ensures
            n == self@,
            n != 0,
    {
        proof {
            use_type_invariant(self);
        }
        self.0
    }
}

} // verus!
