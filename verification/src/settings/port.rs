//! A port number that cannot be 0.

use vstd::prelude::*;

verus! {

/// A non-zero 16-bit port number (port 0 could never be connected to).
#[derive(Clone, Copy, Debug, PartialEq, Eq, PartialOrd, Ord, Hash, Structural)]
pub struct NonZeroU16(u16);

impl View for NonZeroU16 {
    type V = u16;

    /// The port number.
    closed spec fn view(&self) -> u16 {
        self.0
    }
}

impl NonZeroU16 {
    #[verifier::type_invariant]
    spec fn nonzero(self) -> bool {
        self.0 != 0
    }

    /// The port `value`; `None` for 0.
    pub fn new(value: u16) -> (r: Option<NonZeroU16>)
        ensures
            value != 0 ==> (r matches Some(p) && p@ == value),
            value == 0 ==> r is None,
    {
        if value != 0 {
            Some(NonZeroU16(value))
        } else {
            None
        }
    }

    /// The port number (never 0).
    pub fn get(self) -> (r: u16)
        ensures
            r == self@,
            r != 0,
    {
        proof {
            use_type_invariant(self);
        }
        self.0
    }
}

} // verus!
