use vstd::prelude::*;

verus! {

/// The five condition flags of the 8080.
#[derive(Clone, Copy, Debug, PartialEq, Eq, Structural)]
pub struct Flags {
    /// Zero: the low byte of the result is 0.
    pub z: bool,
    /// Sign: bit 7 of the result.
    pub s: bool,
    /// Parity: the low byte of the result has an even number of set bits.
    pub p: bool,
    /// Carry out of bit 7, or borrow for the subtract forms.
    pub cy: bool,
    /// Auxiliary carry: carry out of bit 3.
    pub ac: bool,
}

impl Flags {
    /// All flags cleared.
    pub fn new() -> (r: Flags)
        ensures
            r == (Flags { z: false, s: false, p: false, cy: false, ac: false }),
    {
        Flags { z: false, s: false, p: false, cy: false, ac: false }
    }
}

} // verus!
