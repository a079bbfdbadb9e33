//! The condition code.

use vstd::prelude::*;
use crate::word::signed_value;

verus! {

/// The sign of the value last written to a register. Exactly one is current.
#[derive(Clone, Copy, Debug, PartialEq, Eq, Structural)]
pub enum Flag {
    Pos,
    Zero,
    Neg,
}

impl Flag {
    /// The bit that stands for this flag in the status register, and in the
    /// condition mask of a branch.
    pub open spec fn mask(self) -> u16 {
        match self {
            Flag::Pos => 1,
            Flag::Zero => 2,
            Flag::Neg => 4,
        }
    }

    /// The flag that a written value sets: by its sign as a two's-complement
    /// number.
    pub open spec fn of(word: u16) -> Flag {
        if signed_value(word) == 0 {
            Flag::Zero
        } else if signed_value(word) < 0 {
            Flag::Neg
        } else {
            Flag::Pos
        }
    }

    /// The status-register bit of this flag.
    #[verifier::when_used_as_spec(mask)]
    pub fn bits(self) -> (r: u16)
        ensures
            r == self.mask(),
    {
        match self {
            Flag::Pos => 1,
            Flag::Zero => 2,
            Flag::Neg => 4,
        }
    }

    /// The flag that writing `word` to a register sets.
    pub fn classify(word: u16) -> (r: Flag)
        ensures
            r == Flag::of(word),
    {
        if word == 0 {
            Flag::Zero
        } else if word & (1 << 15) != 0 {
            assert((word & (1u16 << 15) != 0) ==> word >= 0x8000) by (bit_vector);
            Flag::Neg
        } else {
            assert((word & (1u16 << 15) == 0) ==> word < 0x8000) by (bit_vector);
            Flag::Pos
        }
    }
}

} // verus!
