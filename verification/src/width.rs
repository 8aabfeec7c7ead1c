//! The word width of the target processor.
use vstd::prelude::*;
use crate::hex::capacity;

verus! {

/// The width of a control register: 32 bits on x86, 64 bits on x86_64.
///
/// Everything that depends on the target goes through this type, so the
/// accessors never ask which processor they run on.
#[derive(Clone, Copy, Debug, PartialEq, Eq, Structural)]
pub enum Width {
    /// Registers of x86.
    Bits32,
    /// Registers of x86_64.
    Bits64,
}

impl Width {
    /// The number of bits in a register.
    pub open spec fn bits(self) -> nat {
        match self {
            Width::Bits32 => 32,
            Width::Bits64 => 64,
        }
    }

    /// The number of words a register can tell apart: two to the power of
    /// `bits()`.
    pub open spec fn limit(self) -> nat {
        match self {
            Width::Bits32 => 0x1_0000_0000,
            Width::Bits64 => 0x1_0000_0000_0000_0000,
        }
    }

    /// Whether a register of this width can hold `word` unchanged.
    pub open spec fn holds(self, word: nat) -> bool {
        word < self.limit()
    }

    /// The number of hexadecimal digits that spell a register of this width.
    pub open spec fn hex_digits(self) -> nat {
        match self {
            Width::Bits32 => 8,
            Width::Bits64 => 16,
        }
    }

    /// A register holds exactly the words that its hexadecimal digits can
    /// spell, and every 32-bit word fits in either width.
    pub proof fn lemma_capacity(self)
        ensures
            self.limit() == capacity(self.hex_digits()),
            0x1_0000_0000 <= self.limit(),
            1 <= self.hex_digits(),
    {
        reveal_with_fuel(capacity, 17);
    }

    /// The width of the machine the code was built for.
    pub fn native() -> (width: Width)
        ensures
            width.bits() == usize::BITS,
    {
        if usize::BITS == 32 {
            Width::Bits32
        } else {
            Width::Bits64
        }
    }

    /// The largest word a register of this width holds.
    pub fn max_word(self) -> (max: u64)
        ensures
            max == self.limit() - 1,
    {
        match self {
            Width::Bits32 => 0xFFFF_FFFF,
            Width::Bits64 => 0xFFFF_FFFF_FFFF_FFFF,
        }
    }

    /// Tells whether a register of this width can hold `word` unchanged.
    pub fn fits(self, word: u64) -> (fits: bool)
        ensures
            fits == self.holds(word as nat),
    {
        word <= self.max_word()
    }

    /// The number of hexadecimal digits that spell a register of this width.
    pub fn digits(self) -> (digits: usize)
        ensures
            digits == self.hex_digits(),
    {
        match self {
            Width::Bits32 => 8,
            Width::Bits64 => 16,
        }
    }
}

} // verus!
