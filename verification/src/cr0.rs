//! `%cr0` holds the flags that modify basic processor operation.
use vstd::prelude::*;
use crate::bits::{lemma_single_bits, lemma_truncate, lemma_truncate_keeps, lemma_union};
use crate::hex::{hex_literal, lemma_hex_len, to_hex};
use crate::width::Width;

verus! {

/// The flags that the architecture defines in `%cr0`.
#[derive(Clone, Copy, Debug, PartialEq, Eq, Structural)]
pub enum Flag {
    /// PE: the processor runs in protected mode.
    ProtectionEnable,
    /// MP: `WAIT` and `FWAIT` honour the task-switched flag.
    MonitorCoprocessor,
    /// EM: no floating-point unit is present; its instructions trap.
    Emulation,
    /// TS: a task switch happened since the floating-point state was saved.
    TaskSwitched,
    /// ET: the floating-point unit speaks the 387 protocol.
    ExtensionType,
    /// NE: floating-point errors are reported by exception.
    NumericError,
    /// WP: supervisor code may not write to read-only pages.
    WriteProtect,
    /// AM: alignment checking may be turned on in user mode.
    AlignmentMask,
    /// NW: write-through caching is off.
    NotWriteThrough,
    /// CD: the caches are off.
    CacheDisable,
    /// PG: paging is on.
    Paging,
}

/// Every bit of `%cr0` that has a name.
pub const ALL: u64 = 0xE005_003F;

impl Flag {
    /// The position of the flag's bit in the register, bit 0 being the least
    /// significant.
    pub open spec fn position(self) -> nat {
        match self {
            Flag::ProtectionEnable => 0,
            Flag::MonitorCoprocessor => 1,
            Flag::Emulation => 2,
            Flag::TaskSwitched => 3,
            Flag::ExtensionType => 4,
            Flag::NumericError => 5,
            Flag::WriteProtect => 16,
            Flag::AlignmentMask => 18,
            Flag::NotWriteThrough => 29,
            Flag::CacheDisable => 30,
            Flag::Paging => 31,
        }
    }

    /// The word that has the flag's bit set and no other.
    pub open spec fn spec_mask(self) -> u64 {
        match self {
            Flag::ProtectionEnable => 0x0000_0001,
            Flag::MonitorCoprocessor => 0x0000_0002,
            Flag::Emulation => 0x0000_0004,
            Flag::TaskSwitched => 0x0000_0008,
            Flag::ExtensionType => 0x0000_0010,
            Flag::NumericError => 0x0000_0020,
            Flag::WriteProtect => 0x0001_0000,
            Flag::AlignmentMask => 0x0004_0000,
            Flag::NotWriteThrough => 0x2000_0000,
            Flag::CacheDisable => 0x4000_0000,
            Flag::Paging => 0x8000_0000,
        }
    }

    /// The word that has the flag's bit set and no other.
    #[verifier::when_used_as_spec(spec_mask)]
    pub fn mask(self) -> (mask: u64)
        ensures
            mask == self.spec_mask(),
    {
        match self {
            Flag::ProtectionEnable => 0x0000_0001,
            Flag::MonitorCoprocessor => 0x0000_0002,
            Flag::Emulation => 0x0000_0004,
            Flag::TaskSwitched => 0x0000_0008,
            Flag::ExtensionType => 0x0000_0010,
            Flag::NumericError => 0x0000_0020,
            Flag::WriteProtect => 0x0001_0000,
            Flag::AlignmentMask => 0x0004_0000,
            Flag::NotWriteThrough => 0x2000_0000,
            Flag::CacheDisable => 0x4000_0000,
            Flag::Paging => 0x8000_0000,
        }
    }

    /// A flag's mask is the one bit at the flag's position, and that bit has
    /// a name.
    pub proof fn lemma_mask(self)
        ensures
            self.position() < 32,
            self.mask() == 1u64 << self.position(),
            self.mask() & !ALL == 0,
            self.mask() != 0,
    {
        assert(0x0000_0001u64 == 1u64 << 0
            && 0x0000_0002u64 == 1u64 << 1
            && 0x0000_0004u64 == 1u64 << 2
            && 0x0000_0008u64 == 1u64 << 3
            && 0x0000_0010u64 == 1u64 << 4
            && 0x0000_0020u64 == 1u64 << 5
            && 0x0001_0000u64 == 1u64 << 16
            && 0x0004_0000u64 == 1u64 << 18
            && 0x2000_0000u64 == 1u64 << 29
            && 0x4000_0000u64 == 1u64 << 30
            && 0x8000_0000u64 == 1u64 << 31) by (bit_vector);
        assert(0x0000_0001u64 & !ALL == 0
            && 0x0000_0002u64 & !ALL == 0
            && 0x0000_0004u64 & !ALL == 0
            && 0x0000_0008u64 & !ALL == 0
            && 0x0000_0010u64 & !ALL == 0
            && 0x0000_0020u64 & !ALL == 0
            && 0x0001_0000u64 & !ALL == 0
            && 0x0004_0000u64 & !ALL == 0
            && 0x2000_0000u64 & !ALL == 0
            && 0x4000_0000u64 & !ALL == 0
            && 0x8000_0000u64 & !ALL == 0) by (bit_vector);
    }
}

/// The named flags whose bits are set in a raw word.
pub open spec fn named(raw: u64) -> Set<Flag> {
    Set::new(|flag: Flag| raw & flag.mask() != 0)
}

/// A set of `%cr0` flags, kept as the bits of the register.
///
/// A value never holds a bit that has no name: making one from a raw word
/// clears those bits.
#[derive(Clone, Copy, Debug, PartialEq, Eq, Structural)]
pub struct Flags {
    bits: u64,
}

impl View for Flags {
    type V = Set<Flag>;

    /// The named flags that are set.
    open spec fn view(&self) -> Set<Flag> {
        named(self.bits())
    }
}

impl Flags {
    /// The raw word.
    pub closed spec fn spec_bits(&self) -> u64 {
        self.bits
    }

    /// No bit without a name is set.
    pub open spec fn wf(&self) -> bool {
        self.bits() & !ALL == 0
    }

    #[verifier::type_invariant]
    spec fn only_named_bits(&self) -> bool {
        self.wf()
    }

    /// The flags that a raw word holds once the bits without a name are
    /// cleared.
    pub closed spec fn truncated(raw: u64) -> Flags {
        Flags { bits: raw & ALL }
    }

    /// What truncation keeps: the named bits of the word, and so its named
    /// flags.
    pub proof fn lemma_truncated(raw: u64)
        ensures
            Flags::truncated(raw).bits() == raw & ALL,
            Flags::truncated(raw).wf(),
            Flags::truncated(raw)@ == named(raw),
    {
        lemma_truncate(raw, ALL);
        assert forall|flag: Flag| named(raw & ALL).contains(flag) == named(raw).contains(
            flag,
        ) by {
            flag.lemma_mask();
            lemma_truncate_keeps(raw, ALL, flag.mask());
        }
        assert(named(raw & ALL) =~= named(raw));
    }

    /// Well-formed flags fit a register of 32 bits.
    pub proof fn lemma_fits(self)
        requires
            self.wf(),
        ensures
            self.bits() < 0x1_0000_0000,
    {
        lemma_truncate(self.bits(), ALL);
    }

    /// The mask of a flag holds that flag and no other.
    pub proof fn lemma_single(flag: Flag)
        ensures
            named(flag.mask()) == set![flag],
    {
        assert forall|other: Flag| named(flag.mask()).contains(other) == (other == flag) by {
            flag.lemma_mask();
            other.lemma_mask();
            lemma_single_bits(flag.position() as u64, other.position() as u64);
        }
        assert(named(flag.mask()) =~= set![flag]);
    }

    /// No flag.
    pub fn empty() -> (flags: Flags)
        ensures
            flags.bits() == 0,
            flags@ == Set::<Flag>::empty(),
    {
        proof {
            lemma_union(0, 0, !ALL);
            assert forall|flag: Flag| !named(0).contains(flag) by {
                lemma_union(0, 0, flag.mask());
            }
            assert(named(0) =~= Set::<Flag>::empty());
        }
        Flags { bits: 0 }
    }

    /// Every named flag.
    pub fn all() -> (flags: Flags)
        ensures
            flags.bits() == ALL,
            flags@ == Set::<Flag>::full(),
    {
        proof {
            lemma_truncate(ALL, ALL);
            assert forall|flag: Flag| named(ALL).contains(flag) by {
                flag.lemma_mask();
                lemma_truncate_keeps(ALL, ALL, flag.mask());
            }
            assert(named(ALL) =~= Set::<Flag>::full());
        }
        Flags { bits: ALL }
    }

    /// The one flag `flag`.
    pub fn of(flag: Flag) -> (flags: Flags)
        ensures
            flags.bits() == flag.mask(),
            flags@ == set![flag],
    {
        proof {
            flag.lemma_mask();
            Flags::lemma_single(flag);
        }
        Flags { bits: flag.mask() }
    }

    /// Makes flags from a raw word. Bits that have no name are cleared; this
    /// never fails.
    pub fn from_bits_truncate(raw: u64) -> (flags: Flags)
        ensures
            flags == Flags::truncated(raw),
            flags.bits() == raw & ALL,
            flags@ == named(raw),
    {
        proof {
            Flags::lemma_truncated(raw);
        }
        Flags { bits: raw & ALL }
    }

    /// The raw word: the bits of the flags that are set, and no other bit.
    #[verifier::when_used_as_spec(spec_bits)]
    pub fn bits(&self) -> (raw: u64)
        ensures
            raw == self.spec_bits(),
            raw & !ALL == 0,
    {
        proof {
            use_type_invariant(self);
        }
        self.bits
    }

    /// Tells whether `flag` is set.
    pub fn contains(&self, flag: Flag) -> (set: bool)
        ensures
            set == self@.contains(flag),
    {
        self.bits & flag.mask() != 0
    }

    /// The flags that are set in `self`, in `other`, or in both.
    pub fn union(self, other: Flags) -> (both: Flags)
        ensures
            both.bits() == self.bits() | other.bits(),
            both@ == self@.union(other@),
    {
        proof {
            use_type_invariant(self);
            use_type_invariant(other);
            lemma_union(self.bits, other.bits, !ALL);
            assert forall|flag: Flag|
                named(self.bits | other.bits).contains(flag) == (named(self.bits).contains(flag)
                    || named(other.bits).contains(flag)) by {
                lemma_union(self.bits, other.bits, flag.mask());
            }
            assert(named(self.bits | other.bits) =~= named(self.bits).union(named(other.bits)));
        }
        Flags { bits: self.bits | other.bits }
    }

    /// Renders the raw word as a hexadecimal literal with as many digits as a
    /// register of `width` has, padded with zeros.
    pub fn to_hex(&self, width: Width) -> (text: String)
        ensures
            text@ == hex_literal(self.bits() as nat, width.hex_digits()),
            text@.len() == 2 + width.hex_digits(),
    {
        proof {
            use_type_invariant(self);
            self.lemma_fits();
            width.lemma_capacity();
            lemma_hex_len(self.bits as nat, width.hex_digits());
            reveal_strlit("0x");
        }
        to_hex(self.bits, width.digits())
    }
}

/// Truncating construction is idempotent: building flags from the raw word of
/// flags that were themselves built from `raw` gives the flags built from
/// `raw`.
pub proof fn truncation_is_idempotent(raw: u64)
    ensures
        Flags::truncated(Flags::truncated(raw).bits()) == Flags::truncated(raw),
{
    lemma_truncate(raw, ALL);
}

/// Extracting the raw word of a flag value and building flags from it again
/// gives the same named flags, and for a well-formed value the very same
/// value.
pub proof fn bits_round_trip(flags: Flags)
    ensures
        Flags::truncated(flags.bits())@ == flags@,
        flags.wf() ==> Flags::truncated(flags.bits()) == flags,
{
    Flags::lemma_truncated(flags.bits());
    lemma_truncate(flags.bits(), ALL);
}

} // verus!
