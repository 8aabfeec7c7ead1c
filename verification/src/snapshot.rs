//! A snapshot of the control registers, and its rendering.
use vstd::prelude::*;
use crate::cr0;
use crate::cr4;
use crate::hex::{hex_literal, lemma_hex_len, push_hex};
use crate::registers::{Register, RegisterFile, Registers};
use crate::width::Width;

verus! {

/// What a snapshot holds: the flags of the two flag registers and the words
/// of the two address registers, as they were read.
pub struct Snapshot {
    /// The width of the registers that were read.
    pub width: Width,
    /// The flags that were set in `%cr0`.
    pub cr0: cr0::Flags,
    /// The page fault linear address in `%cr2`.
    pub cr2: u64,
    /// The page table root in `%cr3`.
    pub cr3: u64,
    /// The flags that were set in `%cr4`.
    pub cr4: cr4::Flags,
}

impl Snapshot {
    /// The flags hold only named bits, and the addresses fit the registers.
    pub open spec fn wf(self) -> bool {
        &&& self.cr0.wf()
        &&& self.width.holds(self.cr2 as nat)
        &&& self.width.holds(self.cr3 as nat)
        &&& self.cr4.wf()
    }

    /// The snapshot that reading `registers` gives: the flag registers lose
    /// the bits that have no name, the address registers are taken as they
    /// are.
    pub open spec fn of(registers: Registers) -> Snapshot {
        Snapshot {
            width: registers.width,
            cr0: cr0::Flags::truncated(registers.cr0),
            cr2: registers.cr2,
            cr3: registers.cr3,
            cr4: cr4::Flags::truncated(registers.cr4),
        }
    }

    /// The text of the snapshot: the four registers in order, each as its
    /// label and a hexadecimal literal with as many digits as the register
    /// has, separated by single spaces.
    pub open spec fn rendering(self) -> Seq<char> {
        let digits = self.width.hex_digits();
        "CR0: "@ + hex_literal(self.cr0.bits() as nat, digits) + " CR2: "@ + hex_literal(
            self.cr2 as nat,
            digits,
        ) + " CR3: "@ + hex_literal(self.cr3 as nat, digits) + " CR4: "@ + hex_literal(
            self.cr4.bits() as nat,
            digits,
        )
    }

    /// The text of a well-formed snapshot has the same length whatever the
    /// registers hold: four labels, three spaces, and four literals of the
    /// registers' width.
    pub proof fn lemma_rendering_len(self)
        requires
            self.wf(),
        ensures
            self.rendering().len() == 31 + 4 * self.width.hex_digits(),
    {
        let digits = self.width.hex_digits();
        self.width.lemma_capacity();
        self.cr0.lemma_fits();
        self.cr4.lemma_fits();
        lemma_hex_len(self.cr0.bits() as nat, digits);
        lemma_hex_len(self.cr2 as nat, digits);
        lemma_hex_len(self.cr3 as nat, digits);
        lemma_hex_len(self.cr4.bits() as nat, digits);
        reveal_strlit("0x");
        reveal_strlit("CR0: ");
        reveal_strlit(" CR2: ");
        reveal_strlit(" CR3: ");
        reveal_strlit(" CR4: ");
    }
}

/// A snapshot of the control registers of one core.
///
/// Only [`dump`] makes one, and nothing changes it afterwards. The registers
/// are read one after the other: the snapshot says what each register held
/// when it was read, not that they held these values at the same time.
#[derive(Clone, Copy, Debug, PartialEq, Eq, Structural)]
pub struct CrState {
    width: Width,
    cr0: cr0::Flags,
    cr2: u64,
    cr3: u64,
    cr4: cr4::Flags,
}

impl View for CrState {
    type V = Snapshot;

    closed spec fn view(&self) -> Snapshot {
        Snapshot { width: self.width, cr0: self.cr0, cr2: self.cr2, cr3: self.cr3, cr4: self.cr4 }
    }
}

impl CrState {
    #[verifier::type_invariant]
    spec fn well_formed(&self) -> bool {
        self@.wf()
    }

    /// The width of the registers that were read.
    pub fn width(&self) -> (width: Width)
        ensures
            width == self@.width,
    {
        self.width
    }

    /// `%cr0`: the flags that control the processor's operation.
    pub fn cr0(&self) -> (flags: cr0::Flags)
        ensures
            flags == self@.cr0,
            flags.wf(),
    {
        proof {
            use_type_invariant(self);
        }
        self.cr0
    }

    /// `%cr2`: the page fault linear address.
    pub fn cr2(&self) -> (addr: u64)
        ensures
            addr == self@.cr2,
            self@.width.holds(addr as nat),
    {
        proof {
            use_type_invariant(self);
        }
        self.cr2
    }

    /// `%cr3`: the page table root.
    pub fn cr3(&self) -> (addr: u64)
        ensures
            addr == self@.cr3,
            self@.width.holds(addr as nat),
    {
        proof {
            use_type_invariant(self);
        }
        self.cr3
    }

    /// `%cr4`: the flags that control operations in protected mode.
    pub fn cr4(&self) -> (flags: cr4::Flags)
        ensures
            flags == self@.cr4,
            flags.wf(),
    {
        proof {
            use_type_invariant(self);
        }
        self.cr4
    }

    /// Renders the snapshot on one line: `CR0:`, `CR2:`, `CR3:` and `CR4:`,
    /// each followed by the register as a hexadecimal literal of the
    /// registers' width, padded with zeros.
    pub fn to_string(&self) -> (text: String)
        ensures
            text@ == self@.rendering(),
            text@.len() == 31 + 4 * self@.width.hex_digits(),
    {
        proof {
            use_type_invariant(self);
            self@.lemma_rendering_len();
        }
        let digits = self.width.digits();
        let mut text = String::from_str("CR0: 0x");
        push_hex(&mut text, self.cr0.bits(), digits);
        text.append(" CR2: 0x");
        push_hex(&mut text, self.cr2, digits);
        text.append(" CR3: 0x");
        push_hex(&mut text, self.cr3, digits);
        text.append(" CR4: 0x");
        push_hex(&mut text, self.cr4.bits(), digits);
        proof {
            reveal_strlit("0x");
            reveal_strlit("CR0: ");
            reveal_strlit(" CR2: ");
            reveal_strlit(" CR3: ");
            reveal_strlit(" CR4: ");
            reveal_strlit("CR0: 0x");
            reveal_strlit(" CR2: 0x");
            reveal_strlit(" CR3: 0x");
            reveal_strlit(" CR4: 0x");
            assert("CR0: 0x"@ =~= "CR0: "@ + "0x"@);
            assert(" CR2: 0x"@ =~= " CR2: "@ + "0x"@);
            assert(" CR3: 0x"@ =~= " CR3: "@ + "0x"@);
            assert(" CR4: 0x"@ =~= " CR4: "@ + "0x"@);
            assert(text@ =~= self@.rendering());
        }
        text
    }
}

/// Reads the four control registers and bundles what they hold.
///
/// The flag registers lose the bits that have no name; the address registers
/// are taken as they are.
pub fn dump(registers: &RegisterFile) -> (state: CrState)
    ensures
        state@ == Snapshot::of(registers@),
        state@.wf(),
{
    let cr0 = cr0::Flags::from_bits_truncate(registers.load(Register::Cr0));
    let cr2 = registers.load(Register::Cr2);
    let cr3 = registers.load(Register::Cr3);
    let cr4 = cr4::Flags::from_bits_truncate(registers.load(Register::Cr4));
    proof {
        cr0::Flags::lemma_truncated(registers@.cr0);
        cr4::Flags::lemma_truncated(registers@.cr4);
    }
    CrState { width: registers.width(), cr0, cr2, cr3, cr4 }
}

} // verus!
