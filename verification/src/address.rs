//! Physical addresses and the page frames that contain them.
use vstd::prelude::*;
use vstd::std_specs::convert::FromSpecImpl;

verus! {

/// The number of bytes in a page frame.
pub const PAGE_SIZE: u64 = 4096;

/// The number of the last page frame whose base address a 64-bit word can
/// hold.
pub const MAX_FRAME_NUMBER: u64 = 0x000F_FFFF_FFFF_FFFF;

/// The number of the page frame that contains the physical address `addr`.
pub open spec fn frame_of(addr: nat) -> nat {
    addr / (PAGE_SIZE as nat)
}

/// The physical address at which the page frame `number` begins.
pub open spec fn base_of(number: nat) -> nat {
    number * (PAGE_SIZE as nat)
}

/// An address in physical memory, as distinct from a linear address.
#[derive(Clone, Copy, Debug, PartialEq, Eq, Structural)]
pub struct PAddr(pub u64);

impl View for PAddr {
    type V = nat;

    /// The address as a number.
    open spec fn view(&self) -> nat {
        self.0 as nat
    }
}

impl PAddr {
    /// The physical address with the given value.
    pub fn new(value: u64) -> (addr: PAddr)
        ensures
            addr == PAddr(value),
    {
        PAddr(value)
    }

    /// The address as a 64-bit word.
    pub fn as_u64(&self) -> (value: u64)
        ensures
            value == self.0,
    {
        self.0
    }
}

impl From<u64> for PAddr {
    fn from(value: u64) -> (addr: PAddr) {
        PAddr(value)
    }
}

impl FromSpecImpl<u64> for PAddr {
    open spec fn obeys_from_spec() -> bool {
        true
    }

    open spec fn from_spec(value: u64) -> PAddr {
        PAddr(value)
    }
}

/// A page frame: a page-sized, page-aligned piece of physical memory.
///
/// The frame's base address always fits a 64-bit word.
#[derive(Clone, Copy, Debug, PartialEq, Eq, Structural)]
pub struct PhysicalPage {
    number: u64,
}

impl View for PhysicalPage {
    type V = nat;

    /// The number of the frame: frame 0 begins at address 0.
    closed spec fn view(&self) -> nat {
        self.number as nat
    }
}

impl PhysicalPage {
    /// The frame's base address fits a 64-bit word.
    pub open spec fn wf(&self) -> bool {
        self@ <= MAX_FRAME_NUMBER
    }

    #[verifier::type_invariant]
    spec fn base_fits(&self) -> bool {
        self.wf()
    }

    /// The frame that contains `addr`.
    pub closed spec fn spec_containing_addr(addr: PAddr) -> PhysicalPage {
        PhysicalPage { number: addr.0 / PAGE_SIZE }
    }

    /// The address at which the frame begins.
    pub open spec fn spec_base_addr(&self) -> PAddr {
        PAddr(base_of(self@) as u64)
    }

    /// The frame with the given number, or nothing if the frame would begin
    /// beyond the addresses that a 64-bit word can hold.
    pub fn from_number(number: u64) -> (page: Option<PhysicalPage>)
        ensures
            page is Some <==> number <= MAX_FRAME_NUMBER,
            page matches Some(page) ==> page@ == number,
    {
        if number <= MAX_FRAME_NUMBER {
            Some(PhysicalPage { number })
        } else {
            None
        }
    }

    /// The number of the frame.
    pub fn number(&self) -> (number: u64)
        ensures
            number == self@,
            number <= MAX_FRAME_NUMBER,
    {
        proof {
            use_type_invariant(self);
        }
        self.number
    }

    /// The frame that contains `addr`.
    #[verifier::when_used_as_spec(spec_containing_addr)]
    pub fn containing_addr(addr: PAddr) -> (page: PhysicalPage)
        ensures
            page == PhysicalPage::spec_containing_addr(addr),
            page@ == frame_of(addr@),
    {
        PhysicalPage { number: addr.as_u64() / PAGE_SIZE }
    }

    /// The address at which the frame begins.
    #[verifier::when_used_as_spec(spec_base_addr)]
    pub fn base_addr(&self) -> (addr: PAddr)
        ensures
            addr == self.spec_base_addr(),
            addr@ == base_of(self@),
    {
        proof {
            use_type_invariant(self);
        }
        PAddr::new(self.number * PAGE_SIZE)
    }
}

/// The frame that contains a frame's base address is that frame.
pub proof fn frame_of_base_is_frame(frame: PhysicalPage)
    requires
        frame.wf(),
    ensures
        PhysicalPage::containing_addr(frame.base_addr()) == frame,
{
}

} // verus!
