//! `%cr3` holds the page table root: the physical address of the top-level
//! paging structure of the address space that is active on this core.
//!
//! The register is one of two things: what it held when the core started, if
//! no address space was installed yet, or the address that the last accepted
//! write installed. A write replaces the root whatever it was; a read changes
//! nothing. The whole register is taken as the address: the low bits that
//! some paging modes use for cache control are neither masked nor
//! interpreted.
use vstd::prelude::*;
use crate::address::{base_of, frame_of, frame_of_base_is_frame, PAddr, PhysicalPage};
use crate::registers::{NarrowingError, Register, RegisterFile, Registers};
use crate::width::Width;

verus! {

/// The registers after an attempt to install `addr` as the page table root:
/// an address that `%cr3` can hold becomes the root, and an address that is
/// too wide changes nothing.
pub open spec fn written(before: Registers, addr: PAddr) -> Registers {
    before.stored(Register::Cr3, addr.0)
}

/// The registers after an attempt to install each of `addrs` in turn.
pub open spec fn written_all(before: Registers, addrs: Seq<PAddr>) -> Registers
    decreases addrs.len(),
{
    if addrs.len() == 0 {
        before
    } else {
        written(written_all(before, addrs.drop_last()), addrs.last())
    }
}

/// Reads `%cr3`: the physical address of the active page table root.
pub fn read(registers: &RegisterFile) -> (addr: PAddr)
    ensures
        addr == PAddr(registers@.cr3),
{
    PAddr::from(registers.load(Register::Cr3))
}

/// Writes `%cr3`: installs the paging structure at `addr` as the active
/// address space.
///
/// On the processor this flushes the translation cache, so it is expensive,
/// and every translation cached before is gone. `addr` must be the address
/// of a resident, well-formed top-level paging structure for the paging mode
/// in use: nothing here can tell whether it is. An address too wide for the
/// register is rejected, not truncated, and the root stays as it was.
pub fn write(registers: &mut RegisterFile, addr: PAddr) -> (result: Result<(), NarrowingError>)
    ensures
        result is Ok <==> old(registers)@.width.holds(addr@),
        result matches Err(error) ==> error == (NarrowingError {
            word: addr.0,
            width: old(registers)@.width,
        }),
        final(registers)@ == written(old(registers)@, addr),
        final(registers)@.wf(),
{
    registers.store(Register::Cr3, addr.as_u64())
}

/// The page frame that holds the active page table root.
pub fn current_pagetable_frame(registers: &RegisterFile) -> (frame: PhysicalPage)
    ensures
        frame == PhysicalPage::containing_addr(PAddr(registers@.cr3)),
        frame@ == frame_of(registers@.cr3 as nat),
{
    PhysicalPage::containing_addr(read(registers))
}

/// Installs the paging structure that begins at the base of `frame` as the
/// active address space. This is [`write`] with the frame's base address.
pub fn set_pagetable_frame(registers: &mut RegisterFile, frame: PhysicalPage) -> (result: Result<
    (),
    NarrowingError,
>)
    ensures
        result is Ok <==> old(registers)@.width.holds(base_of(frame@)),
        result matches Err(error) ==> error == (NarrowingError {
            word: base_of(frame@) as u64,
            width: old(registers)@.width,
        }),
        final(registers)@ == written(old(registers)@, frame.base_addr()),
        final(registers)@.wf(),
{
    write(registers, frame.base_addr())
}

/// Installing a frame and asking for the current frame gives that frame
/// back, for every frame whose base address the register can hold.
pub proof fn frame_round_trip(before: Registers, frame: PhysicalPage)
    requires
        frame.wf(),
        before.width.holds(base_of(frame@)),
    ensures
        PhysicalPage::containing_addr(PAddr(written(before, frame.base_addr()).cr3)) == frame,
{
    frame_of_base_is_frame(frame);
}

/// A sequence of writes leaves every other register as it was.
pub proof fn lemma_writes_touch_only_root(before: Registers, addrs: Seq<PAddr>)
    ensures
        written_all(before, addrs) == (Registers {
            cr3: written_all(before, addrs).cr3,
            ..before
        }),
    decreases addrs.len(),
{
    if addrs.len() > 0 {
        lemma_writes_touch_only_root(before, addrs.drop_last());
    }
}

/// The last write wins: after any sequence of writes that ends with an
/// address the register can hold, the register holds that address and
/// nothing of the earlier writes, and the other registers are as they were.
pub proof fn last_write_wins(before: Registers, addrs: Seq<PAddr>)
    requires
        addrs.len() > 0,
        before.width.holds(addrs.last()@),
    ensures
        PAddr(written_all(before, addrs).cr3) == addrs.last(),
        written_all(before, addrs) == (Registers { cr3: addrs.last().0, ..before }),
{
    lemma_writes_touch_only_root(before, addrs.drop_last());
}

/// On the 64-bit target every physical address can be written, and reading
/// gives back the very same address: nothing is truncated.
pub proof fn wide_write_reads_back(before: Registers, addr: PAddr)
    requires
        before.width == Width::Bits64,
    ensures
        PAddr(written(before, addr).cr3) == addr,
{
}

} // verus!
