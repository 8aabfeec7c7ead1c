//! `%cr2` holds the page fault linear address.
use vstd::prelude::*;
use crate::registers::{NarrowingError, Register, RegisterFile};

verus! {

/// Reads `%cr2`: the linear address that caused the most recent page fault.
///
/// The address means something only inside the page fault handler, before
/// another fault can replace it. Elsewhere the register holds whatever was
/// left there.
pub fn read(registers: &RegisterFile) -> (addr: u64)
    ensures
        addr == registers@.cr2,
        registers@.width.holds(addr as nat),
{
    registers.load(Register::Cr2)
}

/// Writes `%cr2`.
///
/// The processor sets this register itself when a page fault happens; forcing
/// a value into it is for harnesses that stand in for the processor. A value
/// that is too wide for the register is rejected and nothing changes.
pub fn write(registers: &mut RegisterFile, value: u64) -> (result: Result<(), NarrowingError>)
    ensures
        result is Ok <==> old(registers)@.width.holds(value as nat),
        result matches Err(error) ==> error == (NarrowingError {
            word: value,
            width: old(registers)@.width,
        }),
        final(registers)@ == old(registers)@.stored(Register::Cr2, value),
        final(registers)@.wf(),
{
    registers.store(Register::Cr2, value)
}

} // verus!
