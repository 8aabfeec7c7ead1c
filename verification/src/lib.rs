//! Control registers of x86 and x86_64 processors.
//!
//! The four registers that govern protected mode and paging are kept in a
//! [`registers::RegisterFile`]: plain words of the target's width. Every
//! accessor takes the register file as an explicit handle, so the same
//! verified logic serves the code that runs on the processor and the code
//! that only stands in for it.
//!
//! - [`cr0`] and [`cr4`] name the flags of the two flag registers.
//! - [`cr2`] reads and writes the page fault linear address.
//! - [`cr3`] reads and writes the page table root.
//! - [`dump`] bundles all four registers into a [`CrState`], which renders
//!   as one line of text.
pub mod address;
mod bits;
pub mod cr0;
pub mod cr2;
pub mod cr3;
pub mod cr4;
pub mod hex;
pub mod registers;
pub mod snapshot;
pub mod width;

pub use snapshot::{dump, CrState};
