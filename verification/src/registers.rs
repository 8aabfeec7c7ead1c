//! The control registers of one core, as plain words.
use vstd::prelude::*;
use crate::width::Width;

verus! {

/// The control registers this library knows.
#[derive(Clone, Copy, Debug, PartialEq, Eq, Structural)]
pub enum Register {
    /// `%cr0`: flags that modify basic processor operation.
    Cr0,
    /// `%cr2`: the linear address of the last page fault.
    Cr2,
    /// `%cr3`: the physical address of the page table root.
    Cr3,
    /// `%cr4`: flags that control protected mode execution.
    Cr4,
}

/// What the control registers of one core hold at one moment.
pub struct Registers {
    /// The width of every register.
    pub width: Width,
    /// The word in `%cr0`.
    pub cr0: u64,
    /// The word in `%cr2`.
    pub cr2: u64,
    /// The word in `%cr3`.
    pub cr3: u64,
    /// The word in `%cr4`.
    pub cr4: u64,
}

impl Registers {
    /// Every register holds a word of the registers' width.
    pub open spec fn wf(self) -> bool {
        &&& self.width.holds(self.cr0 as nat)
        &&& self.width.holds(self.cr2 as nat)
        &&& self.width.holds(self.cr3 as nat)
        &&& self.width.holds(self.cr4 as nat)
    }

    /// The word in `register`.
    pub open spec fn word(self, register: Register) -> u64 {
        match register {
            Register::Cr0 => self.cr0,
            Register::Cr2 => self.cr2,
            Register::Cr3 => self.cr3,
            Register::Cr4 => self.cr4,
        }
    }

    /// The registers with `word` in `register` and every other register as it
    /// was.
    pub open spec fn with(self, register: Register, word: u64) -> Registers {
        match register {
            Register::Cr0 => Registers { cr0: word, ..self },
            Register::Cr2 => Registers { cr2: word, ..self },
            Register::Cr3 => Registers { cr3: word, ..self },
            Register::Cr4 => Registers { cr4: word, ..self },
        }
    }

    /// The registers after an attempt to store `word` in `register`: a word
    /// that the register can hold replaces what was there, and a word that is
    /// too wide changes nothing.
    pub open spec fn stored(self, register: Register, word: u64) -> Registers {
        if self.width.holds(word as nat) {
            self.with(register, word)
        } else {
            self
        }
    }
}

/// A word was refused because the register is too narrow to hold it.
///
/// Narrowing never truncates: a word with bits beyond the register's width is
/// rejected and the register keeps its value.
#[derive(Clone, Copy, Debug, PartialEq, Eq, Structural)]
pub struct NarrowingError {
    /// The word that did not fit.
    pub word: u64,
    /// The width of the register it was meant for.
    pub width: Width,
}

/// The control registers of one core, kept in memory.
///
/// Code that runs on the processor fills a register file from the machine and
/// carries what changed back to it; code that runs anywhere else uses the
/// register file in the processor's place. Every word in it fits the file's
/// width.
#[derive(Clone, Copy, Debug, PartialEq, Eq, Structural)]
pub struct RegisterFile {
    width: Width,
    cr0: u64,
    cr2: u64,
    cr3: u64,
    cr4: u64,
}

impl View for RegisterFile {
    type V = Registers;

    closed spec fn view(&self) -> Registers {
        Registers { width: self.width, cr0: self.cr0, cr2: self.cr2, cr3: self.cr3, cr4: self.cr4 }
    }
}

impl RegisterFile {
    #[verifier::type_invariant]
    spec fn words_fit(&self) -> bool {
        self@.wf()
    }

    /// The registers of a core of the given width, all zero.
    pub fn new(width: Width) -> (file: RegisterFile)
        ensures
            file@ == (Registers { width, cr0: 0, cr2: 0, cr3: 0, cr4: 0 }),
            file@.wf(),
    {
        RegisterFile { width, cr0: 0, cr2: 0, cr3: 0, cr4: 0 }
    }

    /// The registers of a core of the given width that hold the given words,
    /// or nothing if one of the words is too wide for the registers.
    pub fn from_words(width: Width, cr0: u64, cr2: u64, cr3: u64, cr4: u64) -> (file: Option<
        RegisterFile,
    >)
        ensures
            file is Some <==> (Registers { width, cr0, cr2, cr3, cr4 }).wf(),
            file matches Some(file) ==> file@ == (Registers { width, cr0, cr2, cr3, cr4 }),
    {
        if width.fits(cr0) && width.fits(cr2) && width.fits(cr3) && width.fits(cr4) {
            Some(RegisterFile { width, cr0, cr2, cr3, cr4 })
        } else {
            None
        }
    }

    /// The registers of the machine the code was built for, holding the given
    /// native words.
    pub fn native(cr0: usize, cr2: usize, cr3: usize, cr4: usize) -> (file: RegisterFile)
        ensures
            file@.width.bits() == usize::BITS,
            file@.cr0 == cr0,
            file@.cr2 == cr2,
            file@.cr3 == cr3,
            file@.cr4 == cr4,
            file@.wf(),
    {
        RegisterFile {
            width: Width::native(),
            cr0: cr0 as u64,
            cr2: cr2 as u64,
            cr3: cr3 as u64,
            cr4: cr4 as u64,
        }
    }

    /// The width of the registers.
    pub fn width(&self) -> (width: Width)
        ensures
            width == self@.width,
    {
        self.width
    }

    /// Reads a register.
    pub fn load(&self, register: Register) -> (word: u64)
        ensures
            word == self@.word(register),
            self@.width.holds(word as nat),
    {
        proof {
            use_type_invariant(self);
        }
        match register {
            Register::Cr0 => self.cr0,
            Register::Cr2 => self.cr2,
            Register::Cr3 => self.cr3,
            Register::Cr4 => self.cr4,
        }
    }

    /// Writes a register. A word that is too wide for the register is
    /// rejected, and the register file stays as it was.
    pub fn store(&mut self, register: Register, word: u64) -> (result: Result<(), NarrowingError>)
        ensures
            result is Ok <==> old(self)@.width.holds(word as nat),
            result matches Err(error) ==> error == (NarrowingError {
                word,
                width: old(self)@.width,
            }),
            final(self)@ == old(self)@.stored(register, word),
            final(self)@.wf(),
    {
        proof {
            use_type_invariant(&*self);
        }
        if !self.width.fits(word) {
            return Err(NarrowingError { word, width: self.width });
        }
        match register {
            Register::Cr0 => {
                self.cr0 = word;
            },
            Register::Cr2 => {
                self.cr2 = word;
            },
            Register::Cr3 => {
                self.cr3 = word;
            },
            Register::Cr4 => {
                self.cr4 = word;
            },
        }
        Ok(())
    }
}

} // verus!
