use control_regs::cr2;
use control_regs::registers::{NarrowingError, Register, RegisterFile};
use control_regs::width::Width;

#[test]
fn new_registers_are_zero() {
    for width in [Width::Bits32, Width::Bits64] {
        let file = RegisterFile::new(width);
        assert_eq!(file.width(), width);
        assert_eq!(file.load(Register::Cr0), 0);
        assert_eq!(file.load(Register::Cr2), 0);
        assert_eq!(file.load(Register::Cr3), 0);
        assert_eq!(file.load(Register::Cr4), 0);
    }
}

#[test]
fn from_words_keeps_the_words() {
    let file = RegisterFile::from_words(Width::Bits32, 0x8001_0001, 0xdead_b000, 0x0010_3000, 0x20)
        .unwrap();
    assert_eq!(file.width(), Width::Bits32);
    assert_eq!(file.load(Register::Cr0), 0x8001_0001);
    assert_eq!(file.load(Register::Cr2), 0xdead_b000);
    assert_eq!(file.load(Register::Cr3), 0x0010_3000);
    assert_eq!(file.load(Register::Cr4), 0x20);
}

#[test]
fn from_words_refuses_a_word_that_is_too_wide() {
    let wide = 0x1_0000_0000;
    assert!(RegisterFile::from_words(Width::Bits32, wide, 0, 0, 0).is_none());
    assert!(RegisterFile::from_words(Width::Bits32, 0, wide, 0, 0).is_none());
    assert!(RegisterFile::from_words(Width::Bits32, 0, 0, wide, 0).is_none());
    assert!(RegisterFile::from_words(Width::Bits32, 0, 0, 0, wide).is_none());
    assert!(RegisterFile::from_words(Width::Bits32, 0xFFFF_FFFF, 0, 0, 0).is_some());
    assert!(RegisterFile::from_words(Width::Bits64, wide, wide, wide, wide).is_some());
    assert!(RegisterFile::from_words(Width::Bits64, u64::MAX, u64::MAX, u64::MAX, u64::MAX)
        .is_some());
}

#[test]
fn native_registers_hold_native_words() {
    let file = RegisterFile::native(0x8001_0001, usize::MAX, 0x0010_3000, 0x20);
    assert_eq!(file.width(), Width::native());
    assert_eq!(file.load(Register::Cr0), 0x8001_0001);
    assert_eq!(file.load(Register::Cr2), usize::MAX as u64);
    assert_eq!(file.load(Register::Cr3), 0x0010_3000);
    assert_eq!(file.load(Register::Cr4), 0x20);
}

#[test]
fn store_changes_one_register() {
    let mut file = RegisterFile::from_words(Width::Bits64, 1, 2, 3, 4).unwrap();
    assert_eq!(file.store(Register::Cr0, 10), Ok(()));
    assert_eq!(file, RegisterFile::from_words(Width::Bits64, 10, 2, 3, 4).unwrap());
    assert_eq!(file.store(Register::Cr2, 20), Ok(()));
    assert_eq!(file, RegisterFile::from_words(Width::Bits64, 10, 20, 3, 4).unwrap());
    assert_eq!(file.store(Register::Cr3, 30), Ok(()));
    assert_eq!(file, RegisterFile::from_words(Width::Bits64, 10, 20, 30, 4).unwrap());
    assert_eq!(file.store(Register::Cr4, 40), Ok(()));
    assert_eq!(file, RegisterFile::from_words(Width::Bits64, 10, 20, 30, 40).unwrap());
}

#[test]
fn store_rejects_a_word_that_is_too_wide() {
    let mut file = RegisterFile::from_words(Width::Bits32, 1, 2, 3, 4).unwrap();
    let before = file;
    for register in [Register::Cr0, Register::Cr2, Register::Cr3, Register::Cr4] {
        assert_eq!(
            file.store(register, 0x1_0000_0000),
            Err(NarrowingError { word: 0x1_0000_0000, width: Width::Bits32 })
        );
        assert_eq!(file, before);
    }
    assert_eq!(file.store(Register::Cr3, 0xFFFF_FFFF), Ok(()));
    assert_eq!(file.load(Register::Cr3), 0xFFFF_FFFF);
}

#[test]
fn store_keeps_bits_without_a_name() {
    let mut file = RegisterFile::new(Width::Bits32);
    assert_eq!(file.store(Register::Cr0, 0xFFFF_FFFF), Ok(()));
    assert_eq!(file.load(Register::Cr0), 0xFFFF_FFFF);
}

#[test]
fn cr2_reads_what_was_written() {
    let mut file = RegisterFile::new(Width::Bits32);
    assert_eq!(cr2::read(&file), 0);
    assert_eq!(cr2::write(&mut file, 0xC000_1234), Ok(()));
    assert_eq!(cr2::read(&file), 0xC000_1234);
    assert_eq!(file.load(Register::Cr2), 0xC000_1234);
    assert_eq!(file.load(Register::Cr0), 0);
    assert_eq!(file.load(Register::Cr3), 0);
    assert_eq!(file.load(Register::Cr4), 0);
}

#[test]
fn cr2_rejects_an_address_that_is_too_wide() {
    let mut file = RegisterFile::new(Width::Bits32);
    assert_eq!(cr2::write(&mut file, 0x1000), Ok(()));
    assert_eq!(
        cr2::write(&mut file, 0xFFFF_8000_0000_0000),
        Err(NarrowingError { word: 0xFFFF_8000_0000_0000, width: Width::Bits32 })
    );
    assert_eq!(cr2::read(&file), 0x1000);
}

#[test]
fn cr2_holds_any_address_on_the_wide_target() {
    let mut file = RegisterFile::new(Width::Bits64);
    assert_eq!(cr2::write(&mut file, 0xFFFF_8000_0000_0000), Ok(()));
    assert_eq!(cr2::read(&file), 0xFFFF_8000_0000_0000);
    assert_eq!(cr2::write(&mut file, u64::MAX), Ok(()));
    assert_eq!(cr2::read(&file), u64::MAX);
}
