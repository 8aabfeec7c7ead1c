use control_regs::address::{PAddr, PhysicalPage, MAX_FRAME_NUMBER, PAGE_SIZE};
use control_regs::cr3;
use control_regs::registers::{NarrowingError, Register, RegisterFile};
use control_regs::width::Width;

#[test]
fn addresses_convert_to_and_from_words() {
    assert_eq!(PAddr::new(0x103000).as_u64(), 0x103000);
    assert_eq!(PAddr::from(0x103000u64), PAddr::new(0x103000));
    assert_eq!(PAddr::from(u64::MAX).as_u64(), u64::MAX);
    assert_eq!(PAddr(7).0, 7);
}

#[test]
fn frames_are_four_kilobytes() {
    assert_eq!(PAGE_SIZE, 4096);
    assert_eq!(PhysicalPage::containing_addr(PAddr::new(0)).number(), 0);
    assert_eq!(PhysicalPage::containing_addr(PAddr::new(4095)).number(), 0);
    assert_eq!(PhysicalPage::containing_addr(PAddr::new(4096)).number(), 1);
    assert_eq!(PhysicalPage::containing_addr(PAddr::new(0x103abc)).number(), 0x103);
    assert_eq!(PhysicalPage::containing_addr(PAddr::new(u64::MAX)).number(), MAX_FRAME_NUMBER);
}

#[test]
fn frame_base_is_number_times_page_size() {
    assert_eq!(PhysicalPage::from_number(0).unwrap().base_addr(), PAddr::new(0));
    assert_eq!(PhysicalPage::from_number(1).unwrap().base_addr(), PAddr::new(4096));
    assert_eq!(PhysicalPage::from_number(0x103).unwrap().base_addr(), PAddr::new(0x103000));
    assert_eq!(
        PhysicalPage::from_number(MAX_FRAME_NUMBER).unwrap().base_addr(),
        PAddr::new(0xFFFF_FFFF_FFFF_F000)
    );
}

#[test]
fn frame_numbers_beyond_the_address_space_are_refused() {
    assert_eq!(MAX_FRAME_NUMBER, (1u64 << 52) - 1);
    assert!(PhysicalPage::from_number(MAX_FRAME_NUMBER).is_some());
    assert!(PhysicalPage::from_number(MAX_FRAME_NUMBER + 1).is_none());
    assert!(PhysicalPage::from_number(u64::MAX).is_none());
}

#[test]
fn frame_of_base_is_the_frame() {
    for number in [0u64, 1, 0x103, 0xF_FFFF, 0x10_0000, MAX_FRAME_NUMBER] {
        let frame = PhysicalPage::from_number(number).unwrap();
        assert_eq!(PhysicalPage::containing_addr(frame.base_addr()), frame);
    }
}

#[test]
fn cr3_reads_what_was_written() {
    let mut file = RegisterFile::new(Width::Bits32);
    assert_eq!(cr3::read(&file), PAddr::new(0));
    assert_eq!(cr3::write(&mut file, PAddr::new(0x0010_3000)), Ok(()));
    assert_eq!(cr3::read(&file), PAddr::new(0x0010_3000));
    assert_eq!(file.load(Register::Cr3), 0x0010_3000);
}

#[test]
fn cr3_write_touches_no_other_register() {
    let mut file = RegisterFile::from_words(Width::Bits64, 0x8001_0001, 0xdead, 0x1000, 0x20)
        .unwrap();
    assert_eq!(cr3::write(&mut file, PAddr::new(0x7000)), Ok(()));
    assert_eq!(
        file,
        RegisterFile::from_words(Width::Bits64, 0x8001_0001, 0xdead, 0x7000, 0x20).unwrap()
    );
}

#[test]
fn cr3_keeps_the_low_bits_of_the_address() {
    let mut file = RegisterFile::new(Width::Bits64);
    assert_eq!(cr3::write(&mut file, PAddr::new(0x0010_3018)), Ok(()));
    assert_eq!(cr3::read(&file), PAddr::new(0x0010_3018));
    assert_eq!(cr3::current_pagetable_frame(&file).number(), 0x103);
}

#[test]
fn last_write_wins() {
    for width in [Width::Bits32, Width::Bits64] {
        let mut file = RegisterFile::new(width);
        for value in [0x1000u64, 0x2000, 0xFFFF_F000, 0x1000, 0x0010_3000] {
            assert_eq!(cr3::write(&mut file, PAddr::new(value)), Ok(()));
        }
        assert_eq!(cr3::read(&file), PAddr::new(0x0010_3000));
    }
}

#[test]
fn last_write_wins_after_a_rejected_write() {
    let mut file = RegisterFile::new(Width::Bits32);
    assert_eq!(cr3::write(&mut file, PAddr::new(0x1000)), Ok(()));
    assert!(cr3::write(&mut file, PAddr::new(0x1_0000_0000)).is_err());
    assert_eq!(cr3::read(&file), PAddr::new(0x1000));
    assert_eq!(cr3::write(&mut file, PAddr::new(0x2000)), Ok(()));
    assert_eq!(cr3::read(&file), PAddr::new(0x2000));
}

#[test]
fn narrow_register_rejects_a_wide_address() {
    let mut file = RegisterFile::new(Width::Bits32);
    assert_eq!(cr3::write(&mut file, PAddr::new(0x5000)), Ok(()));
    assert_eq!(
        cr3::write(&mut file, PAddr::new(0x1_0000_5000)),
        Err(NarrowingError { word: 0x1_0000_5000, width: Width::Bits32 })
    );
    assert_eq!(cr3::read(&file), PAddr::new(0x5000));
    assert_eq!(cr3::write(&mut file, PAddr::new(0xFFFF_FFFF)), Ok(()));
    assert_eq!(cr3::read(&file), PAddr::new(0xFFFF_FFFF));
}

#[test]
fn wide_register_reads_back_every_address() {
    let mut file = RegisterFile::new(Width::Bits64);
    for value in [0u64, 0x1000, 0xFFFF_FFFF, 0x1_0000_0000, 0x000F_FFFF_FFFF_F000, u64::MAX] {
        assert_eq!(cr3::write(&mut file, PAddr::new(value)), Ok(()));
        assert_eq!(cr3::read(&file), PAddr::new(value));
    }
}

#[test]
fn set_frame_then_current_frame_is_the_frame() {
    for width in [Width::Bits32, Width::Bits64] {
        let mut file = RegisterFile::new(width);
        for number in [0u64, 1, 0x103, 0xF_FFFF] {
            let frame = PhysicalPage::from_number(number).unwrap();
            assert_eq!(cr3::set_pagetable_frame(&mut file, frame), Ok(()));
            assert_eq!(cr3::current_pagetable_frame(&file), frame);
            assert_eq!(cr3::read(&file), frame.base_addr());
        }
    }
}

#[test]
fn set_frame_on_the_wide_target_takes_every_frame() {
    let mut file = RegisterFile::new(Width::Bits64);
    for number in [0x10_0000u64, 0x1234_5678_9, MAX_FRAME_NUMBER] {
        let frame = PhysicalPage::from_number(number).unwrap();
        assert_eq!(cr3::set_pagetable_frame(&mut file, frame), Ok(()));
        assert_eq!(cr3::current_pagetable_frame(&file), frame);
    }
}

#[test]
fn set_frame_rejects_a_frame_beyond_the_narrow_register() {
    let mut file = RegisterFile::new(Width::Bits32);
    let inside = PhysicalPage::from_number(0xF_FFFF).unwrap();
    let beyond = PhysicalPage::from_number(0x10_0000).unwrap();
    assert_eq!(cr3::set_pagetable_frame(&mut file, inside), Ok(()));
    assert_eq!(
        cr3::set_pagetable_frame(&mut file, beyond),
        Err(NarrowingError { word: 0x1_0000_0000, width: Width::Bits32 })
    );
    assert_eq!(cr3::current_pagetable_frame(&file), inside);
}

#[test]
fn current_frame_contains_the_root() {
    let file = RegisterFile::from_words(Width::Bits32, 0, 0, 0x0010_3abc, 0).unwrap();
    let frame = cr3::current_pagetable_frame(&file);
    assert_eq!(frame.number(), 0x103);
    assert_eq!(frame.base_addr(), PAddr::new(0x0010_3000));
}
