use control_regs::cr0;
use control_regs::cr4;
use control_regs::registers::{Register, RegisterFile};
use control_regs::width::Width;
use control_regs::{dump, CrState};

#[test]
fn snapshot_renders_the_narrow_registers() {
    let file = RegisterFile::from_words(Width::Bits32, 0x8001_0001, 0x0000_0000, 0x0010_3000, 0x20)
        .unwrap();
    let state: CrState = dump(&file);
    assert_eq!(
        state.to_string(),
        "CR0: 0x80010001 CR2: 0x00000000 CR3: 0x00103000 CR4: 0x00000020"
    );
}

#[test]
fn snapshot_renders_the_wide_registers() {
    let file = RegisterFile::from_words(
        Width::Bits64,
        0x8001_0001,
        0xFFFF_8000_DEAD_B000,
        0x0000_0001_0010_3000,
        0x20,
    ).unwrap();
    let state = dump(&file);
    assert_eq!(
        state.to_string(),
        "CR0: 0x0000000080010001 CR2: 0xffff8000deadb000 CR3: 0x0000000100103000 CR4: 0x0000000000000020"
    );
}

#[test]
fn snapshot_text_has_a_fixed_length() {
    for (cr2, cr3) in [(0u64, 0u64), (1, 0x1000), (0xFFFF_FFFF, 0xFFFF_FFFF)] {
        let file = RegisterFile::from_words(Width::Bits32, 0x11, cr2, cr3, 0).unwrap();
        assert_eq!(dump(&file).to_string().len(), 63);
        let file = RegisterFile::from_words(Width::Bits64, 0x11, cr2, cr3, 0).unwrap();
        assert_eq!(dump(&file).to_string().len(), 95);
    }
}

#[test]
fn snapshot_holds_what_the_registers_held() {
    let file = RegisterFile::from_words(Width::Bits32, 0x8001_0001, 0xC000_1234, 0x0010_3000, 0x30)
        .unwrap();
    let state = dump(&file);
    assert_eq!(state.width(), Width::Bits32);
    assert_eq!(state.cr0(), cr0::Flags::from_bits_truncate(0x8001_0001));
    assert_eq!(state.cr2(), 0xC000_1234);
    assert_eq!(state.cr3(), 0x0010_3000);
    assert_eq!(state.cr4(), cr4::Flags::from_bits_truncate(0x30));
    assert!(state.cr0().contains(cr0::Flag::Paging));
    assert!(state.cr4().contains(cr4::Flag::PhysicalAddressExtension));
    assert!(state.cr4().contains(cr4::Flag::PageSizeExtension));
}

#[test]
fn snapshot_flags_lose_bits_without_a_name() {
    let file = RegisterFile::from_words(Width::Bits32, 0xFFFF_FFFF, 0, 0, 0xFFFF_FFFF).unwrap();
    let state = dump(&file);
    assert_eq!(state.cr0().bits(), 0xE005_003F);
    assert_eq!(state.cr4().bits(), 0x0077_6FFF);
    assert_eq!(
        state.to_string(),
        "CR0: 0xe005003f CR2: 0x00000000 CR3: 0x00000000 CR4: 0x00776fff"
    );
}

#[test]
fn snapshot_is_a_copy() {
    let mut file = RegisterFile::from_words(Width::Bits32, 1, 2, 0x3000, 0x20).unwrap();
    let state = dump(&file);
    assert_eq!(file.store(Register::Cr3, 0x4000), Ok(()));
    assert_eq!(state.cr3(), 0x3000);
    assert_eq!(dump(&file).cr3(), 0x4000);
    let copy = state;
    assert_eq!(copy, state);
}

#[test]
fn snapshot_of_new_registers_is_all_zero() {
    let state = dump(&RegisterFile::new(Width::Bits32));
    assert_eq!(state.cr0(), cr0::Flags::empty());
    assert_eq!(state.cr4(), cr4::Flags::empty());
    assert_eq!(
        state.to_string(),
        "CR0: 0x00000000 CR2: 0x00000000 CR3: 0x00000000 CR4: 0x00000000"
    );
}
