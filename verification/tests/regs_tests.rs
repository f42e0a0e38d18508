use ness_core::psw::Psw;
use ness_core::regs::Regs;

#[test]
fn new_regs_start_in_native_mode_with_stack_near_page_one() {
    let r = Regs::new();
    assert_eq!(r.a, 0);
    assert_eq!(r.x, 0);
    assert_eq!(r.y, 0);
    assert_eq!(r.sp, 0x1FC);
    assert_eq!(r.pc, 0);
    assert_eq!(r.direct_page_offset, 0);
    assert!(!r.emulation_mode());
    assert_eq!(r.code_bank(), 0);
    assert_eq!(r.data_bank(), 0);
}

#[test]
fn psw_byte_round_trip() {
    let p = Psw::from_byte(0xA5);
    assert!(p.carry);
    assert!(!p.zero);
    assert!(p.irqs_disabled);
    assert!(!p.decimal_mode);
    assert!(!p.index_regs_are_8_bit);
    assert!(p.a_is_8_bit);
    assert!(!p.overflow);
    assert!(p.negative);
    assert_eq!(p.to_byte(), 0xA5);
    assert_eq!(Psw::from_byte(0x00).to_byte(), 0x00);
    assert_eq!(Psw::from_byte(0xFF).to_byte(), 0xFF);
}

#[test]
fn set_psw_with_index_width_masks_x_and_y() {
    let mut r = Regs::new();
    r.x = 0x1234;
    r.y = 0xFF01;
    let mut p = Psw::new();
    p.index_regs_are_8_bit = true;
    r.set_psw(p);
    assert_eq!(r.x, 0x34);
    assert_eq!(r.y, 0x01);
    assert!(r.psw().index_regs_are_8_bit);
}

#[test]
fn entering_emulation_mode_forces_stack_page_and_widths() {
    let mut r = Regs::new();
    r.sp = 0x03F7;
    r.x = 0x1234;
    r.set_emulation_mode::<true>(true);
    assert!(r.emulation_mode());
    assert_eq!(r.sp, 0x01F7);
    assert!(r.psw().index_regs_are_8_bit);
    assert!(r.psw().a_is_8_bit);
    assert_eq!(r.x, 0x34);
}

#[test]
fn emulation_mode_pins_width_flags_in_set_psw() {
    let mut r = Regs::new();
    r.set_emulation_mode::<true>(true);
    r.set_psw(Psw::new());
    assert!(r.psw().index_regs_are_8_bit);
    assert!(r.psw().a_is_8_bit);
}

#[test]
fn xce_swaps_carry_and_emulation_mode() {
    let mut r = Regs::new();
    r.set_emulation_mode::<true>(true);
    r.psw.carry = false;
    r.xce();
    assert!(!r.emulation_mode());
    assert!(r.psw.carry);
}

#[test]
fn xce_twice_is_identity() {
    let mut r = Regs::new();
    r.a = 0x1234;
    r.psw.carry = false;
    let before = r.clone();
    r.xce();
    r.xce();
    assert_eq!(r, before);

    let mut e = Regs::new();
    e.set_emulation_mode::<true>(true);
    e.psw.carry = true;
    let before_e = e.clone();
    e.xce();
    e.xce();
    assert_eq!(e, before_e);
}

#[test]
fn bank_setters() {
    let mut r = Regs::new();
    r.set_code_bank(0x12);
    r.set_data_bank(0x7E);
    assert_eq!(r.code_bank(), 0x12);
    assert_eq!(r.data_bank(), 0x7E);
}
