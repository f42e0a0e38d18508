use ness_core::cpu;
use ness_core::cpu::Cpu;
use ness_core::psw::Psw;
use ness_core::regs::Regs;
use ness_core::schedule::Schedule;

fn wram() -> Vec<u8> {
    vec![0u8; 0x10000]
}

#[test]
fn push_and_pull_byte_round_trip() {
    let mut r = Regs::new();
    let mut w = wram();
    let sp0 = r.sp;
    cpu::push8(&mut r, &mut w, 0xAB);
    assert_eq!(r.sp, sp0 - 1);
    assert_eq!(w[sp0 as usize], 0xAB);
    let v = cpu::pull8(&mut r, &w);
    assert_eq!(v, 0xAB);
    assert_eq!(r.sp, sp0);
}

#[test]
fn push16_stores_high_byte_above_low_byte() {
    let mut r = Regs::new();
    let mut w = wram();
    let sp0 = r.sp;
    cpu::push16(&mut r, &mut w, 0xBEEF);
    assert_eq!(w[sp0 as usize], 0xBE);
    assert_eq!(w[(sp0 - 1) as usize], 0xEF);
    assert_eq!(r.sp, sp0 - 2);
    let v = cpu::pull16(&mut r, &w);
    assert_eq!(v, 0xBEEF);
    assert_eq!(r.sp, sp0);
}

#[test]
fn native_stack_pointer_wraps_at_zero() {
    let mut r = Regs::new();
    r.sp = 0x0000;
    let mut w = wram();
    cpu::push8(&mut r, &mut w, 0x42);
    assert_eq!(r.sp, 0xFFFF);
    assert_eq!(w[0], 0x42);
    let v = cpu::pull8(&mut r, &w);
    assert_eq!(v, 0x42);
    assert_eq!(r.sp, 0x0000);
}

#[test]
fn emulation_stack_pointer_wraps_within_page_one() {
    let mut r = Regs::new();
    r.set_emulation_mode::<true>(true);
    r.sp = 0x0100;
    let mut w = wram();
    cpu::push8(&mut r, &mut w, 0x11);
    assert_eq!(r.sp, 0x01FF);
    assert_eq!(w[0x100], 0x11);
    let v = cpu::pull8(&mut r, &w);
    assert_eq!(v, 0x11);
    assert_eq!(r.sp, 0x0100);
}

#[test]
fn pha_pla_preserves_a_and_flags_8_bit() {
    let mut r = Regs::new();
    let mut p = Psw::new();
    p.a_is_8_bit = true;
    p.index_regs_are_8_bit = true;
    p.carry = true;
    p.overflow = true;
    r.set_psw(p);
    r.a = 0xAB85;
    let mut w = wram();
    let before = r.clone();
    cpu::pha(&mut r, &mut w);
    cpu::pla(&mut r, &w);
    assert_eq!(r.a, before.a);
    assert_eq!(r.sp, before.sp);
    assert!(r.psw.carry);
    assert!(r.psw.overflow);
    // N/Z now reflect the low byte of A
    assert!(r.psw.negative);
    assert!(!r.psw.zero);
}

#[test]
fn pha_pla_preserves_a_and_flags_16_bit() {
    let mut r = Regs::new();
    r.psw.carry = true;
    r.a = 0x0000;
    let mut w = wram();
    cpu::pha(&mut r, &mut w);
    r.a = 0x1234;
    cpu::pla(&mut r, &w);
    assert_eq!(r.a, 0x0000);
    assert!(r.psw.carry);
    assert!(r.psw.zero);
    assert!(!r.psw.negative);
}

#[test]
fn php_plp_round_trips_the_status_word() {
    let mut r = Regs::new();
    r.set_psw(Psw::from_byte(0xC3));
    let mut w = wram();
    cpu::php(&mut r, &mut w);
    r.set_psw(Psw::from_byte(0x00));
    cpu::plp(&mut r, &w);
    assert_eq!(r.psw.to_byte(), 0xC3);
}

#[test]
fn nmi_vectors_at_the_next_boundary() {
    let mut c = Cpu::new();
    let mut s = Schedule::new();
    let mut w = wram();
    c.regs.pc = 0x8123;
    c.regs.set_code_bank(0x12);
    c.irqs.request_nmi(&mut s);
    let taken = cpu::process_pending_exceptions(&mut c, &mut w, &mut s, 0xFF0A, 0xFF0E);
    assert!(taken);
    assert_eq!(c.regs.pc, 0xFF0A);
    assert_eq!(c.regs.code_bank(), 0);
    assert!(!c.irqs.processing_nmi());
    assert!(c.regs.psw.irqs_disabled);
    assert!(!c.regs.psw.decimal_mode);
    // the old code bank, return address and status word are on the stack
    assert_eq!(w[0x1FC], 0x12);
    assert_eq!(w[0x1FB], 0x81);
    assert_eq!(w[0x1FA], 0x23);
}

#[test]
fn wai_then_nmi_vectors_on_the_next_step() {
    let mut c = Cpu::new();
    let mut s = Schedule::new();
    let mut w = wram();
    c.irqs.set_waiting_for_exception(true);
    assert!(c.irqs.waiting_for_exception());
    c.irqs.request_nmi(&mut s);
    assert!(!c.irqs.waiting_for_exception());
    let taken = cpu::process_pending_exceptions(&mut c, &mut w, &mut s, 0xFF0A, 0xFF0E);
    assert!(taken);
    assert_eq!(c.regs.pc, 0xFF0A);
    assert!(!c.irqs.processing_nmi());
}

#[test]
fn enabled_timer_irq_vectors_when_no_nmi_is_pending() {
    let mut c = Cpu::new();
    let mut s = Schedule::new();
    let mut w = wram();
    c.irqs.set_hv_timer_irq_requested(true, &mut s);
    let taken = cpu::process_pending_exceptions(&mut c, &mut w, &mut s, 0xFF0A, 0xFF0E);
    assert!(taken);
    assert_eq!(c.regs.pc, 0xFF0E);
    assert!(!c.irqs.irqs_enabled());
    assert!(!c.irqs.processing_irq());
}

#[test]
fn no_pending_exception_changes_nothing() {
    let mut c = Cpu::new();
    let mut s = Schedule::new();
    let mut w = wram();
    c.regs.pc = 0x4321;
    let taken = cpu::process_pending_exceptions(&mut c, &mut w, &mut s, 0xFF0A, 0xFF0E);
    assert!(!taken);
    assert_eq!(c.regs.pc, 0x4321);
}
