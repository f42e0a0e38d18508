use ness_core::alu;
use ness_core::psw::Psw;
use ness_core::regs::Regs;
use ness_core::schedule::{Schedule, IO_CYCLE_MASTER_CYCLES};

fn regs_8bit() -> Regs {
    let mut r = Regs::new();
    let mut p = Psw::new();
    p.a_is_8_bit = true;
    p.index_regs_are_8_bit = true;
    r.set_psw(p);
    r
}

fn regs_16bit() -> Regs {
    Regs::new()
}

#[test]
fn adc_binary_8_bit_sets_overflow_and_negative() {
    let mut r = regs_8bit();
    r.a = 0x50;
    alu::adc(&mut r, 0x50);
    assert_eq!(r.a, 0xA0);
    assert!(r.psw.negative);
    assert!(r.psw.overflow);
    assert!(!r.psw.carry);
    assert!(!r.psw.zero);
}

#[test]
fn adc_binary_16_bit_sets_overflow_and_negative() {
    let mut r = regs_16bit();
    r.a = 0x7FFF;
    alu::adc(&mut r, 0x0001);
    assert_eq!(r.a, 0x8000);
    assert!(r.psw.negative);
    assert!(r.psw.overflow);
    assert!(!r.psw.carry);
    assert!(!r.psw.zero);
}

#[test]
fn adc_8_bit_carry_out_and_high_byte_kept() {
    let mut r = regs_8bit();
    r.a = 0xAB_FF;
    alu::adc(&mut r, 0x01);
    assert_eq!(r.a, 0xAB_00);
    assert!(r.psw.carry);
    assert!(r.psw.zero);
    assert!(!r.psw.negative);
    assert!(!r.psw.overflow);
}

#[test]
fn adc_carry_in_is_added() {
    let mut r = regs_8bit();
    r.a = 0x10;
    r.psw.carry = true;
    alu::adc(&mut r, 0x10);
    assert_eq!(r.a, 0x21);
    assert!(!r.psw.carry);
}

#[test]
fn sbc_8_bit_borrow_free_subtraction() {
    let mut r = regs_8bit();
    r.a = 0x50;
    r.psw.carry = true;
    alu::sbc(&mut r, 0x20);
    assert_eq!(r.a, 0x30);
    assert!(r.psw.carry);
    assert!(!r.psw.negative);
}

#[test]
fn sbc_16_bit_underflow_clears_carry() {
    let mut r = regs_16bit();
    r.a = 0x0001;
    r.psw.carry = true;
    alu::sbc(&mut r, 0x0002);
    assert_eq!(r.a, 0xFFFF);
    assert!(!r.psw.carry);
    assert!(r.psw.negative);
}

#[test]
fn cmp_sets_carry_on_equality() {
    let mut r = regs_8bit();
    r.a = 0x80;
    alu::cmp(&mut r, 0x80);
    assert!(r.psw.zero);
    assert!(r.psw.carry);
    assert!(!r.psw.negative);
}

#[test]
fn cmp_lower_operand_sets_carry() {
    let mut r = regs_8bit();
    r.a = 0x40;
    alu::cmp(&mut r, 0x30);
    assert!(r.psw.carry);
    assert!(!r.psw.zero);
}

#[test]
fn cmp_greater_operand_clears_carry_sets_negative() {
    let mut r = regs_8bit();
    r.a = 0x10;
    alu::cmp(&mut r, 0x20);
    assert!(!r.psw.carry);
    assert!(!r.psw.zero);
    assert!(r.psw.negative);
}

#[test]
fn rep_mask_clears_selected_flags() {
    let mut r = Regs::new();
    r.x = 0x12;
    r.y = 0x34;
    r.set_psw(Psw::from_byte(0xFF));
    assert!(r.psw.index_regs_are_8_bit);
    assert!(r.psw.a_is_8_bit);
    alu::rep(&mut r, 0x30);
    assert!(!r.psw.index_regs_are_8_bit);
    assert!(!r.psw.a_is_8_bit);
    assert!(r.psw.carry);
    assert!(r.psw.zero);
    assert!(r.psw.irqs_disabled);
    assert!(r.psw.decimal_mode);
    assert!(r.psw.overflow);
    assert!(r.psw.negative);
    // X and Y keep their masked values until the next write
    assert_eq!(r.x, 0x12);
    assert_eq!(r.y, 0x34);
}

#[test]
fn sep_sets_selected_flags_and_masks_index_regs() {
    let mut r = Regs::new();
    r.x = 0x1234;
    r.y = 0xABCD;
    alu::sep(&mut r, 0x30);
    assert!(r.psw.index_regs_are_8_bit);
    assert!(r.psw.a_is_8_bit);
    assert_eq!(r.x, 0x34);
    assert_eq!(r.y, 0xCD);
    assert!(!r.psw.carry);
}

#[test]
fn rol_then_ror_restores_value_and_carry_8_bit() {
    let mut p = Psw::new();
    let mut s = Schedule::new();
    p.carry = true;
    let v: u16 = 0x85;
    let r1 = alu::do_rol(&mut p, &mut s, v, false);
    assert_eq!(r1, 0x0B);
    assert!(p.carry);
    let r2 = alu::do_ror(&mut p, &mut s, r1, false);
    assert_eq!(r2, v);
    assert!(p.carry);
    assert!(p.negative);
    assert!(!p.zero);
    // each rotate paid one internal cycle
    assert_eq!(s.cur_time, 2 * IO_CYCLE_MASTER_CYCLES);
}

#[test]
fn rol_then_ror_restores_value_and_carry_16_bit() {
    let mut p = Psw::new();
    let mut s = Schedule::new();
    let v: u16 = 0x8001;
    let r1 = alu::do_rol(&mut p, &mut s, v, true);
    assert_eq!(r1, 0x0002);
    assert!(p.carry);
    let r2 = alu::do_ror(&mut p, &mut s, r1, true);
    assert_eq!(r2, v);
    assert!(!p.carry);
    assert!(p.negative);
}

#[test]
fn asl_shifts_out_sign_into_carry() {
    let mut p = Psw::new();
    let mut s = Schedule::new();
    let r = alu::do_asl(&mut p, &mut s, 0xC0, false);
    assert_eq!(r, 0x80);
    assert!(p.carry);
    assert!(p.negative);
    assert_eq!(s.cur_time, IO_CYCLE_MASTER_CYCLES);
}

#[test]
fn lsr_shifts_out_low_bit_into_carry() {
    let mut p = Psw::new();
    let mut s = Schedule::new();
    let r = alu::do_lsr(&mut p, &mut s, 0x01, false);
    assert_eq!(r, 0x00);
    assert!(p.carry);
    assert!(p.zero);
    assert_eq!(s.cur_time, IO_CYCLE_MASTER_CYCLES);
}

#[test]
fn inc_and_dec_wrap_at_width() {
    let mut p = Psw::new();
    let mut s = Schedule::new();
    assert_eq!(alu::do_inc(&mut p, &mut s, 0xFF, false), 0x00);
    assert!(p.zero);
    assert_eq!(alu::do_dec(&mut p, &mut s, 0x00, false), 0xFF);
    assert!(p.negative);
    assert_eq!(alu::do_inc(&mut p, &mut s, 0xFFFF, true), 0x0000);
    assert_eq!(alu::do_dec(&mut p, &mut s, 0x0000, true), 0xFFFF);
    // each of the four paid one internal cycle
    assert_eq!(s.cur_time, 4 * IO_CYCLE_MASTER_CYCLES);
}

#[test]
fn logic_ops_set_nz_from_result() {
    let mut r = regs_8bit();
    r.a = 0xF0;
    alu::ora(&mut r, 0x0F);
    assert_eq!(r.a, 0xFF);
    assert!(r.psw.negative);
    let mut r2 = regs_8bit();
    r2.a = 0xF0;
    alu::and(&mut r2, 0x0F);
    assert_eq!(r2.a, 0x00);
    assert!(r2.psw.zero);
    let mut r3 = regs_8bit();
    r3.a = 0xFF;
    alu::eor(&mut r3, 0xFF);
    assert_eq!(r3.a, 0x00);
    assert!(r3.psw.zero);
}

#[test]
fn logic_ops_8_bit_keep_high_byte() {
    let mut r = regs_8bit();
    r.a = 0xAA0F;
    alu::ora(&mut r, 0xF0);
    assert_eq!(r.a, 0xAAFF);
}

#[test]
fn lda_sets_nz_and_sta_reads_masked() {
    let mut r = regs_8bit();
    r.a = 0xAB00;
    alu::lda(&mut r, 0x80);
    assert_eq!(r.a, 0xAB80);
    assert!(r.psw.negative);
    assert_eq!(alu::sta(&r), 0x80);
    let mut r2 = regs_16bit();
    alu::lda(&mut r2, 0x0000);
    assert!(r2.psw.zero);
    assert_eq!(alu::sta(&r2), 0x0000);
}

#[test]
fn bit_copies_top_bits_unless_immediate() {
    let mut r = regs_8bit();
    r.a = 0x01;
    alu::bit(&mut r, 0xC0, false);
    assert!(r.psw.zero);
    assert!(r.psw.negative);
    assert!(r.psw.overflow);
    let mut r2 = regs_8bit();
    r2.a = 0x01;
    alu::bit(&mut r2, 0xC1, true);
    assert!(!r2.psw.zero);
    assert!(!r2.psw.negative);
    assert!(!r2.psw.overflow);
}

#[test]
fn tsb_and_trb_test_then_update() {
    let mut s = Schedule::new();
    let mut r = regs_8bit();
    r.a = 0x0F;
    let set = alu::tsb(&mut r, &mut s, 0xF0);
    assert_eq!(set, 0xFF);
    assert!(r.psw.zero);
    let mut r2 = regs_8bit();
    r2.a = 0x03;
    let cleared = alu::trb(&mut r2, &mut s, 0x0F);
    assert_eq!(cleared, 0x0C);
    assert!(!r2.psw.zero);
    // each RMW paid its extra internal cycle
    assert_eq!(s.cur_time, 2 * IO_CYCLE_MASTER_CYCLES);
}

#[test]
fn index_ops_respect_index_width() {
    let mut s = Schedule::new();
    let mut r = regs_8bit();
    r.x = 0xFF;
    alu::inx(&mut r, &mut s);
    assert_eq!(r.x, 0x00);
    assert!(r.psw.zero);
    let mut r2 = regs_16bit();
    r2.y = 0x0000;
    alu::dey(&mut r2, &mut s);
    assert_eq!(r2.y, 0xFFFF);
    assert!(r2.psw.negative);
    assert_eq!(s.cur_time, 2 * IO_CYCLE_MASTER_CYCLES);
}

#[test]
fn cpx_cpy_compare_at_index_width() {
    let mut r = regs_8bit();
    r.x = 0x20;
    alu::cpx(&mut r, 0x10);
    assert!(r.psw.carry);
    let mut r2 = regs_16bit();
    r2.y = 0x1000;
    alu::cpy(&mut r2, 0x2000);
    assert!(!r2.psw.carry);
    assert!(r2.psw.negative);
}

#[test]
fn accumulator_rmw_ops() {
    let mut s = Schedule::new();
    let mut r = regs_8bit();
    r.a = 0xFF7F;
    alu::inc_a(&mut r, &mut s);
    assert_eq!(r.a, 0xFF80);
    assert!(r.psw.negative);
    alu::dec_a(&mut r, &mut s);
    assert_eq!(r.a, 0xFF7F);
    alu::asl_a(&mut r, &mut s);
    assert_eq!(r.a, 0xFFFE);
    assert!(!r.psw.carry);
    alu::lsr_a(&mut r, &mut s);
    assert_eq!(r.a, 0xFF7F);
    assert!(!r.psw.carry);
    // four operations, one internal cycle each
    assert_eq!(s.cur_time, 4 * IO_CYCLE_MASTER_CYCLES);
}

#[test]
fn transfers_respect_register_widths() {
    let mut r = regs_8bit();
    r.a = 0xAB85;
    alu::tax(&mut r);
    assert_eq!(r.x, 0x85);
    assert!(r.psw.negative);
    let mut r2 = regs_16bit();
    r2.a = 0xAB85;
    alu::tay(&mut r2);
    assert_eq!(r2.y, 0xAB85);
    let mut r3 = regs_8bit();
    r3.a = 0xFF00;
    r3.x = 0x42;
    alu::txa(&mut r3);
    assert_eq!(r3.a, 0xFF42);
    let mut r4 = regs_16bit();
    r4.y = 0x8000;
    alu::tya(&mut r4);
    assert_eq!(r4.a, 0x8000);
    assert!(r4.psw.negative);
}

#[test]
fn stack_transfers_keep_emulation_stack_in_page_one() {
    let mut r = regs_16bit();
    r.x = 0x2345;
    alu::txs(&mut r);
    assert_eq!(r.sp, 0x2345);
    alu::tsx(&mut r);
    assert_eq!(r.x, 0x2345);
    let mut e = Regs::new();
    e.set_emulation_mode::<true>(true);
    e.a = 0x55;
    alu::tcs(&mut e);
    assert_eq!(e.sp, 0x0155);
}

#[test]
fn direct_page_and_stack_copies_are_always_16_bit() {
    let mut r = regs_8bit();
    r.a = 0xBEEF;
    alu::tcd(&mut r);
    assert_eq!(r.direct_page_offset, 0xBEEF);
    assert!(r.psw.negative);
    let mut r2 = regs_8bit();
    r2.direct_page_offset = 0x1234;
    alu::tdc(&mut r2);
    assert_eq!(r2.a, 0x1234);
    let mut r3 = regs_8bit();
    r3.sp = 0x01FC;
    alu::tsc(&mut r3);
    assert_eq!(r3.a, 0x01FC);
    let mut r4 = regs_16bit();
    r4.x = 0x0100;
    alu::txy(&mut r4);
    assert_eq!(r4.y, 0x0100);
    alu::tyx(&mut r4);
    assert_eq!(r4.x, 0x0100);
}

#[test]
fn xba_swaps_the_bytes_of_a() {
    let mut r = regs_16bit();
    r.a = 0x12FF;
    alu::xba(&mut r);
    assert_eq!(r.a, 0xFF12);
    assert!(!r.psw.negative);
    assert!(!r.psw.zero);
    alu::xba(&mut r);
    assert_eq!(r.a, 0x12FF);
    assert!(r.psw.negative);
}

#[test]
fn memory_rmw_ops_return_written_value() {
    let mut s = Schedule::new();
    let mut r = regs_8bit();
    assert_eq!(alu::inc(&mut r, &mut s, 0x7F), 0x80);
    assert!(r.psw.negative);
    assert_eq!(alu::dec(&mut r, &mut s, 0x00), 0xFF);
    assert_eq!(alu::asl(&mut r, &mut s, 0x81), 0x02);
    assert!(r.psw.carry);
    r.psw.carry = false;
    assert_eq!(alu::lsr(&mut r, &mut s, 0x02), 0x01);
    assert!(!r.psw.carry);
    r.psw.carry = true;
    assert_eq!(alu::rol(&mut r, &mut s, 0x80), 0x01);
    assert!(r.psw.carry);
    assert_eq!(alu::ror(&mut r, &mut s, 0x00), 0x80);
    assert!(!r.psw.carry);
    // six operations, one internal cycle each
    assert_eq!(s.cur_time, 6 * IO_CYCLE_MASTER_CYCLES);
}
