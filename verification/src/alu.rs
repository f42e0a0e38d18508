//! Arithmetic/logic operations of the 65C816 interpreter.
//!
//! Every operation exists in an 8-bit and a 16-bit form, selected by the
//! width flags of the status word (`a_is_8_bit` for accumulator operations,
//! `index_regs_are_8_bit` for index-register operations). Operands arrive
//! already fetched by the addressing-mode layer as plain values, and
//! read-modify-write operations return the value for that layer to write
//! back.

use vstd::prelude::*;
use vstd::arithmetic::div_mod::{lemma_small_mod, lemma_mod_self_0, lemma_mod_multiples_vanish};
use crate::psw::Psw;
use crate::psw::byte_bit;
use crate::regs::Regs;
use crate::schedule::{Schedule, IO_CYCLE_MASTER_CYCLES};

verus! {

/// Number of values representable at the given operand width.
pub open spec fn width_mod(w16: bool) -> int {
    if w16 {
        0x10000
    } else {
        0x100
    }
}

/// Smallest value whose sign bit is set at the given operand width.
pub open spec fn sign_threshold(w16: bool) -> int {
    if w16 {
        0x8000
    } else {
        0x80
    }
}

/// The status word with N and Z set from a width-masked result and every
/// other flag kept.
pub open spec fn nz_updated(p: Psw, value: int, w16: bool) -> Psw {
    Psw { zero: value == 0, negative: value >= sign_threshold(w16), ..p }
}

/// The accumulator after a width-aware write: an 8-bit write replaces only
/// the low byte, a 16-bit write replaces the whole register.
pub open spec fn a_written(a: u16, value: int, w16: bool) -> u16 {
    if w16 {
        value as u16
    } else {
        (a - a % 0x100 + value) as u16
    }
}

/// The part of the accumulator an operation of the given width reads.
pub open spec fn a_read(a: u16, w16: bool) -> u16 {
    if w16 {
        a
    } else {
        (a % 0x100) as u16
    }
}

/// The remainder by a positive constant never exceeds the dividend.
pub proof fn lemma_mod_le(a: u16, m: u16)
    requires
        0 < m,
    ensures
        a % m <= a,
{
    if a < m {
        lemma_small_mod(a as nat, m as nat);
    }
}

/// Sets the N and Z flags from a width-masked value, leaving every other
/// flag untouched.
pub fn set_nz(psw: &mut Psw, value: u16, w16: bool)
    requires
        value < width_mod(w16),
    ensures
        *final(psw) == nz_updated(*old(psw), value as int, w16),
{
    psw.zero = value == 0;
    psw.negative = if w16 {
        value >= 0x8000
    } else {
        value >= 0x80
    };
}

/// The register file after a binary-mode add-with-carry of a width-masked
/// operand: the accumulator takes the masked sum of the read accumulator,
/// the operand and the carry; C reports unsigned overflow out of the
/// operand width; V the classical signed-overflow rule; N and Z follow the
/// masked result.
pub open spec fn bin_adc_regs(r: Regs, operand: u16) -> Regs {
    let w16 = !r.psw.a_is_8_bit;
    let m = width_mod(w16);
    let half = sign_threshold(w16);
    let src = a_read(r.a, w16) as int;
    let sum = src + operand + (if r.psw.carry {
        1int
    } else {
        0int
    });
    let res = sum % m;
    Regs {
        a: a_written(r.a, res, w16),
        psw: Psw {
            carry: sum >= m,
            overflow: ((src < half) == (operand < half)) && ((res >= half) != (src >= half)),
            ..nz_updated(r.psw, res, w16)
        },
        ..r
    }
}

/// Binary-mode add-with-carry into the accumulator (the shared core of ADC
/// and SBC).
pub fn do_bin_adc(regs: &mut Regs, operand: u16)
    requires
        old(regs).inv(),
        operand < width_mod(!old(regs).psw.a_is_8_bit),
    ensures
        *final(regs) == bin_adc_regs(*old(regs), operand),
        final(regs).inv(),
{
    if regs.psw.a_is_8_bit {
        let src: u16 = regs.a % 0x100;
        let cin: u16 = if regs.psw.carry {
            1
        } else {
            0
        };
        let sum: u16 = src + operand + cin;
        let result: u16 = sum % 0x100;
        regs.psw.carry = sum >= 0x100;
        regs.psw.overflow = ((src < 0x80) == (operand < 0x80)) && ((result >= 0x80) != (src
            >= 0x80));
        set_nz(&mut regs.psw, result, false);
        proof {
            lemma_mod_le(regs.a, 0x100);
        }
        regs.a = regs.a - regs.a % 0x100 + result;
    } else {
        let src: u32 = regs.a as u32;
        let cin: u32 = if regs.psw.carry {
            1
        } else {
            0
        };
        let sum: u32 = src + operand as u32 + cin;
        let result: u32 = sum % 0x10000;
        regs.psw.carry = sum >= 0x10000;
        regs.psw.overflow = ((src < 0x8000) == ((operand as u32) < 0x8000)) && ((result >= 0x8000)
            != (src >= 0x8000));
        set_nz(&mut regs.psw, result as u16, true);
        regs.a = result as u16;
    }
}

/// The status word after a compare of two width-masked values: C is set
/// exactly when the register operand is (unsigned) at least the memory
/// operand, Z when they are equal, and N follows the sign of the wrapped
/// difference.
pub open spec fn compare_flags(p: Psw, op_a: u16, op_b: u16, w16: bool) -> Psw {
    let m = width_mod(w16);
    let diff = (op_a - op_b + m) % m;
    Psw { carry: op_a >= op_b, ..nz_updated(p, diff, w16) }
}

/// Compare: subtract without storing, setting C, N and Z (the shared core
/// of CMP, CPX and CPY).
pub fn do_compare(psw: &mut Psw, op_a: u16, op_b: u16, w16: bool)
    requires
        op_a < width_mod(w16),
        op_b < width_mod(w16),
    ensures
        *final(psw) == compare_flags(*old(psw), op_a, op_b, w16),
{
    let diff: u16 = if op_a >= op_b {
        op_a - op_b
    } else {
        if w16 {
            (op_a as u32 + 0x10000 - op_b as u32) as u16
        } else {
            op_a + 0x100 - op_b
        }
    };
    proof {
        let m = width_mod(w16);
        if op_a >= op_b {
            lemma_mod_multiples_vanish(1, op_a - op_b, m);
            lemma_small_mod((op_a - op_b) as nat, m as nat);
        } else {
            lemma_small_mod((op_a - op_b + m) as nat, m as nat);
        }
    }
    psw.carry = op_a >= op_b;
    set_nz(psw, diff, w16);
}

/// The width-masked successor of a value.
pub open spec fn inc_val(src: u16, w16: bool) -> int {
    (src + 1) % width_mod(w16)
}

/// The width-masked predecessor of a value.
pub open spec fn dec_val(src: u16, w16: bool) -> int {
    (src + width_mod(w16) - 1) % width_mod(w16)
}

/// Increment a width-masked value, setting N and Z from the result.
pub fn do_inc(psw: &mut Psw, schedule: &mut Schedule, src: u16, w16: bool) -> (r: u16)
    requires
        old(schedule).wf(),
        old(schedule).cur_time + IO_CYCLE_MASTER_CYCLES <= u64::MAX,
        src < width_mod(w16),
    ensures
        *final(schedule) == (Schedule {
            cur_time: (old(schedule).cur_time + IO_CYCLE_MASTER_CYCLES) as u64,
            ..*old(schedule)
        }),
        final(schedule).wf(),
        r == inc_val(src, w16),
        *final(psw) == nz_updated(*old(psw), inc_val(src, w16), w16),
{
    schedule.add_io_cycles(1);
    let m_minus_1: u16 = if w16 {
        0xFFFF
    } else {
        0xFF
    };
    let r: u16 = if src == m_minus_1 {
        0
    } else {
        src + 1
    };
    proof {
        let m = width_mod(w16);
        if src == m_minus_1 {
            lemma_mod_self_0(m);
        } else {
            lemma_small_mod((src + 1) as nat, m as nat);
        }
    }
    set_nz(psw, r, w16);
    r
}

/// Decrement a width-masked value, setting N and Z from the result.
pub fn do_dec(psw: &mut Psw, schedule: &mut Schedule, src: u16, w16: bool) -> (r: u16)
    requires
        old(schedule).wf(),
        old(schedule).cur_time + IO_CYCLE_MASTER_CYCLES <= u64::MAX,
        src < width_mod(w16),
    ensures
        *final(schedule) == (Schedule {
            cur_time: (old(schedule).cur_time + IO_CYCLE_MASTER_CYCLES) as u64,
            ..*old(schedule)
        }),
        final(schedule).wf(),
        r == dec_val(src, w16),
        *final(psw) == nz_updated(*old(psw), dec_val(src, w16), w16),
{
    schedule.add_io_cycles(1);
    let m_minus_1: u16 = if w16 {
        0xFFFF
    } else {
        0xFF
    };
    let r: u16 = if src == 0 {
        m_minus_1
    } else {
        src - 1
    };
    proof {
        let m = width_mod(w16);
        if src == 0 {
            lemma_small_mod((m - 1) as nat, m as nat);
        } else {
            lemma_mod_multiples_vanish(1, src - 1, m);
            lemma_small_mod((src - 1) as nat, m as nat);
        }
    }
    set_nz(psw, r, w16);
    r
}

/// A value shifted left by one within its width.
pub open spec fn asl_val(src: u16, w16: bool) -> int {
    (2 * src) % width_mod(w16)
}

/// Arithmetic shift left: C takes the shifted-out sign bit, N and Z follow
/// the result.
pub fn do_asl(psw: &mut Psw, schedule: &mut Schedule, src: u16, w16: bool) -> (r: u16)
    requires
        old(schedule).wf(),
        old(schedule).cur_time + IO_CYCLE_MASTER_CYCLES <= u64::MAX,
        src < width_mod(w16),
    ensures
        *final(schedule) == (Schedule {
            cur_time: (old(schedule).cur_time + IO_CYCLE_MASTER_CYCLES) as u64,
            ..*old(schedule)
        }),
        final(schedule).wf(),
        r == asl_val(src, w16),
        *final(psw) == (Psw {
            carry: src >= sign_threshold(w16),
            ..nz_updated(*old(psw), asl_val(src, w16), w16)
        }),
{
    schedule.add_io_cycles(1);
    let r: u16 = if w16 {
        ((src as u32 * 2) % 0x10000) as u16
    } else {
        (src * 2) % 0x100
    };
    psw.carry = if w16 {
        src >= 0x8000
    } else {
        src >= 0x80
    };
    set_nz(psw, r, w16);
    r
}

/// A value shifted right by one.
pub open spec fn lsr_val(src: u16) -> int {
    src as int / 2
}

/// Logical shift right: C takes the shifted-out low bit, N and Z follow the
/// result.
pub fn do_lsr(psw: &mut Psw, schedule: &mut Schedule, src: u16, w16: bool) -> (r: u16)
    requires
        old(schedule).wf(),
        old(schedule).cur_time + IO_CYCLE_MASTER_CYCLES <= u64::MAX,
        src < width_mod(w16),
    ensures
        *final(schedule) == (Schedule {
            cur_time: (old(schedule).cur_time + IO_CYCLE_MASTER_CYCLES) as u64,
            ..*old(schedule)
        }),
        final(schedule).wf(),
        r == lsr_val(src),
        *final(psw) == (Psw {
            carry: src % 2 == 1,
            ..nz_updated(*old(psw), lsr_val(src), w16)
        }),
{
    schedule.add_io_cycles(1);
    let r: u16 = src / 2;
    psw.carry = src % 2 == 1;
    set_nz(psw, r, w16);
    r
}

/// A value rotated left by one through the carry.
pub open spec fn rol_val(src: u16, c: bool, w16: bool) -> int {
    (2 * src + (if c {
        1int
    } else {
        0int
    })) % width_mod(w16)
}

/// The carry left behind by a rotate left: the old sign bit.
pub open spec fn rol_carry(src: u16, w16: bool) -> bool {
    src >= sign_threshold(w16)
}

/// Rotate left through the carry: the carry shifts into bit 0, the sign bit
/// shifts out into the carry.
pub fn do_rol(psw: &mut Psw, schedule: &mut Schedule, src: u16, w16: bool) -> (r: u16)
    requires
        old(schedule).wf(),
        old(schedule).cur_time + IO_CYCLE_MASTER_CYCLES <= u64::MAX,
        src < width_mod(w16),
    ensures
        *final(schedule) == (Schedule {
            cur_time: (old(schedule).cur_time + IO_CYCLE_MASTER_CYCLES) as u64,
            ..*old(schedule)
        }),
        final(schedule).wf(),
        r == rol_val(src, old(psw).carry, w16),
        *final(psw) == (Psw {
            carry: rol_carry(src, w16),
            ..nz_updated(*old(psw), rol_val(src, old(psw).carry, w16), w16)
        }),
{
    schedule.add_io_cycles(1);
    let cin: u16 = if psw.carry {
        1
    } else {
        0
    };
    let r: u16 = if w16 {
        ((src as u32 * 2 + cin as u32) % 0x10000) as u16
    } else {
        (src * 2 + cin) % 0x100
    };
    psw.carry = if w16 {
        src >= 0x8000
    } else {
        src >= 0x80
    };
    set_nz(psw, r, w16);
    r
}

/// A value rotated right by one through the carry.
pub open spec fn ror_val(src: u16, c: bool, w16: bool) -> int {
    src / 2 + (if c {
        sign_threshold(w16)
    } else {
        0int
    })
}

/// The carry left behind by a rotate right: the old low bit.
pub open spec fn ror_carry(src: u16) -> bool {
    src % 2 == 1
}

/// Rotate right through the carry: the carry shifts into the sign bit, bit
/// 0 shifts out into the carry.
pub fn do_ror(psw: &mut Psw, schedule: &mut Schedule, src: u16, w16: bool) -> (r: u16)
    requires
        old(schedule).wf(),
        old(schedule).cur_time + IO_CYCLE_MASTER_CYCLES <= u64::MAX,
        src < width_mod(w16),
    ensures
        *final(schedule) == (Schedule {
            cur_time: (old(schedule).cur_time + IO_CYCLE_MASTER_CYCLES) as u64,
            ..*old(schedule)
        }),
        final(schedule).wf(),
        r == ror_val(src, old(psw).carry, w16),
        *final(psw) == (Psw {
            carry: ror_carry(src),
            ..nz_updated(*old(psw), ror_val(src, old(psw).carry, w16), w16)
        }),
{
    schedule.add_io_cycles(1);
    let half: u16 = if w16 {
        0x8000
    } else {
        0x80
    };
    let r: u16 = src / 2 + if psw.carry {
        half
    } else {
        0
    };
    psw.carry = src % 2 == 1;
    set_nz(psw, r, w16);
    r
}

/// The register file after an accumulator-width read-modify-write on A:
/// the width-masked result lands in the (low byte of the) accumulator and
/// N/Z follow it.
pub open spec fn a_rmw_regs(r: Regs, res: int) -> Regs {
    let w16 = !r.psw.a_is_8_bit;
    Regs { a: a_written(r.a, res, w16), psw: nz_updated(r.psw, res, w16), ..r }
}

/// LDA: load the accumulator at the accumulator width, setting N and Z from
/// the loaded value.
pub fn lda(regs: &mut Regs, operand: u16)
    requires
        old(regs).inv(),
        operand < width_mod(!old(regs).psw.a_is_8_bit),
    ensures
        *final(regs) == a_rmw_regs(*old(regs), operand as int),
        final(regs).inv(),
{
    let w16: bool = !regs.psw.a_is_8_bit;
    if w16 {
        regs.a = operand;
    } else {
        proof {
            lemma_mod_le(regs.a, 0x100);
        }
        regs.a = regs.a - regs.a % 0x100 + operand;
    }
    set_nz(&mut regs.psw, operand, w16);
}

/// STA: the width-masked accumulator value handed to the addressing-mode
/// layer for the store. Stores set no flags.
pub fn sta(regs: &Regs) -> (r: u16)
    ensures
        r == a_read(regs.a, !regs.psw.a_is_8_bit),
{
    if regs.psw.a_is_8_bit {
        regs.a % 0x100
    } else {
        regs.a
    }
}

/// The accumulator-width bitwise OR of the read accumulator and an operand.
pub open spec fn ora_val(r: Regs, operand: u16) -> u16 {
    if !r.psw.a_is_8_bit {
        r.a | operand
    } else {
        ((((r.a % 0x100) as u8)) | (operand as u8)) as u16
    }
}

/// ORA: bitwise OR into the accumulator, N and Z from the result.
pub fn ora(regs: &mut Regs, operand: u16)
    requires
        old(regs).inv(),
        operand < width_mod(!old(regs).psw.a_is_8_bit),
    ensures
        *final(regs) == a_rmw_regs(*old(regs), ora_val(*old(regs), operand) as int),
        final(regs).inv(),
{
    let w16: bool = !regs.psw.a_is_8_bit;
    if w16 {
        let res: u16 = regs.a | operand;
        regs.a = res;
        set_nz(&mut regs.psw, res, true);
    } else {
        let a8v: u8 = (regs.a % 0x100) as u8;
        let res: u8 = a8v | (operand as u8);
        proof {
            lemma_mod_le(regs.a, 0x100);
        }
        regs.a = regs.a - regs.a % 0x100 + res as u16;
        set_nz(&mut regs.psw, res as u16, false);
    }
}

/// The accumulator-width bitwise AND of the read accumulator and an operand.
pub open spec fn and_val(r: Regs, operand: u16) -> u16 {
    if !r.psw.a_is_8_bit {
        r.a & operand
    } else {
        ((((r.a % 0x100) as u8)) & (operand as u8)) as u16
    }
}

/// AND: bitwise AND into the accumulator, N and Z from the result.
pub fn and(regs: &mut Regs, operand: u16)
    requires
        old(regs).inv(),
        operand < width_mod(!old(regs).psw.a_is_8_bit),
    ensures
        *final(regs) == a_rmw_regs(*old(regs), and_val(*old(regs), operand) as int),
        final(regs).inv(),
{
    let w16: bool = !regs.psw.a_is_8_bit;
    if w16 {
        let res: u16 = regs.a & operand;
        regs.a = res;
        set_nz(&mut regs.psw, res, true);
    } else {
        let a8v: u8 = (regs.a % 0x100) as u8;
        let res: u8 = a8v & (operand as u8);
        proof {
            lemma_mod_le(regs.a, 0x100);
        }
        regs.a = regs.a - regs.a % 0x100 + res as u16;
        set_nz(&mut regs.psw, res as u16, false);
    }
}

/// The accumulator-width bitwise XOR of the read accumulator and an operand.
pub open spec fn eor_val(r: Regs, operand: u16) -> u16 {
    if !r.psw.a_is_8_bit {
        r.a ^ operand
    } else {
        ((((r.a % 0x100) as u8)) ^ (operand as u8)) as u16
    }
}

/// EOR: bitwise exclusive OR into the accumulator, N and Z from the result.
pub fn eor(regs: &mut Regs, operand: u16)
    requires
        old(regs).inv(),
        operand < width_mod(!old(regs).psw.a_is_8_bit),
    ensures
        *final(regs) == a_rmw_regs(*old(regs), eor_val(*old(regs), operand) as int),
        final(regs).inv(),
{
    let w16: bool = !regs.psw.a_is_8_bit;
    if w16 {
        let res: u16 = regs.a ^ operand;
        regs.a = res;
        set_nz(&mut regs.psw, res, true);
    } else {
        let a8v: u8 = (regs.a % 0x100) as u8;
        let res: u8 = a8v ^ (operand as u8);
        proof {
            lemma_mod_le(regs.a, 0x100);
        }
        regs.a = regs.a - regs.a % 0x100 + res as u16;
        set_nz(&mut regs.psw, res as u16, false);
    }
}

/// ADC, binary mode. Decimal-mode adjustment is not implemented; the
/// precondition excludes it, so a caller must test the decimal flag and
/// report the unimplemented case.
pub fn adc(regs: &mut Regs, operand: u16)
    requires
        old(regs).inv(),
        operand < width_mod(!old(regs).psw.a_is_8_bit),
        !old(regs).psw.decimal_mode,
    ensures
        *final(regs) == bin_adc_regs(*old(regs), operand),
        final(regs).inv(),
{
    do_bin_adc(regs, operand);
}

/// The operand one's-complemented within the accumulator width, as SBC
/// feeds it to the binary adder.
pub open spec fn ones_complement(operand: u16, w16: bool) -> u16 {
    (width_mod(w16) - 1 - operand) as u16
}

/// SBC, binary mode: add the one's complement of the operand with carry.
/// Decimal-mode adjustment is not implemented; the precondition excludes
/// it, so a caller must test the decimal flag and report the unimplemented
/// case.
pub fn sbc(regs: &mut Regs, operand: u16)
    requires
        old(regs).inv(),
        operand < width_mod(!old(regs).psw.a_is_8_bit),
        !old(regs).psw.decimal_mode,
    ensures
        *final(regs) == bin_adc_regs(
            *old(regs),
            ones_complement(operand, !old(regs).psw.a_is_8_bit),
        ),
        final(regs).inv(),
{
    let comp: u16 = if regs.psw.a_is_8_bit {
        0xFF - operand
    } else {
        0xFFFF - operand
    };
    do_bin_adc(regs, comp);
}

/// CMP: compare the accumulator with an operand at the accumulator width.
pub fn cmp(regs: &mut Regs, operand: u16)
    requires
        old(regs).inv(),
        operand < width_mod(!old(regs).psw.a_is_8_bit),
    ensures
        *final(regs) == (Regs {
            psw: compare_flags(
                old(regs).psw,
                a_read(old(regs).a, !old(regs).psw.a_is_8_bit),
                operand,
                !old(regs).psw.a_is_8_bit,
            ),
            ..*old(regs)
        }),
        final(regs).inv(),
{
    let w16: bool = !regs.psw.a_is_8_bit;
    let lhs: u16 = if w16 {
        regs.a
    } else {
        regs.a % 0x100
    };
    do_compare(&mut regs.psw, lhs, operand, w16);
}

/// CPX: compare X with an operand at the index width.
pub fn cpx(regs: &mut Regs, operand: u16)
    requires
        old(regs).inv(),
        operand < width_mod(!old(regs).psw.index_regs_are_8_bit),
    ensures
        *final(regs) == (Regs {
            psw: compare_flags(
                old(regs).psw,
                old(regs).x,
                operand,
                !old(regs).psw.index_regs_are_8_bit,
            ),
            ..*old(regs)
        }),
        final(regs).inv(),
{
    let w16: bool = !regs.psw.index_regs_are_8_bit;
    do_compare(&mut regs.psw, regs.x, operand, w16);
}

/// CPY: compare Y with an operand at the index width.
pub fn cpy(regs: &mut Regs, operand: u16)
    requires
        old(regs).inv(),
        operand < width_mod(!old(regs).psw.index_regs_are_8_bit),
    ensures
        *final(regs) == (Regs {
            psw: compare_flags(
                old(regs).psw,
                old(regs).y,
                operand,
                !old(regs).psw.index_regs_are_8_bit,
            ),
            ..*old(regs)
        }),
        final(regs).inv(),
{
    let w16: bool = !regs.psw.index_regs_are_8_bit;
    do_compare(&mut regs.psw, regs.y, operand, w16);
}

/// INC on the accumulator.
pub fn inc_a(regs: &mut Regs, schedule: &mut Schedule)
    requires
        old(schedule).wf(),
        old(schedule).cur_time + IO_CYCLE_MASTER_CYCLES <= u64::MAX,
        old(regs).inv(),
    ensures
        *final(schedule) == (Schedule {
            cur_time: (old(schedule).cur_time + IO_CYCLE_MASTER_CYCLES) as u64,
            ..*old(schedule)
        }),
        final(schedule).wf(),
        *final(regs) == a_rmw_regs(
            *old(regs),
            inc_val(a_read(old(regs).a, !old(regs).psw.a_is_8_bit), !old(regs).psw.a_is_8_bit),
        ),
        final(regs).inv(),
{
    let w16: bool = !regs.psw.a_is_8_bit;
    let src: u16 = if w16 {
        regs.a
    } else {
        regs.a % 0x100
    };
    let r: u16 = do_inc(&mut regs.psw, schedule, src, w16);
    if w16 {
        regs.a = r;
    } else {
        proof {
            lemma_mod_le(regs.a, 0x100);
        }
        regs.a = regs.a - regs.a % 0x100 + r;
    }
}

/// INC on a memory operand: returns the value to write back and sets N/Z.
pub fn inc(regs: &mut Regs, schedule: &mut Schedule, value: u16) -> (r: u16)
    requires
        old(schedule).wf(),
        old(schedule).cur_time + IO_CYCLE_MASTER_CYCLES <= u64::MAX,
        old(regs).inv(),
        value < width_mod(!old(regs).psw.a_is_8_bit),
    ensures
        *final(schedule) == (Schedule {
            cur_time: (old(schedule).cur_time + IO_CYCLE_MASTER_CYCLES) as u64,
            ..*old(schedule)
        }),
        final(schedule).wf(),
        r == inc_val(value, !old(regs).psw.a_is_8_bit),
        *final(regs) == (Regs {
            psw: nz_updated(
                old(regs).psw,
                inc_val(value, !old(regs).psw.a_is_8_bit),
                !old(regs).psw.a_is_8_bit,
            ),
            ..*old(regs)
        }),
        final(regs).inv(),
{
    let w16: bool = !regs.psw.a_is_8_bit;
    do_inc(&mut regs.psw, schedule, value, w16)
}

/// DEC on the accumulator.
pub fn dec_a(regs: &mut Regs, schedule: &mut Schedule)
    requires
        old(schedule).wf(),
        old(schedule).cur_time + IO_CYCLE_MASTER_CYCLES <= u64::MAX,
        old(regs).inv(),
    ensures
        *final(schedule) == (Schedule {
            cur_time: (old(schedule).cur_time + IO_CYCLE_MASTER_CYCLES) as u64,
            ..*old(schedule)
        }),
        final(schedule).wf(),
        *final(regs) == a_rmw_regs(
            *old(regs),
            dec_val(a_read(old(regs).a, !old(regs).psw.a_is_8_bit), !old(regs).psw.a_is_8_bit),
        ),
        final(regs).inv(),
{
    let w16: bool = !regs.psw.a_is_8_bit;
    let src: u16 = if w16 {
        regs.a
    } else {
        regs.a % 0x100
    };
    let r: u16 = do_dec(&mut regs.psw, schedule, src, w16);
    if w16 {
        regs.a = r;
    } else {
        proof {
            lemma_mod_le(regs.a, 0x100);
        }
        regs.a = regs.a - regs.a % 0x100 + r;
    }
}

/// DEC on a memory operand: returns the value to write back and sets N/Z.
pub fn dec(regs: &mut Regs, schedule: &mut Schedule, value: u16) -> (r: u16)
    requires
        old(schedule).wf(),
        old(schedule).cur_time + IO_CYCLE_MASTER_CYCLES <= u64::MAX,
        old(regs).inv(),
        value < width_mod(!old(regs).psw.a_is_8_bit),
    ensures
        *final(schedule) == (Schedule {
            cur_time: (old(schedule).cur_time + IO_CYCLE_MASTER_CYCLES) as u64,
            ..*old(schedule)
        }),
        final(schedule).wf(),
        r == dec_val(value, !old(regs).psw.a_is_8_bit),
        *final(regs) == (Regs {
            psw: nz_updated(
                old(regs).psw,
                dec_val(value, !old(regs).psw.a_is_8_bit),
                !old(regs).psw.a_is_8_bit,
            ),
            ..*old(regs)
        }),
        final(regs).inv(),
{
    let w16: bool = !regs.psw.a_is_8_bit;
    do_dec(&mut regs.psw, schedule, value, w16)
}

/// ASL on the accumulator.
pub fn asl_a(regs: &mut Regs, schedule: &mut Schedule)
    requires
        old(schedule).wf(),
        old(schedule).cur_time + IO_CYCLE_MASTER_CYCLES <= u64::MAX,
        old(regs).inv(),
    ensures
        *final(schedule) == (Schedule {
            cur_time: (old(schedule).cur_time + IO_CYCLE_MASTER_CYCLES) as u64,
            ..*old(schedule)
        }),
        final(schedule).wf(),
        *final(regs) == (Regs {
            psw: Psw {
                carry: a_read(old(regs).a, !old(regs).psw.a_is_8_bit) >= sign_threshold(
                    !old(regs).psw.a_is_8_bit,
                ),
                ..a_rmw_regs(
                    *old(regs),
                    asl_val(
                        a_read(old(regs).a, !old(regs).psw.a_is_8_bit),
                        !old(regs).psw.a_is_8_bit,
                    ),
                ).psw
            },
            ..a_rmw_regs(
                *old(regs),
                asl_val(a_read(old(regs).a, !old(regs).psw.a_is_8_bit), !old(regs).psw.a_is_8_bit),
            )
        }),
        final(regs).inv(),
{
    let w16: bool = !regs.psw.a_is_8_bit;
    let src: u16 = if w16 {
        regs.a
    } else {
        regs.a % 0x100
    };
    let r: u16 = do_asl(&mut regs.psw, schedule, src, w16);
    if w16 {
        regs.a = r;
    } else {
        proof {
            lemma_mod_le(regs.a, 0x100);
        }
        regs.a = regs.a - regs.a % 0x100 + r;
    }
}

/// ASL on a memory operand: returns the value to write back.
pub fn asl(regs: &mut Regs, schedule: &mut Schedule, value: u16) -> (r: u16)
    requires
        old(schedule).wf(),
        old(schedule).cur_time + IO_CYCLE_MASTER_CYCLES <= u64::MAX,
        old(regs).inv(),
        value < width_mod(!old(regs).psw.a_is_8_bit),
    ensures
        *final(schedule) == (Schedule {
            cur_time: (old(schedule).cur_time + IO_CYCLE_MASTER_CYCLES) as u64,
            ..*old(schedule)
        }),
        final(schedule).wf(),
        r == asl_val(value, !old(regs).psw.a_is_8_bit),
        *final(regs) == (Regs {
            psw: Psw {
                carry: value >= sign_threshold(!old(regs).psw.a_is_8_bit),
                ..nz_updated(
                    old(regs).psw,
                    asl_val(value, !old(regs).psw.a_is_8_bit),
                    !old(regs).psw.a_is_8_bit,
                )
            },
            ..*old(regs)
        }),
        final(regs).inv(),
{
    let w16: bool = !regs.psw.a_is_8_bit;
    do_asl(&mut regs.psw, schedule, value, w16)
}

/// LSR on the accumulator.
pub fn lsr_a(regs: &mut Regs, schedule: &mut Schedule)
    requires
        old(schedule).wf(),
        old(schedule).cur_time + IO_CYCLE_MASTER_CYCLES <= u64::MAX,
        old(regs).inv(),
    ensures
        *final(schedule) == (Schedule {
            cur_time: (old(schedule).cur_time + IO_CYCLE_MASTER_CYCLES) as u64,
            ..*old(schedule)
        }),
        final(schedule).wf(),
        *final(regs) == (Regs {
            psw: Psw {
                carry: a_read(old(regs).a, !old(regs).psw.a_is_8_bit) % 2 == 1,
                ..a_rmw_regs(
                    *old(regs),
                    lsr_val(a_read(old(regs).a, !old(regs).psw.a_is_8_bit)),
                ).psw
            },
            ..a_rmw_regs(*old(regs), lsr_val(a_read(old(regs).a, !old(regs).psw.a_is_8_bit)))
        }),
        final(regs).inv(),
{
    let w16: bool = !regs.psw.a_is_8_bit;
    let src: u16 = if w16 {
        regs.a
    } else {
        regs.a % 0x100
    };
    let r: u16 = do_lsr(&mut regs.psw, schedule, src, w16);
    if w16 {
        regs.a = r;
    } else {
        proof {
            lemma_mod_le(regs.a, 0x100);
        }
        regs.a = regs.a - regs.a % 0x100 + r;
    }
}

/// LSR on a memory operand: returns the value to write back.
pub fn lsr(regs: &mut Regs, schedule: &mut Schedule, value: u16) -> (r: u16)
    requires
        old(schedule).wf(),
        old(schedule).cur_time + IO_CYCLE_MASTER_CYCLES <= u64::MAX,
        old(regs).inv(),
        value < width_mod(!old(regs).psw.a_is_8_bit),
    ensures
        *final(schedule) == (Schedule {
            cur_time: (old(schedule).cur_time + IO_CYCLE_MASTER_CYCLES) as u64,
            ..*old(schedule)
        }),
        final(schedule).wf(),
        r == lsr_val(value),
        *final(regs) == (Regs {
            psw: Psw {
                carry: value % 2 == 1,
                ..nz_updated(old(regs).psw, lsr_val(value), !old(regs).psw.a_is_8_bit)
            },
            ..*old(regs)
        }),
        final(regs).inv(),
{
    let w16: bool = !regs.psw.a_is_8_bit;
    do_lsr(&mut regs.psw, schedule, value, w16)
}

/// ROL on the accumulator.
pub fn rol_a(regs: &mut Regs, schedule: &mut Schedule)
    requires
        old(schedule).wf(),
        old(schedule).cur_time + IO_CYCLE_MASTER_CYCLES <= u64::MAX,
        old(regs).inv(),
    ensures
        *final(schedule) == (Schedule {
            cur_time: (old(schedule).cur_time + IO_CYCLE_MASTER_CYCLES) as u64,
            ..*old(schedule)
        }),
        final(schedule).wf(),
        *final(regs) == (Regs {
            psw: Psw {
                carry: rol_carry(
                    a_read(old(regs).a, !old(regs).psw.a_is_8_bit),
                    !old(regs).psw.a_is_8_bit,
                ),
                ..a_rmw_regs(
                    *old(regs),
                    rol_val(
                        a_read(old(regs).a, !old(regs).psw.a_is_8_bit),
                        old(regs).psw.carry,
                        !old(regs).psw.a_is_8_bit,
                    ),
                ).psw
            },
            ..a_rmw_regs(
                *old(regs),
                rol_val(
                    a_read(old(regs).a, !old(regs).psw.a_is_8_bit),
                    old(regs).psw.carry,
                    !old(regs).psw.a_is_8_bit,
                ),
            )
        }),
        final(regs).inv(),
{
    let w16: bool = !regs.psw.a_is_8_bit;
    let src: u16 = if w16 {
        regs.a
    } else {
        regs.a % 0x100
    };
    let r: u16 = do_rol(&mut regs.psw, schedule, src, w16);
    if w16 {
        regs.a = r;
    } else {
        proof {
            lemma_mod_le(regs.a, 0x100);
        }
        regs.a = regs.a - regs.a % 0x100 + r;
    }
}

/// ROL on a memory operand: returns the value to write back.
pub fn rol(regs: &mut Regs, schedule: &mut Schedule, value: u16) -> (r: u16)
    requires
        old(schedule).wf(),
        old(schedule).cur_time + IO_CYCLE_MASTER_CYCLES <= u64::MAX,
        old(regs).inv(),
        value < width_mod(!old(regs).psw.a_is_8_bit),
    ensures
        *final(schedule) == (Schedule {
            cur_time: (old(schedule).cur_time + IO_CYCLE_MASTER_CYCLES) as u64,
            ..*old(schedule)
        }),
        final(schedule).wf(),
        r == rol_val(value, old(regs).psw.carry, !old(regs).psw.a_is_8_bit),
        *final(regs) == (Regs {
            psw: Psw {
                carry: rol_carry(value, !old(regs).psw.a_is_8_bit),
                ..nz_updated(
                    old(regs).psw,
                    rol_val(value, old(regs).psw.carry, !old(regs).psw.a_is_8_bit),
                    !old(regs).psw.a_is_8_bit,
                )
            },
            ..*old(regs)
        }),
        final(regs).inv(),
{
    let w16: bool = !regs.psw.a_is_8_bit;
    do_rol(&mut regs.psw, schedule, value, w16)
}

/// ROR on the accumulator.
pub fn ror_a(regs: &mut Regs, schedule: &mut Schedule)
    requires
        old(schedule).wf(),
        old(schedule).cur_time + IO_CYCLE_MASTER_CYCLES <= u64::MAX,
        old(regs).inv(),
    ensures
        *final(schedule) == (Schedule {
            cur_time: (old(schedule).cur_time + IO_CYCLE_MASTER_CYCLES) as u64,
            ..*old(schedule)
        }),
        final(schedule).wf(),
        *final(regs) == (Regs {
            psw: Psw {
                carry: ror_carry(a_read(old(regs).a, !old(regs).psw.a_is_8_bit)),
                ..a_rmw_regs(
                    *old(regs),
                    ror_val(
                        a_read(old(regs).a, !old(regs).psw.a_is_8_bit),
                        old(regs).psw.carry,
                        !old(regs).psw.a_is_8_bit,
                    ),
                ).psw
            },
            ..a_rmw_regs(
                *old(regs),
                ror_val(
                    a_read(old(regs).a, !old(regs).psw.a_is_8_bit),
                    old(regs).psw.carry,
                    !old(regs).psw.a_is_8_bit,
                ),
            )
        }),
        final(regs).inv(),
{
    let w16: bool = !regs.psw.a_is_8_bit;
    let src: u16 = if w16 {
        regs.a
    } else {
        regs.a % 0x100
    };
    let r: u16 = do_ror(&mut regs.psw, schedule, src, w16);
    if w16 {
        regs.a = r;
    } else {
        proof {
            lemma_mod_le(regs.a, 0x100);
        }
        regs.a = regs.a - regs.a % 0x100 + r;
    }
}

/// ROR on a memory operand: returns the value to write back.
pub fn ror(regs: &mut Regs, schedule: &mut Schedule, value: u16) -> (r: u16)
    requires
        old(schedule).wf(),
        old(schedule).cur_time + IO_CYCLE_MASTER_CYCLES <= u64::MAX,
        old(regs).inv(),
        value < width_mod(!old(regs).psw.a_is_8_bit),
    ensures
        *final(schedule) == (Schedule {
            cur_time: (old(schedule).cur_time + IO_CYCLE_MASTER_CYCLES) as u64,
            ..*old(schedule)
        }),
        final(schedule).wf(),
        r == ror_val(value, old(regs).psw.carry, !old(regs).psw.a_is_8_bit),
        *final(regs) == (Regs {
            psw: Psw {
                carry: ror_carry(value),
                ..nz_updated(
                    old(regs).psw,
                    ror_val(value, old(regs).psw.carry, !old(regs).psw.a_is_8_bit),
                    !old(regs).psw.a_is_8_bit,
                )
            },
            ..*old(regs)
        }),
        final(regs).inv(),
{
    let w16: bool = !regs.psw.a_is_8_bit;
    do_ror(&mut regs.psw, schedule, value, w16)
}

/// The accumulator-width bitwise AND of the read accumulator and an
/// operand, as BIT, TSB and TRB test it.
pub open spec fn bit_masked(r: Regs, operand: u16) -> u16 {
    if !r.psw.a_is_8_bit {
        r.a & operand
    } else {
        ((((r.a % 0x100) as u8)) & (operand as u8)) as u16
    }
}

/// Whether bit 6 of the operand width (the bit BIT copies into V) is set.
pub open spec fn bit6_of(operand: u16, w16: bool) -> bool {
    if w16 {
        (operand / 0x4000) % 2 == 1
    } else {
        (operand / 0x40) % 2 == 1
    }
}

/// BIT: Z reflects whether A and the operand share no set bit; unless the
/// operand came from the instruction stream, N and V are copied from the
/// two top bits of the operand at the accumulator width.
pub fn bit(regs: &mut Regs, operand: u16, immediate: bool)
    requires
        old(regs).inv(),
        operand < width_mod(!old(regs).psw.a_is_8_bit),
    ensures
        *final(regs) == (Regs {
            psw: Psw {
                zero: bit_masked(*old(regs), operand) == 0,
                negative: if immediate {
                    old(regs).psw.negative
                } else {
                    operand >= sign_threshold(!old(regs).psw.a_is_8_bit)
                },
                overflow: if immediate {
                    old(regs).psw.overflow
                } else {
                    bit6_of(operand, !old(regs).psw.a_is_8_bit)
                },
                ..old(regs).psw
            },
            ..*old(regs)
        }),
        final(regs).inv(),
{
    let w16: bool = !regs.psw.a_is_8_bit;
    let masked: u16 = if w16 {
        regs.a & operand
    } else {
        (((regs.a % 0x100) as u8) & (operand as u8)) as u16
    };
    regs.psw.zero = masked == 0;
    if !immediate {
        regs.psw.negative = if w16 {
            operand >= 0x8000
        } else {
            operand >= 0x80
        };
        regs.psw.overflow = if w16 {
            (operand / 0x4000) % 2 == 1
        } else {
            (operand / 0x40) % 2 == 1
        };
    }
}

/// The memory value with the accumulator's bits set, as TSB writes it back.
pub open spec fn tsb_val(r: Regs, value: u16) -> u16 {
    if !r.psw.a_is_8_bit {
        value | r.a
    } else {
        ((value as u8) | ((r.a % 0x100) as u8)) as u16
    }
}

/// TSB: test the operand against A into Z, then set A's bits in the
/// operand; returns the value to write back.
pub fn tsb(regs: &mut Regs, schedule: &mut Schedule, value: u16) -> (r: u16)
    requires
        old(schedule).wf(),
        old(schedule).cur_time + IO_CYCLE_MASTER_CYCLES <= u64::MAX,
        old(regs).inv(),
        value < width_mod(!old(regs).psw.a_is_8_bit),
    ensures
        *final(schedule) == (Schedule {
            cur_time: (old(schedule).cur_time + IO_CYCLE_MASTER_CYCLES) as u64,
            ..*old(schedule)
        }),
        final(schedule).wf(),
        r == tsb_val(*old(regs), value),
        *final(regs) == (Regs {
            psw: Psw { zero: bit_masked(*old(regs), value) == 0, ..old(regs).psw },
            ..*old(regs)
        }),
        final(regs).inv(),
{
    schedule.add_io_cycles(1);
    let w16: bool = !regs.psw.a_is_8_bit;
    if w16 {
        regs.psw.zero = (regs.a & value) == 0;
        value | regs.a
    } else {
        let a8v: u8 = (regs.a % 0x100) as u8;
        let v8: u8 = value as u8;
        regs.psw.zero = (a8v & v8) == 0;
        (v8 | a8v) as u16
    }
}

/// The memory value with the accumulator's bits cleared, as TRB writes it
/// back.
pub open spec fn trb_val(r: Regs, value: u16) -> u16 {
    if !r.psw.a_is_8_bit {
        value & !r.a
    } else {
        ((value as u8) & !((r.a % 0x100) as u8)) as u16
    }
}

/// TRB: test the operand against A into Z, then clear A's bits in the
/// operand; returns the value to write back.
pub fn trb(regs: &mut Regs, schedule: &mut Schedule, value: u16) -> (r: u16)
    requires
        old(schedule).wf(),
        old(schedule).cur_time + IO_CYCLE_MASTER_CYCLES <= u64::MAX,
        old(regs).inv(),
        value < width_mod(!old(regs).psw.a_is_8_bit),
    ensures
        *final(schedule) == (Schedule {
            cur_time: (old(schedule).cur_time + IO_CYCLE_MASTER_CYCLES) as u64,
            ..*old(schedule)
        }),
        final(schedule).wf(),
        r == trb_val(*old(regs), value),
        *final(regs) == (Regs {
            psw: Psw { zero: bit_masked(*old(regs), value) == 0, ..old(regs).psw },
            ..*old(regs)
        }),
        final(regs).inv(),
{
    schedule.add_io_cycles(1);
    let w16: bool = !regs.psw.a_is_8_bit;
    if w16 {
        regs.psw.zero = (regs.a & value) == 0;
        value & !regs.a
    } else {
        let a8v: u8 = (regs.a % 0x100) as u8;
        let v8: u8 = value as u8;
        regs.psw.zero = (a8v & v8) == 0;
        (v8 & !a8v) as u16
    }
}

/// INX: increment X at the index width.
pub fn inx(regs: &mut Regs, schedule: &mut Schedule)
    requires
        old(schedule).wf(),
        old(schedule).cur_time + IO_CYCLE_MASTER_CYCLES <= u64::MAX,
        old(regs).inv(),
    ensures
        *final(schedule) == (Schedule {
            cur_time: (old(schedule).cur_time + IO_CYCLE_MASTER_CYCLES) as u64,
            ..*old(schedule)
        }),
        final(schedule).wf(),
        *final(regs) == (Regs {
            x: inc_val(old(regs).x, !old(regs).psw.index_regs_are_8_bit) as u16,
            psw: nz_updated(
                old(regs).psw,
                inc_val(old(regs).x, !old(regs).psw.index_regs_are_8_bit),
                !old(regs).psw.index_regs_are_8_bit,
            ),
            ..*old(regs)
        }),
        final(regs).inv(),
{
    let w16: bool = !regs.psw.index_regs_are_8_bit;
    let r: u16 = do_inc(&mut regs.psw, schedule, regs.x, w16);
    regs.x = r;
}

/// INY: increment Y at the index width.
pub fn iny(regs: &mut Regs, schedule: &mut Schedule)
    requires
        old(schedule).wf(),
        old(schedule).cur_time + IO_CYCLE_MASTER_CYCLES <= u64::MAX,
        old(regs).inv(),
    ensures
        *final(schedule) == (Schedule {
            cur_time: (old(schedule).cur_time + IO_CYCLE_MASTER_CYCLES) as u64,
            ..*old(schedule)
        }),
        final(schedule).wf(),
        *final(regs) == (Regs {
            y: inc_val(old(regs).y, !old(regs).psw.index_regs_are_8_bit) as u16,
            psw: nz_updated(
                old(regs).psw,
                inc_val(old(regs).y, !old(regs).psw.index_regs_are_8_bit),
                !old(regs).psw.index_regs_are_8_bit,
            ),
            ..*old(regs)
        }),
        final(regs).inv(),
{
    let w16: bool = !regs.psw.index_regs_are_8_bit;
    let r: u16 = do_inc(&mut regs.psw, schedule, regs.y, w16);
    regs.y = r;
}

/// DEX: decrement X at the index width.
pub fn dex(regs: &mut Regs, schedule: &mut Schedule)
    requires
        old(schedule).wf(),
        old(schedule).cur_time + IO_CYCLE_MASTER_CYCLES <= u64::MAX,
        old(regs).inv(),
    ensures
        *final(schedule) == (Schedule {
            cur_time: (old(schedule).cur_time + IO_CYCLE_MASTER_CYCLES) as u64,
            ..*old(schedule)
        }),
        final(schedule).wf(),
        *final(regs) == (Regs {
            x: dec_val(old(regs).x, !old(regs).psw.index_regs_are_8_bit) as u16,
            psw: nz_updated(
                old(regs).psw,
                dec_val(old(regs).x, !old(regs).psw.index_regs_are_8_bit),
                !old(regs).psw.index_regs_are_8_bit,
            ),
            ..*old(regs)
        }),
        final(regs).inv(),
{
    let w16: bool = !regs.psw.index_regs_are_8_bit;
    let r: u16 = do_dec(&mut regs.psw, schedule, regs.x, w16);
    regs.x = r;
}

/// DEY: decrement Y at the index width.
pub fn dey(regs: &mut Regs, schedule: &mut Schedule)
    requires
        old(schedule).wf(),
        old(schedule).cur_time + IO_CYCLE_MASTER_CYCLES <= u64::MAX,
        old(regs).inv(),
    ensures
        *final(schedule) == (Schedule {
            cur_time: (old(schedule).cur_time + IO_CYCLE_MASTER_CYCLES) as u64,
            ..*old(schedule)
        }),
        final(schedule).wf(),
        *final(regs) == (Regs {
            y: dec_val(old(regs).y, !old(regs).psw.index_regs_are_8_bit) as u16,
            psw: nz_updated(
                old(regs).psw,
                dec_val(old(regs).y, !old(regs).psw.index_regs_are_8_bit),
                !old(regs).psw.index_regs_are_8_bit,
            ),
            ..*old(regs)
        }),
        final(regs).inv(),
{
    let w16: bool = !regs.psw.index_regs_are_8_bit;
    let r: u16 = do_dec(&mut regs.psw, schedule, regs.y, w16);
    regs.y = r;
}

/// The status word after REP: every flag whose bit is set in the mask is
/// cleared.
pub open spec fn rep_psw(p: Psw, mask: u8) -> Psw {
    Psw {
        carry: p.carry && !byte_bit(mask, 1),
        zero: p.zero && !byte_bit(mask, 2),
        irqs_disabled: p.irqs_disabled && !byte_bit(mask, 4),
        decimal_mode: p.decimal_mode && !byte_bit(mask, 8),
        index_regs_are_8_bit: p.index_regs_are_8_bit && !byte_bit(mask, 16),
        a_is_8_bit: p.a_is_8_bit && !byte_bit(mask, 32),
        overflow: p.overflow && !byte_bit(mask, 64),
        negative: p.negative && !byte_bit(mask, 128),
    }
}

/// REP: clear the flags selected by the operand mask (in emulation mode the
/// width flags stay set).
pub fn rep(regs: &mut Regs, mask: u8)
    requires
        old(regs).inv(),
    ensures
        *final(regs) == old(regs).apply_psw(rep_psw(old(regs).psw, mask)),
        final(regs).inv(),
{
    let p: Psw = regs.psw;
    let np = Psw {
        carry: p.carry && !((mask / 1) % 2 == 1),
        zero: p.zero && !((mask / 2) % 2 == 1),
        irqs_disabled: p.irqs_disabled && !((mask / 4) % 2 == 1),
        decimal_mode: p.decimal_mode && !((mask / 8) % 2 == 1),
        index_regs_are_8_bit: p.index_regs_are_8_bit && !((mask / 16) % 2 == 1),
        a_is_8_bit: p.a_is_8_bit && !((mask / 32) % 2 == 1),
        overflow: p.overflow && !((mask / 64) % 2 == 1),
        negative: p.negative && !((mask / 128) % 2 == 1),
    };
    regs.set_psw(np);
}

/// The status word after SEP: every flag whose bit is set in the mask is
/// set.
pub open spec fn sep_psw(p: Psw, mask: u8) -> Psw {
    Psw {
        carry: p.carry || byte_bit(mask, 1),
        zero: p.zero || byte_bit(mask, 2),
        irqs_disabled: p.irqs_disabled || byte_bit(mask, 4),
        decimal_mode: p.decimal_mode || byte_bit(mask, 8),
        index_regs_are_8_bit: p.index_regs_are_8_bit || byte_bit(mask, 16),
        a_is_8_bit: p.a_is_8_bit || byte_bit(mask, 32),
        overflow: p.overflow || byte_bit(mask, 64),
        negative: p.negative || byte_bit(mask, 128),
    }
}

/// SEP: set the flags selected by the operand mask; setting the index-width
/// flag immediately masks X and Y.
pub fn sep(regs: &mut Regs, mask: u8)
    requires
        old(regs).inv(),
    ensures
        *final(regs) == old(regs).apply_psw(sep_psw(old(regs).psw, mask)),
        final(regs).inv(),
{
    let p: Psw = regs.psw;
    let np = Psw {
        carry: p.carry || (mask / 1) % 2 == 1,
        zero: p.zero || (mask / 2) % 2 == 1,
        irqs_disabled: p.irqs_disabled || (mask / 4) % 2 == 1,
        decimal_mode: p.decimal_mode || (mask / 8) % 2 == 1,
        index_regs_are_8_bit: p.index_regs_are_8_bit || (mask / 16) % 2 == 1,
        a_is_8_bit: p.a_is_8_bit || (mask / 32) % 2 == 1,
        overflow: p.overflow || (mask / 64) % 2 == 1,
        negative: p.negative || (mask / 128) % 2 == 1,
    };
    regs.set_psw(np);
}

/// TAX: copy A to X at the index width, N and Z from the copied value.
pub fn tax(regs: &mut Regs)
    requires
        old(regs).inv(),
    ensures
        *final(regs) == (Regs {
            x: a_read(old(regs).a, !old(regs).psw.index_regs_are_8_bit),
            psw: nz_updated(
                old(regs).psw,
                a_read(old(regs).a, !old(regs).psw.index_regs_are_8_bit) as int,
                !old(regs).psw.index_regs_are_8_bit,
            ),
            ..*old(regs)
        }),
        final(regs).inv(),
{
    let w16: bool = !regs.psw.index_regs_are_8_bit;
    let v: u16 = if w16 {
        regs.a
    } else {
        regs.a % 0x100
    };
    regs.x = v;
    set_nz(&mut regs.psw, v, w16);
}

/// TAY: copy A to Y at the index width, N and Z from the copied value.
pub fn tay(regs: &mut Regs)
    requires
        old(regs).inv(),
    ensures
        *final(regs) == (Regs {
            y: a_read(old(regs).a, !old(regs).psw.index_regs_are_8_bit),
            psw: nz_updated(
                old(regs).psw,
                a_read(old(regs).a, !old(regs).psw.index_regs_are_8_bit) as int,
                !old(regs).psw.index_regs_are_8_bit,
            ),
            ..*old(regs)
        }),
        final(regs).inv(),
{
    let w16: bool = !regs.psw.index_regs_are_8_bit;
    let v: u16 = if w16 {
        regs.a
    } else {
        regs.a % 0x100
    };
    regs.y = v;
    set_nz(&mut regs.psw, v, w16);
}

/// TXA: copy X to A at the accumulator width, N and Z from the copy.
pub fn txa(regs: &mut Regs)
    requires
        old(regs).inv(),
    ensures
        *final(regs) == a_rmw_regs(
            *old(regs),
            a_read(old(regs).x, !old(regs).psw.a_is_8_bit) as int,
        ),
        final(regs).inv(),
{
    let w16: bool = !regs.psw.a_is_8_bit;
    let v: u16 = if w16 {
        regs.x
    } else {
        regs.x % 0x100
    };
    if w16 {
        regs.a = v;
    } else {
        proof {
            lemma_mod_le(regs.a, 0x100);
        }
        regs.a = regs.a - regs.a % 0x100 + v;
    }
    set_nz(&mut regs.psw, v, w16);
}

/// TYA: copy Y to A at the accumulator width, N and Z from the copy.
pub fn tya(regs: &mut Regs)
    requires
        old(regs).inv(),
    ensures
        *final(regs) == a_rmw_regs(
            *old(regs),
            a_read(old(regs).y, !old(regs).psw.a_is_8_bit) as int,
        ),
        final(regs).inv(),
{
    let w16: bool = !regs.psw.a_is_8_bit;
    let v: u16 = if w16 {
        regs.y
    } else {
        regs.y % 0x100
    };
    if w16 {
        regs.a = v;
    } else {
        proof {
            lemma_mod_le(regs.a, 0x100);
        }
        regs.a = regs.a - regs.a % 0x100 + v;
    }
    set_nz(&mut regs.psw, v, w16);
}

/// TSX: copy SP to X at the index width, N and Z from the copy.
pub fn tsx(regs: &mut Regs)
    requires
        old(regs).inv(),
    ensures
        *final(regs) == (Regs {
            x: a_read(old(regs).sp, !old(regs).psw.index_regs_are_8_bit),
            psw: nz_updated(
                old(regs).psw,
                a_read(old(regs).sp, !old(regs).psw.index_regs_are_8_bit) as int,
                !old(regs).psw.index_regs_are_8_bit,
            ),
            ..*old(regs)
        }),
        final(regs).inv(),
{
    let w16: bool = !regs.psw.index_regs_are_8_bit;
    let v: u16 = if w16 {
        regs.sp
    } else {
        regs.sp % 0x100
    };
    regs.x = v;
    set_nz(&mut regs.psw, v, w16);
}

/// TXS: copy X to SP; no flags. In emulation mode only the low byte of SP
/// moves, keeping the stack in page 1.
pub fn txs(regs: &mut Regs)
    requires
        old(regs).inv(),
    ensures
        *final(regs) == (Regs {
            sp: if old(regs).emulation_mode {
                (0x100 + old(regs).x % 0x100) as u16
            } else {
                old(regs).x
            },
            ..*old(regs)
        }),
        final(regs).inv(),
{
    if regs.emulation_mode {
        regs.sp = 0x100 + regs.x % 0x100;
    } else {
        regs.sp = regs.x;
    }
}

/// TXY: copy X to Y at the index width, N and Z from the copy.
pub fn txy(regs: &mut Regs)
    requires
        old(regs).inv(),
    ensures
        *final(regs) == (Regs {
            y: a_read(old(regs).x, !old(regs).psw.index_regs_are_8_bit),
            psw: nz_updated(
                old(regs).psw,
                a_read(old(regs).x, !old(regs).psw.index_regs_are_8_bit) as int,
                !old(regs).psw.index_regs_are_8_bit,
            ),
            ..*old(regs)
        }),
        final(regs).inv(),
{
    let w16: bool = !regs.psw.index_regs_are_8_bit;
    let v: u16 = if w16 {
        regs.x
    } else {
        regs.x % 0x100
    };
    regs.y = v;
    set_nz(&mut regs.psw, v, w16);
}

/// TYX: copy Y to X at the index width, N and Z from the copy.
pub fn tyx(regs: &mut Regs)
    requires
        old(regs).inv(),
    ensures
        *final(regs) == (Regs {
            x: a_read(old(regs).y, !old(regs).psw.index_regs_are_8_bit),
            psw: nz_updated(
                old(regs).psw,
                a_read(old(regs).y, !old(regs).psw.index_regs_are_8_bit) as int,
                !old(regs).psw.index_regs_are_8_bit,
            ),
            ..*old(regs)
        }),
        final(regs).inv(),
{
    let w16: bool = !regs.psw.index_regs_are_8_bit;
    let v: u16 = if w16 {
        regs.y
    } else {
        regs.y % 0x100
    };
    regs.x = v;
    set_nz(&mut regs.psw, v, w16);
}

/// TCD: copy the full 16-bit A to the direct-page offset, whatever the
/// width flags say; N and Z from the 16-bit value.
pub fn tcd(regs: &mut Regs)
    requires
        old(regs).inv(),
    ensures
        *final(regs) == (Regs {
            direct_page_offset: old(regs).a,
            psw: nz_updated(old(regs).psw, old(regs).a as int, true),
            ..*old(regs)
        }),
        final(regs).inv(),
{
    regs.direct_page_offset = regs.a;
    let v: u16 = regs.a;
    set_nz(&mut regs.psw, v, true);
}

/// TDC: copy the direct-page offset to the full 16-bit A; N and Z from
/// the 16-bit value.
pub fn tdc(regs: &mut Regs)
    requires
        old(regs).inv(),
    ensures
        *final(regs) == (Regs {
            a: old(regs).direct_page_offset,
            psw: nz_updated(old(regs).psw, old(regs).direct_page_offset as int, true),
            ..*old(regs)
        }),
        final(regs).inv(),
{
    regs.a = regs.direct_page_offset;
    let v: u16 = regs.a;
    set_nz(&mut regs.psw, v, true);
}

/// TCS: copy the full 16-bit A to SP; no flags. In emulation mode only
/// the low byte moves, keeping the stack in page 1.
pub fn tcs(regs: &mut Regs)
    requires
        old(regs).inv(),
    ensures
        *final(regs) == (Regs {
            sp: if old(regs).emulation_mode {
                (0x100 + old(regs).a % 0x100) as u16
            } else {
                old(regs).a
            },
            ..*old(regs)
        }),
        final(regs).inv(),
{
    if regs.emulation_mode {
        regs.sp = 0x100 + regs.a % 0x100;
    } else {
        regs.sp = regs.a;
    }
}

/// TSC: copy SP to the full 16-bit A; N and Z from the 16-bit value.
pub fn tsc(regs: &mut Regs)
    requires
        old(regs).inv(),
    ensures
        *final(regs) == (Regs {
            a: old(regs).sp,
            psw: nz_updated(old(regs).psw, old(regs).sp as int, true),
            ..*old(regs)
        }),
        final(regs).inv(),
{
    regs.a = regs.sp;
    let v: u16 = regs.a;
    set_nz(&mut regs.psw, v, true);
}

/// The accumulator with its two bytes exchanged.
pub open spec fn xba_val(a: u16) -> int {
    (a % 0x100) * 0x100 + a / 0x100
}

/// XBA: exchange the two bytes of A; N and Z follow the new low byte
/// (the old high byte), at 8 bits, whatever the width flags say.
pub fn xba(regs: &mut Regs)
    requires
        old(regs).inv(),
    ensures
        *final(regs) == (Regs {
            a: xba_val(old(regs).a) as u16,
            psw: nz_updated(old(regs).psw, old(regs).a as int / 0x100, false),
            ..*old(regs)
        }),
        final(regs).inv(),
{
    let lo: u16 = regs.a % 0x100;
    let hi: u16 = regs.a / 0x100;
    regs.a = lo * 0x100 + hi;
    set_nz(&mut regs.psw, hi, false);
}

/// Rotating a width-masked value left and then right through the carry is
/// the identity: the value and the carry are both restored, and the N and Z
/// flags set by the second rotate are those of the restored value.
pub proof fn lemma_rol_then_ror_identity(src: u16, c: bool, w16: bool)
    requires
        src < width_mod(w16),
    ensures
        ror_val((rol_val(src, c, w16)) as u16, rol_carry(src, w16), w16) == src,
        ror_carry((rol_val(src, c, w16)) as u16) == c,
{
    let m = width_mod(w16);
    let half = sign_threshold(w16);
    let cin = if c {
        1int
    } else {
        0int
    };
    if src < half {
        lemma_small_mod((2 * src + cin) as nat, m as nat);
        assert(rol_val(src, c, w16) == 2 * src + cin);
    } else {
        lemma_mod_multiples_vanish(1, 2 * src + cin - m, m);
        lemma_small_mod((2 * src + cin - m) as nat, m as nat);
        assert(rol_val(src, c, w16) == 2 * src + cin - m);
    }
}

} // verus!
