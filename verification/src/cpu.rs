//! CPU-side state and the stack and exception-entry sequences of the
//! 65C816 interpreter.

use vstd::prelude::*;
use vstd::pervasive::VecAdditionalExecFns;
use vstd::arithmetic::div_mod::lemma_fundamental_div_mod;
use crate::alu::{a_read, nz_updated, set_nz, sign_threshold, lemma_mod_le};
use crate::irqs::Irqs;
use crate::psw::Psw;
use crate::regs::Regs;
use crate::schedule::Schedule;

verus! {

/// The CPU: its register file and its interrupt unit.
#[derive(Clone, Copy, Debug)]
pub struct Cpu {
    pub regs: Regs,
    pub irqs: Irqs,
}

impl Cpu {
    pub open spec fn inv(self) -> bool {
        self.regs.inv() && self.irqs.inv()
    }

    pub fn new() -> (r: Cpu)
        ensures
            r.regs == Regs::initial(),
            r.irqs == Irqs::initial(),
            r.inv(),
    {
        Cpu { regs: Regs::new(), irqs: Irqs::new() }
    }
}

/// The stack pointer after a push: decremented, wrapping within page 1 in
/// emulation mode and within the full 16 bits in native mode.
pub open spec fn sp_dec(sp: u16, em: bool) -> u16 {
    if em {
        if sp % 0x100 == 0 {
            (0x100 + 0xFF) as u16
        } else {
            (0x100 + (sp % 0x100 - 1)) as u16
        }
    } else {
        if sp == 0 {
            0xFFFFu16
        } else {
            (sp - 1) as u16
        }
    }
}

/// The stack pointer after a pull: incremented, wrapping within page 1 in
/// emulation mode and within the full 16 bits in native mode.
pub open spec fn sp_inc(sp: u16, em: bool) -> u16 {
    if em {
        if sp % 0x100 == 0xFF {
            0x100u16
        } else {
            (0x100 + (sp % 0x100 + 1)) as u16
        }
    } else {
        if sp == 0xFFFF {
            0u16
        } else {
            (sp + 1) as u16
        }
    }
}

/// Pushing then pulling returns the stack pointer to where it was, and a
/// push never writes at the slot the pointer rests on afterwards.
pub proof fn lemma_sp_push_pull(sp: u16, em: bool)
    requires
        em ==> 0x100 <= sp <= 0x1FF,
    ensures
        sp_inc(sp_dec(sp, em), em) == sp,
        sp_dec(sp, em) != sp,
        em ==> 0x100 <= sp_dec(sp, em) <= 0x1FF,
{
}

/// State after a byte is pushed: the byte lands at the slot the stack
/// pointer rested on, and the pointer steps down.
pub open spec fn push8_spec(r: Regs, w: Seq<u8>, value: u8) -> (Regs, Seq<u8>) {
    (Regs { sp: sp_dec(r.sp, r.emulation_mode), ..r }, w.update(r.sp as int, value))
}

/// Pushes one byte onto the stack in bank 0 work RAM.
pub fn push8(regs: &mut Regs, wram: &mut Vec<u8>, value: u8)
    requires
        old(regs).inv(),
        old(wram).len() == 0x10000,
    ensures
        *final(regs) == push8_spec(*old(regs), old(wram)@, value).0,
        final(wram)@ == push8_spec(*old(regs), old(wram)@, value).1,
        final(regs).inv(),
        final(wram).len() == 0x10000,
{
    wram.set(regs.sp as usize, value);
    if regs.emulation_mode {
        let low: u16 = regs.sp % 0x100;
        regs.sp = 0x100 + (if low == 0 {
            0xFF
        } else {
            low - 1
        });
    } else {
        regs.sp = if regs.sp == 0 {
            0xFFFF
        } else {
            regs.sp - 1
        };
    }
}

/// State after a 16-bit value is pushed: high byte first, then low byte,
/// so the low byte ends up at the lower address.
pub open spec fn push16_spec(r: Regs, w: Seq<u8>, value: u16) -> (Regs, Seq<u8>) {
    let first = push8_spec(r, w, (value / 0x100) as u8);
    push8_spec(first.0, first.1, (value % 0x100) as u8)
}

/// Pushes a 16-bit value onto the stack, high byte first.
pub fn push16(regs: &mut Regs, wram: &mut Vec<u8>, value: u16)
    requires
        old(regs).inv(),
        old(wram).len() == 0x10000,
    ensures
        *final(regs) == push16_spec(*old(regs), old(wram)@, value).0,
        final(wram)@ == push16_spec(*old(regs), old(wram)@, value).1,
        final(regs).inv(),
        final(wram).len() == 0x10000,
{
    push8(regs, wram, (value / 0x100) as u8);
    push8(regs, wram, (value % 0x100) as u8);
}

/// State after a byte is pulled: the pointer steps up first, then the byte
/// at the slot it reaches is read.
pub open spec fn pull8_spec(r: Regs, w: Seq<u8>) -> (Regs, u8) {
    (
        Regs { sp: sp_inc(r.sp, r.emulation_mode), ..r },
        w[sp_inc(r.sp, r.emulation_mode) as int],
    )
}

/// Pulls one byte from the stack in bank 0 work RAM.
pub fn pull8(regs: &mut Regs, wram: &Vec<u8>) -> (r: u8)
    requires
        old(regs).inv(),
        wram.len() == 0x10000,
    ensures
        *final(regs) == pull8_spec(*old(regs), wram@).0,
        r == pull8_spec(*old(regs), wram@).1,
        final(regs).inv(),
{
    if regs.emulation_mode {
        let low: u16 = regs.sp % 0x100;
        regs.sp = if low == 0xFF {
            0x100
        } else {
            0x100 + low + 1
        };
    } else {
        regs.sp = if regs.sp == 0xFFFF {
            0
        } else {
            regs.sp + 1
        };
    }
    wram[regs.sp as usize]
}

/// State after a 16-bit value is pulled: low byte first, then high byte.
pub open spec fn pull16_spec(r: Regs, w: Seq<u8>) -> (Regs, u16) {
    let first = pull8_spec(r, w);
    let second = pull8_spec(first.0, w);
    (second.0, (second.1 * 0x100 + first.1) as u16)
}

/// Pulls a 16-bit value from the stack, low byte first.
pub fn pull16(regs: &mut Regs, wram: &Vec<u8>) -> (r: u16)
    requires
        old(regs).inv(),
        wram.len() == 0x10000,
    ensures
        *final(regs) == pull16_spec(*old(regs), wram@).0,
        r == pull16_spec(*old(regs), wram@).1,
        final(regs).inv(),
{
    let lo: u8 = pull8(regs, wram);
    let hi: u8 = pull8(regs, wram);
    hi as u16 * 0x100 + lo as u16
}

/// State after PHA: the accumulator is pushed at the accumulator width.
pub open spec fn pha_spec(r: Regs, w: Seq<u8>) -> (Regs, Seq<u8>) {
    if r.psw.a_is_8_bit {
        push8_spec(r, w, (r.a % 0x100) as u8)
    } else {
        push16_spec(r, w, r.a)
    }
}

/// PHA: push the accumulator at the accumulator width. No flag changes.
pub fn pha(regs: &mut Regs, wram: &mut Vec<u8>)
    requires
        old(regs).inv(),
        old(wram).len() == 0x10000,
    ensures
        *final(regs) == pha_spec(*old(regs), old(wram)@).0,
        final(wram)@ == pha_spec(*old(regs), old(wram)@).1,
        final(regs).inv(),
        final(wram).len() == 0x10000,
{
    if regs.psw.a_is_8_bit {
        let v: u8 = (regs.a % 0x100) as u8;
        push8(regs, wram, v);
    } else {
        let v: u16 = regs.a;
        push16(regs, wram, v);
    }
}

/// State after PLA: the pulled value lands in the accumulator at the
/// accumulator width, and N and Z follow it.
pub open spec fn pla_spec(r: Regs, w: Seq<u8>) -> Regs {
    if r.psw.a_is_8_bit {
        let pulled = pull8_spec(r, w);
        Regs {
            a: (pulled.0.a - pulled.0.a % 0x100 + pulled.1) as u16,
            psw: nz_updated(pulled.0.psw, pulled.1 as int, false),
            ..pulled.0
        }
    } else {
        let pulled = pull16_spec(r, w);
        Regs { a: pulled.1, psw: nz_updated(pulled.0.psw, pulled.1 as int, true), ..pulled.0 }
    }
}

/// PLA: pull the accumulator at the accumulator width, setting N and Z
/// from the pulled value.
pub fn pla(regs: &mut Regs, wram: &Vec<u8>)
    requires
        old(regs).inv(),
        wram.len() == 0x10000,
    ensures
        *final(regs) == pla_spec(*old(regs), wram@),
        final(regs).inv(),
{
    if regs.psw.a_is_8_bit {
        let v: u8 = pull8(regs, wram);
        proof {
            lemma_mod_le(regs.a, 0x100);
        }
        regs.a = regs.a - regs.a % 0x100 + v as u16;
        set_nz(&mut regs.psw, v as u16, false);
    } else {
        let v: u16 = pull16(regs, wram);
        regs.a = v;
        set_nz(&mut regs.psw, v, true);
    }
}

/// PHP: push the packed status word. No flag changes.
pub fn php(regs: &mut Regs, wram: &mut Vec<u8>)
    requires
        old(regs).inv(),
        old(wram).len() == 0x10000,
    ensures
        *final(regs) == push8_spec(*old(regs), old(wram)@, old(regs).psw.spec_to_byte()).0,
        final(wram)@ == push8_spec(*old(regs), old(wram)@, old(regs).psw.spec_to_byte()).1,
        final(regs).inv(),
        final(wram).len() == 0x10000,
{
    let b: u8 = regs.psw.to_byte();
    push8(regs, wram, b);
}

/// State after PLP: the pulled byte is unpacked and installed as the
/// status word (with the width forcing and index masking of `set_psw`).
pub open spec fn plp_spec(r: Regs, w: Seq<u8>) -> Regs {
    let pulled = pull8_spec(r, w);
    pulled.0.apply_psw(Psw::spec_from_byte(pulled.1))
}

/// PLP: pull the packed status word and install it.
pub fn plp(regs: &mut Regs, wram: &Vec<u8>)
    requires
        old(regs).inv(),
        wram.len() == 0x10000,
    ensures
        *final(regs) == plp_spec(*old(regs), wram@),
        final(regs).inv(),
{
    let b: u8 = pull8(regs, wram);
    let p: Psw = Psw::from_byte(b);
    regs.set_psw(p);
}

/// State after the native-mode exception-entry sequence: the code bank,
/// the program counter and the packed status word are pushed, the decimal
/// flag is cleared and the IRQ-disable flag set, and execution continues
/// at the vector in bank 0.
pub open spec fn exception_entry_spec(r: Regs, w: Seq<u8>, vector: u16) -> (Regs, Seq<u8>) {
    let s1 = push8_spec(r, w, r.code_bank);
    let s2 = push16_spec(s1.0, s1.1, r.pc);
    let s3 = push8_spec(s2.0, s2.1, r.psw.spec_to_byte());
    (
        Regs {
            pc: vector,
            code_bank: 0,
            psw: Psw { decimal_mode: false, irqs_disabled: true, ..s3.0.psw },
            ..s3.0
        },
        s3.1,
    )
}

/// The native-mode exception-entry sequence shared by NMI and IRQ.
fn enter_exception(regs: &mut Regs, wram: &mut Vec<u8>, vector: u16)
    requires
        old(regs).inv(),
        old(wram).len() == 0x10000,
        !old(regs).emulation_mode,
    ensures
        *final(regs) == exception_entry_spec(*old(regs), old(wram)@, vector).0,
        final(wram)@ == exception_entry_spec(*old(regs), old(wram)@, vector).1,
        final(regs).inv(),
        final(wram).len() == 0x10000,
{
    let pb: u8 = regs.code_bank;
    push8(regs, wram, pb);
    let pc: u16 = regs.pc;
    push16(regs, wram, pc);
    let pbyte: u8 = regs.psw.to_byte();
    push8(regs, wram, pbyte);
    regs.psw.decimal_mode = false;
    regs.psw.irqs_disabled = true;
    regs.code_bank = 0;
    regs.pc = vector;
}

/// What the instruction boundary does with the pending exception lines: an
/// NMI vectors first (and is acknowledged), else an enabled timer IRQ
/// vectors; either entry also drops the mirrored IRQ enable, as the
/// just-set IRQ-disable flag demands.
pub open spec fn boundary_spec(cpu: Cpu, w: Seq<u8>, nmi_vector: u16, irq_vector: u16) -> (
    Cpu,
    Seq<u8>,
    bool,
) {
    if cpu.irqs.processing_nmi {
        let entered = exception_entry_spec(cpu.regs, w, nmi_vector);
        (
            Cpu {
                regs: entered.0,
                irqs: Irqs {
                    processing_nmi: false,
                    irqs_enabled: false,
                    processing_irq: false,
                    ..cpu.irqs
                },
            },
            entered.1,
            true,
        )
    } else if cpu.irqs.processing_irq {
        let entered = exception_entry_spec(cpu.regs, w, irq_vector);
        (
            Cpu {
                regs: entered.0,
                irqs: Irqs { irqs_enabled: false, processing_irq: false, ..cpu.irqs },
            },
            entered.1,
            true,
        )
    } else {
        (cpu, w, false)
    }
}

/// Takes a pending exception at an instruction boundary, if any: NMI
/// first (non-maskable), else an enabled timer IRQ. Returns whether one
/// was taken. The scheduler is only consulted to keep the mirrored IRQ
/// enable in step; it is left unchanged.
pub fn process_pending_exceptions(
    cpu: &mut Cpu,
    wram: &mut Vec<u8>,
    schedule: &mut Schedule,
    nmi_vector: u16,
    irq_vector: u16,
) -> (taken: bool)
    requires
        old(cpu).inv(),
        old(wram).len() == 0x10000,
        old(schedule).wf(),
        !old(cpu).regs.emulation_mode,
    ensures
        *final(cpu) == boundary_spec(*old(cpu), old(wram)@, nmi_vector, irq_vector).0,
        final(wram)@ == boundary_spec(*old(cpu), old(wram)@, nmi_vector, irq_vector).1,
        taken == boundary_spec(*old(cpu), old(wram)@, nmi_vector, irq_vector).2,
        final(cpu).inv(),
        final(wram).len() == 0x10000,
        *final(schedule) == *old(schedule),
        final(schedule).wf(),
{
    if cpu.irqs.processing_nmi() {
        enter_exception(&mut cpu.regs, wram, nmi_vector);
        cpu.irqs.acknowledge_nmi();
        cpu.irqs.set_irqs_enabled(false, schedule);
        true
    } else if cpu.irqs.processing_irq() {
        enter_exception(&mut cpu.regs, wram, irq_vector);
        cpu.irqs.set_irqs_enabled(false, schedule);
        true
    } else {
        false
    }
}

/// After `request_nmi`, the next instruction boundary vectors to the NMI
/// handler: PC is loaded with the NMI vector in bank 0, and the NMI latch
/// is cleared by the acknowledgement.
pub proof fn lemma_nmi_vectored_at_next_boundary(
    cpu: Cpu,
    w: Seq<u8>,
    nmi_vector: u16,
    irq_vector: u16,
)
    requires
        cpu.inv(),
        !cpu.regs.emulation_mode,
    ensures
        ({
            let cpu1 = Cpu { irqs: cpu.irqs.nmi_requested(), ..cpu };
            let after = boundary_spec(cpu1, w, nmi_vector, irq_vector);
            after.2 && after.0.regs.pc == nmi_vector && after.0.regs.code_bank == 0
                && !after.0.irqs.processing_nmi && !after.0.irqs.waiting_for_exception
        }),
{
}

/// PHA then PLA restores the accumulator, the stack pointer and every flag
/// except N and Z, which afterwards reflect the (width-masked) accumulator
/// value itself, at either accumulator width.
pub proof fn lemma_pha_pla_round_trip(r: Regs, w: Seq<u8>)
    requires
        r.inv(),
        w.len() == 0x10000,
    ensures
        ({
            let pushed = pha_spec(r, w);
            let r2 = pla_spec(pushed.0, pushed.1);
            &&& r2.a == r.a
            &&& r2.sp == r.sp
            &&& r2.pc == r.pc
            &&& r2.x == r.x
            &&& r2.y == r.y
            &&& r2.direct_page_offset == r.direct_page_offset
            &&& r2.emulation_mode == r.emulation_mode
            &&& r2.code_bank == r.code_bank
            &&& r2.data_bank == r.data_bank
            &&& r2.psw.carry == r.psw.carry
            &&& r2.psw.overflow == r.psw.overflow
            &&& r2.psw.irqs_disabled == r.psw.irqs_disabled
            &&& r2.psw.decimal_mode == r.psw.decimal_mode
            &&& r2.psw.index_regs_are_8_bit == r.psw.index_regs_are_8_bit
            &&& r2.psw.a_is_8_bit == r.psw.a_is_8_bit
            &&& r2.psw.zero == (a_read(r.a, !r.psw.a_is_8_bit) == 0)
            &&& r2.psw.negative == (a_read(r.a, !r.psw.a_is_8_bit) >= sign_threshold(
                !r.psw.a_is_8_bit,
            ))
        }),
{
    let em = r.emulation_mode;
    lemma_sp_push_pull(r.sp, em);
    if r.psw.a_is_8_bit {
        let pushed = pha_spec(r, w);
        assert(pushed.1[r.sp as int] == (r.a % 0x100) as u8);
        assert(pla_spec(pushed.0, pushed.1).a == r.a);
    } else {
        let sp1 = sp_dec(r.sp, em);
        lemma_sp_push_pull(sp1, em);
        let hi = (r.a / 0x100) as u8;
        let lo = (r.a % 0x100) as u8;
        let pushed = pha_spec(r, w);
        assert(pushed.1[sp1 as int] == lo);
        assert(pushed.1[r.sp as int] == hi);
        lemma_fundamental_div_mod(r.a as int, 0x100);
        assert(hi as int * 0x100 + lo as int == r.a as int);
    }
}

} // verus!
