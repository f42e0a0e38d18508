//! The 65C816 register file, with its width invariants.

use vstd::prelude::*;
use crate::psw::Psw;

verus! {

/// The 65C816 register file.
///
/// `a` is the 16-bit accumulator (only its low byte is addressed while
/// `psw.a_is_8_bit` is set), `x`/`y` the index registers, `sp` the stack
/// pointer, `pc` the program counter within the code bank,
/// `direct_page_offset` the base of the direct page, and `code_bank` /
/// `data_bank` the two bank bytes of the 24-bit address space.
#[derive(Clone, Copy, Debug, PartialEq, Eq, Structural)]
pub struct Regs {
    pub a: u16,
    pub x: u16,
    pub y: u16,
    pub sp: u16,
    pub pc: u16,
    pub direct_page_offset: u16,
    pub psw: Psw,
    pub emulation_mode: bool,
    pub code_bank: u8,
    pub data_bank: u8,
}

impl Regs {
    /// Well-formedness of the register file, preserved by every operation:
    /// while the index registers are 8 bits wide their upper bytes are zero,
    /// and in 6502 emulation mode the stack pointer stays in page 1 and both
    /// width flags read as set.
    pub open spec fn inv(self) -> bool {
        &&& (self.psw.index_regs_are_8_bit ==> self.x < 0x100 && self.y < 0x100)
        &&& (self.emulation_mode ==> 0x100 <= self.sp <= 0x1FF && self.psw.index_regs_are_8_bit
            && self.psw.a_is_8_bit)
    }

    /// The register file after power-on, before the reset vector is loaded.
    pub fn new() -> (r: Regs)
        ensures
            r == Regs::initial(),
            r.inv(),
    {
        Regs {
            a: 0,
            x: 0,
            y: 0,
            sp: 0x1FC,
            pc: 0,
            direct_page_offset: 0,
            psw: Psw::new(),
            emulation_mode: false,
            code_bank: 0,
            data_bank: 0,
        }
    }

    pub open spec fn initial() -> Regs {
        Regs {
            a: 0,
            x: 0,
            y: 0,
            sp: 0x1FC,
            pc: 0,
            direct_page_offset: 0,
            psw: Psw::all_clear(),
            emulation_mode: false,
            code_bank: 0,
            data_bank: 0,
        }
    }

    pub fn psw(&self) -> (r: Psw)
        ensures
            r == self.psw,
    {
        self.psw
    }

    /// The status word that `set_psw` actually installs: in emulation mode
    /// the two width flags read as set whatever was written.
    pub open spec fn forced_psw(self, value: Psw) -> Psw {
        Psw {
            index_regs_are_8_bit: value.index_regs_are_8_bit || self.emulation_mode,
            a_is_8_bit: value.a_is_8_bit || self.emulation_mode,
            ..value
        }
    }

    /// The register file after `set_psw`: the (possibly width-forced)
    /// status word is installed, and X and Y are masked to 8 bits when the
    /// installed word has the index-width flag set.
    pub open spec fn apply_psw(self, value: Psw) -> Regs {
        let p = self.forced_psw(value);
        Regs {
            psw: p,
            x: if p.index_regs_are_8_bit {
                (self.x % 0x100) as u16
            } else {
                self.x
            },
            y: if p.index_regs_are_8_bit {
                (self.y % 0x100) as u16
            } else {
                self.y
            },
            ..self
        }
    }

    /// Replaces the status word. Setting the index-width flag immediately
    /// masks X and Y to 8 bits; in emulation mode the width flags cannot be
    /// cleared.
    pub fn set_psw(&mut self, value: Psw)
        requires
            old(self).inv(),
        ensures
            *final(self) == old(self).apply_psw(value),
            final(self).psw == old(self).forced_psw(value),
            final(self).x == if old(self).forced_psw(value).index_regs_are_8_bit {
                old(self).x % 0x100
            } else {
                old(self).x
            },
            final(self).y == if old(self).forced_psw(value).index_regs_are_8_bit {
                old(self).y % 0x100
            } else {
                old(self).y
            },
            final(self).a == old(self).a,
            final(self).sp == old(self).sp,
            final(self).pc == old(self).pc,
            final(self).direct_page_offset == old(self).direct_page_offset,
            final(self).emulation_mode == old(self).emulation_mode,
            final(self).code_bank == old(self).code_bank,
            final(self).data_bank == old(self).data_bank,
            final(self).inv(),
    {
        let mut v = value;
        if self.emulation_mode {
            v.index_regs_are_8_bit = true;
            v.a_is_8_bit = true;
        }
        self.psw = v;
        if self.psw.index_regs_are_8_bit {
            self.x = self.x % 0x100;
            self.y = self.y % 0x100;
        }
    }

    pub fn emulation_mode(&self) -> (r: bool)
        ensures
            r == self.emulation_mode,
    {
        self.emulation_mode
    }

    /// Switches the 6502 emulation-mode bit. Entering emulation mode forces
    /// the stack pointer into page 1, sets both width flags and masks the
    /// index registers, as the hardware does. Entry into emulation mode
    /// outside reset is unimplemented and excluded by the precondition; a
    /// caller must test for it and report it.
    pub fn set_emulation_mode<const RESET: bool>(&mut self, value: bool)
        requires
            old(self).inv(),
            RESET || !value || old(self).emulation_mode,
        ensures
            final(self).emulation_mode == value,
            value ==> final(self).sp == 0x100 + old(self).sp % 0x100 && final(self).psw == (Psw {
                index_regs_are_8_bit: true,
                a_is_8_bit: true,
                ..old(self).psw
            }) && final(self).x == old(self).x % 0x100 && final(self).y == old(self).y % 0x100,
            !value ==> final(self).sp == old(self).sp && final(self).psw == old(self).psw
                && final(self).x == old(self).x && final(self).y == old(self).y,
            final(self).a == old(self).a,
            final(self).pc == old(self).pc,
            final(self).direct_page_offset == old(self).direct_page_offset,
            final(self).code_bank == old(self).code_bank,
            final(self).data_bank == old(self).data_bank,
            final(self).inv(),
    {
        if value {
            self.sp = 0x100 + self.sp % 0x100;
            self.psw.index_regs_are_8_bit = true;
            self.psw.a_is_8_bit = true;
            self.x = self.x % 0x100;
            self.y = self.y % 0x100;
        }
        self.emulation_mode = value;
    }

    pub fn code_bank(&self) -> (r: u8)
        ensures
            r == self.code_bank,
    {
        self.code_bank
    }

    pub fn set_code_bank(&mut self, value: u8)
        ensures
            *final(self) == (Regs { code_bank: value, ..*old(self) }),
    {
        self.code_bank = value;
    }

    pub fn data_bank(&self) -> (r: u8)
        ensures
            r == self.data_bank,
    {
        self.data_bank
    }

    pub fn set_data_bank(&mut self, value: u8)
        ensures
            *final(self) == (Regs { data_bank: value, ..*old(self) }),
    {
        self.data_bank = value;
    }

    /// The register file after XCE on the inputs where XCE is implemented:
    /// the carry flag and the emulation-mode bit exchange places.
    pub open spec fn xce_spec(self) -> Regs {
        Regs {
            psw: Psw { carry: self.emulation_mode, ..self.psw },
            emulation_mode: self.psw.carry,
            ..self
        }
    }

    /// XCE: exchange the carry flag with the emulation-mode bit. Entering
    /// emulation mode from native mode is unimplemented and excluded by the
    /// precondition; a caller must test for it and report it.
    pub fn xce(&mut self)
        requires
            old(self).inv(),
            !(old(self).psw.carry && !old(self).emulation_mode),
        ensures
            *final(self) == old(self).xce_spec(),
            final(self).inv(),
    {
        let was_emulation = self.emulation_mode;
        self.emulation_mode = self.psw.carry;
        self.psw.carry = was_emulation;
    }
}

/// XCE twice restores the register file exactly, on the inputs where both
/// exchanges stay clear of the unimplemented entry into emulation mode
/// (the carry flag equals the emulation-mode bit, so neither swap enters
/// emulation mode from native mode).
pub proof fn lemma_xce_twice_identity(r: Regs)
    requires
        r.inv(),
        r.psw.carry == r.emulation_mode,
    ensures
        r.xce_spec().xce_spec() == r,
{
    assert(r.xce_spec().xce_spec().psw == r.psw);
}

} // verus!
