//! The 65C816 processor-status word, one field per flag.

use vstd::prelude::*;

verus! {

/// Processor-status word of the 65C816.
///
/// In the packed byte (as pushed by PHP or interrupt entry, and as the
/// operand of REP/SEP) the flags occupy these bits: carry 0, zero 1,
/// irqs_disabled 2, decimal_mode 3, index_regs_are_8_bit 4, a_is_8_bit 5,
/// overflow 6, negative 7.
#[derive(Clone, Copy, Debug, PartialEq, Eq, Structural)]
pub struct Psw {
    pub carry: bool,
    pub zero: bool,
    pub irqs_disabled: bool,
    pub decimal_mode: bool,
    pub index_regs_are_8_bit: bool,
    pub a_is_8_bit: bool,
    pub overflow: bool,
    pub negative: bool,
}

impl Psw {
    /// The status word at power-on: every flag clear.
    pub fn new() -> (r: Psw)
        ensures
            r == Psw::all_clear(),
    {
        Psw {
            carry: false,
            zero: false,
            irqs_disabled: false,
            decimal_mode: false,
            index_regs_are_8_bit: false,
            a_is_8_bit: false,
            overflow: false,
            negative: false,
        }
    }

    pub open spec fn all_clear() -> Psw {
        Psw {
            carry: false,
            zero: false,
            irqs_disabled: false,
            decimal_mode: false,
            index_regs_are_8_bit: false,
            a_is_8_bit: false,
            overflow: false,
            negative: false,
        }
    }

    /// The packed byte holding the eight flags at their documented bits.
    pub open spec fn spec_to_byte(self) -> u8 {
        (bit_val(self.carry, 1) + bit_val(self.zero, 2) + bit_val(self.irqs_disabled, 4)
            + bit_val(self.decimal_mode, 8) + bit_val(self.index_regs_are_8_bit, 16)
            + bit_val(self.a_is_8_bit, 32) + bit_val(self.overflow, 64)
            + bit_val(self.negative, 128)) as u8
    }

    /// The flags unpacked from a byte, bit by bit.
    pub open spec fn spec_from_byte(b: u8) -> Psw {
        Psw {
            carry: byte_bit(b, 1),
            zero: byte_bit(b, 2),
            irqs_disabled: byte_bit(b, 4),
            decimal_mode: byte_bit(b, 8),
            index_regs_are_8_bit: byte_bit(b, 16),
            a_is_8_bit: byte_bit(b, 32),
            overflow: byte_bit(b, 64),
            negative: byte_bit(b, 128),
        }
    }

    /// Packs the flags into their byte form (PHP, interrupt entry).
    #[verifier::rlimit(50)]
    pub fn to_byte(&self) -> (r: u8)
        ensures
            r == self.spec_to_byte(),
            Psw::spec_from_byte(r) == *self,
    {
        let c: u8 = if self.carry { 1 } else { 0 };
        let z: u8 = if self.zero { 1 } else { 0 };
        let i: u8 = if self.irqs_disabled { 1 } else { 0 };
        let d: u8 = if self.decimal_mode { 1 } else { 0 };
        let x: u8 = if self.index_regs_are_8_bit { 1 } else { 0 };
        let m: u8 = if self.a_is_8_bit { 1 } else { 0 };
        let v: u8 = if self.overflow { 1 } else { 0 };
        let n: u8 = if self.negative { 1 } else { 0 };
        let b: u8 = c + 2 * z + 4 * i + 8 * d + 16 * x + 32 * m + 64 * v + 128 * n;
        proof {
            lemma_byte_bits(b, c, z, i, d, x, m, v, n);
        }
        b
    }

    /// Unpacks the flags from their byte form (PLP, RTI).
    pub fn from_byte(b: u8) -> (r: Psw)
        ensures
            r == Psw::spec_from_byte(b),
    {
        Psw {
            carry: (b / 1) % 2 == 1,
            zero: (b / 2) % 2 == 1,
            irqs_disabled: (b / 4) % 2 == 1,
            decimal_mode: (b / 8) % 2 == 1,
            index_regs_are_8_bit: (b / 16) % 2 == 1,
            a_is_8_bit: (b / 32) % 2 == 1,
            overflow: (b / 64) % 2 == 1,
            negative: (b / 128) % 2 == 1,
        }
    }
}

/// The weight a flag contributes to the packed byte.
pub open spec fn bit_val(flag: bool, weight: u8) -> u8 {
    if flag {
        weight
    } else {
        0
    }
}

/// Whether the bit of the given weight (1, 2, 4, ..., 128) is set in a byte.
pub open spec fn byte_bit(b: u8, weight: u8) -> bool {
    (b / weight) % 2 == 1
}

/// Packing eight flag bits at distinct weights and reading each back by
/// division recovers the flags.
proof fn lemma_byte_bits(b: u8, c: u8, z: u8, i: u8, d: u8, x: u8, m: u8, v: u8, n: u8)
    requires
        c <= 1,
        z <= 1,
        i <= 1,
        d <= 1,
        x <= 1,
        m <= 1,
        v <= 1,
        n <= 1,
        b == c + 2 * z + 4 * i + 8 * d + 16 * x + 32 * m + 64 * v + 128 * n,
    ensures
        ((b / 1) % 2 == 1) == (c == 1),
        ((b / 2) % 2 == 1) == (z == 1),
        ((b / 4) % 2 == 1) == (i == 1),
        ((b / 8) % 2 == 1) == (d == 1),
        ((b / 16) % 2 == 1) == (x == 1),
        ((b / 32) % 2 == 1) == (m == 1),
        ((b / 64) % 2 == 1) == (v == 1),
        ((b / 128) % 2 == 1) == (n == 1),
{
    assert(((b / 1) % 2 == 1) == (c == 1) && ((b / 2) % 2 == 1) == (z == 1) && ((b / 4) % 2 == 1)
        == (i == 1) && ((b / 8) % 2 == 1) == (d == 1) && ((b / 16) % 2 == 1) == (x == 1) && ((b
        / 32) % 2 == 1) == (m == 1) && ((b / 64) % 2 == 1) == (v == 1) && ((b / 128) % 2 == 1) == (n
        == 1)) by (bit_vector)
        requires
            c <= 1,
            z <= 1,
            i <= 1,
            d <= 1,
            x <= 1,
            m <= 1,
            v <= 1,
            n <= 1,
            b == c + 2 * z + 4 * i + 8 * d + 16 * x + 32 * m + 64 * v + 128 * n,
    ;
}

/// Unpacking a byte into flags and packing them again gives the byte back.
pub proof fn lemma_byte_round_trip(b: u8)
    ensures
        Psw::spec_from_byte(b).spec_to_byte() == b,
{
    assert((if (b / 1) % 2 == 1 {
        1u8
    } else {
        0u8
    }) + 2 * (if (b / 2) % 2 == 1 {
        1u8
    } else {
        0u8
    }) + 4 * (if (b / 4) % 2 == 1 {
        1u8
    } else {
        0u8
    }) + 8 * (if (b / 8) % 2 == 1 {
        1u8
    } else {
        0u8
    }) + 16 * (if (b / 16) % 2 == 1 {
        1u8
    } else {
        0u8
    }) + 32 * (if (b / 32) % 2 == 1 {
        1u8
    } else {
        0u8
    }) + 64 * (if (b / 64) % 2 == 1 {
        1u8
    } else {
        0u8
    }) + 128 * (if (b / 128) % 2 == 1 {
        1u8
    } else {
        0u8
    }) == b) by (bit_vector);
}

} // verus!
