//! The arithmetic and logic of the processor, as functions on the register
//! file: what each operation leaves in the accumulator and in the flags.
use vstd::prelude::*;
use crate::bits::{wrap8, wrap16, sign_extend};
use crate::registers::{Flag, Registers, lemma_pack_flags};

verus! {

/// A byte rotated left by one bit.
pub open spec fn spec_rotate_left(value: u8) -> u8 {
    (value << 1) | (value >> 7)
}

/// A byte rotated right by one bit.
pub open spec fn spec_rotate_right(value: u8) -> u8 {
    (value >> 1) | (value << 7)
}

/// A byte with its two nibbles exchanged.
pub open spec fn spec_swap(value: u8) -> u8 {
    (value >> 4) | (value << 4)
}

/// A byte with bit `bit` cleared.
pub open spec fn spec_res(value: u8, bit: u8) -> u8 {
    value & !(1u8 << bit)
}

/// A byte with bit `bit` set.
pub open spec fn spec_set(value: u8, bit: u8) -> u8 {
    value | (1u8 << bit)
}

impl Registers {
    /// The carry that goes into an addition or subtraction: the carry flag
    /// if the operation takes it, else zero.
    pub open spec fn carry_in(self, use_carry: bool) -> u8 {
        if use_carry && self.spec_get_flag(Flag::Carry) {
            1
        } else {
            0
        }
    }

    /// `ADD` and `ADC`.
    #[verifier::opaque]
    pub open spec fn spec_add(self, value: u8, use_carry: bool) -> Registers {
        let carry = self.carry_in(use_carry);
        let sum = self.a + value + carry;
        (Registers { a: wrap8(sum), ..self }).with_flags(
            wrap8(sum) == 0,
            false,
            (self.a & 0x0f) + (value & 0x0f) + carry > 0x0f,
            sum > 0xff,
        )
    }

    /// `SUB` and `SBC`.
    #[verifier::opaque]
    pub open spec fn spec_sub(self, value: u8, use_carry: bool) -> Registers {
        let carry = self.carry_in(use_carry);
        let difference = self.a - value - carry;
        (Registers { a: wrap8(difference), ..self }).with_flags(
            wrap8(difference) == 0,
            true,
            (self.a & 0x0f) - (value & 0x0f) - carry < 0,
            difference < 0,
        )
    }

    /// `CP`: the flags of a subtraction, with `A` kept.
    #[verifier::opaque]
    pub open spec fn spec_cp(self, value: u8) -> Registers {
        Registers { a: self.a, ..self.spec_sub(value, false) }
    }

    #[verifier::opaque]
    pub open spec fn spec_and(self, value: u8) -> Registers {
        (Registers { a: self.a & value, ..self }).with_flags(
            self.a & value == 0,
            false,
            true,
            false,
        )
    }

    #[verifier::opaque]
    pub open spec fn spec_or(self, value: u8) -> Registers {
        (Registers { a: self.a | value, ..self }).with_flags(
            self.a | value == 0,
            false,
            false,
            false,
        )
    }

    #[verifier::opaque]
    pub open spec fn spec_xor(self, value: u8) -> Registers {
        (Registers { a: self.a ^ value, ..self }).with_flags(
            self.a ^ value == 0,
            false,
            false,
            false,
        )
    }

    /// The flags after the 8-bit increment of `value`; the carry flag is
    /// kept.
    #[verifier::opaque]
    pub open spec fn spec_inc(self, value: u8) -> Registers {
        self.with_flags(
            wrap8(value + 1) == 0,
            false,
            (value & 0x0f) + 1 > 0x0f,
            self.spec_get_flag(Flag::Carry),
        )
    }

    /// The flags after the 8-bit decrement of `value`; the carry flag is
    /// kept.
    #[verifier::opaque]
    pub open spec fn spec_dec(self, value: u8) -> Registers {
        self.with_flags(
            wrap8(value - 1) == 0,
            true,
            value & 0x0f == 0,
            self.spec_get_flag(Flag::Carry),
        )
    }

    /// The flags after a rotation or shift that gave `result` and moved
    /// `carry` out.
    #[verifier::opaque]
    pub open spec fn spec_shifted(self, result: u8, carry: bool) -> Registers {
        self.with_flags(result == 0, false, false, carry)
    }

    /// `RL`: the result of rotating `value` left through the carry flag.
    #[verifier::opaque]
    pub open spec fn spec_rl(self, value: u8) -> u8 {
        (value << 1) | self.carry_in(true)
    }

    /// `RR`: the result of rotating `value` right through the carry flag.
    #[verifier::opaque]
    pub open spec fn spec_rr(self, value: u8) -> u8 {
        (value >> 1) | (self.carry_in(true) << 7)
    }

    /// The flags after `BIT bit, value`; the carry flag is kept.
    #[verifier::opaque]
    pub open spec fn spec_bit(self, value: u8, bit: u8) -> Registers {
        self.with_flags(
            value & (1u8 << bit) == 0,
            false,
            true,
            self.spec_get_flag(Flag::Carry),
        )
    }

    /// `DAA`: `A` is corrected to packed decimal after an addition or a
    /// subtraction of packed decimals, by `0x06` for the low digit and
    /// `0x60` for the high digit.
    #[verifier::opaque]
    pub open spec fn spec_daa(self) -> Registers {
        let subtract = self.spec_get_flag(Flag::Sub);
        let low = self.spec_get_flag(Flag::HalfCarry) || (!subtract && (self.a & 0x0f) > 9);
        let high = self.spec_get_flag(Flag::Carry) || (!subtract && self.a > 0x99);
        let adjust = (if low {
            0x06int
        } else {
            0
        }) + (if high {
            0x60int
        } else {
            0
        });
        let result = if subtract {
            wrap8(self.a - adjust)
        } else {
            wrap8(self.a + adjust)
        };
        (Registers { a: result, ..self }).with_flags(result == 0, subtract, false, high)
    }

    /// `CPL`: `A` is complemented; zero and carry flags are kept.
    #[verifier::opaque]
    pub open spec fn spec_cpl(self) -> Registers {
        (Registers { a: !self.a, ..self }).with_flags(
            self.spec_get_flag(Flag::Zero),
            true,
            true,
            self.spec_get_flag(Flag::Carry),
        )
    }

    /// `SCF`: the carry flag is set; the zero flag is kept.
    #[verifier::opaque]
    pub open spec fn spec_scf(self) -> Registers {
        self.with_flags(self.spec_get_flag(Flag::Zero), false, false, true)
    }

    /// `CCF`: the carry flag is inverted; the zero flag is kept.
    #[verifier::opaque]
    pub open spec fn spec_ccf(self) -> Registers {
        self.with_flags(
            self.spec_get_flag(Flag::Zero),
            false,
            false,
            !self.spec_get_flag(Flag::Carry),
        )
    }

    /// `ADD HL, rr`: half carry out of bit 11, carry out of bit 15; the
    /// zero flag is kept.
    #[verifier::opaque]
    pub open spec fn spec_add_hl(self, value: u16) -> Registers {
        let hl = self.spec_hl();
        self.with_hl(wrap16(hl + value)).with_flags(
            self.spec_get_flag(Flag::Zero),
            false,
            (hl & 0x0fff) + (value & 0x0fff) > 0x0fff,
            hl + value > 0xffff,
        )
    }

    /// `SP` plus a signed byte.
    #[verifier::opaque]
    pub open spec fn spec_sp_plus(self, offset: u8) -> u16 {
        wrap16(self.sp + sign_extend(offset))
    }

    /// The flags of `ADD SP, e8` and `LD HL, SP+e8`: the carries of the
    /// unsigned addition of the low bytes, out of bit 3 and out of bit 7.
    #[verifier::opaque]
    pub open spec fn spec_sp_flags(self, offset: u8) -> Registers {
        self.with_flags(
            false,
            false,
            (self.sp & 0x000f) + (offset & 0x0f) > 0x0f,
            (self.sp & 0x00ff) + offset > 0xff,
        )
    }
}

/// A byte XORed with itself is zero, and complementing twice gives the
/// byte back.
pub proof fn lemma_xor_self(a: u8)
    by (bit_vector)
    ensures
        a ^ a == 0,
        !!a == a,
{
}

/// `XOR A` leaves zero in `A`, sets the zero flag and clears the other
/// three.
pub proof fn lemma_xor_a(r: Registers)
    ensures
        r.spec_xor(r.a).a == 0,
        r.spec_xor(r.a).spec_get_flag(Flag::Zero),
        !r.spec_xor(r.a).spec_get_flag(Flag::Sub),
        !r.spec_xor(r.a).spec_get_flag(Flag::HalfCarry),
        !r.spec_xor(r.a).spec_get_flag(Flag::Carry),
        r.spec_xor(r.a).wf(),
{
    reveal(Registers::spec_xor);
    lemma_xor_self(r.a);
    lemma_pack_flags(true, false, false, false);
}

/// `CPL` twice gives `A` back. The first sets the subtract and half-carry
/// flags and keeps the other two; the second changes no flag.
pub proof fn lemma_cpl_twice(r: Registers)
    ensures
        r.spec_cpl().spec_cpl().a == r.a,
        r.spec_cpl().spec_get_flag(Flag::Sub),
        r.spec_cpl().spec_get_flag(Flag::HalfCarry),
        r.spec_cpl().spec_get_flag(Flag::Zero) == r.spec_get_flag(Flag::Zero),
        r.spec_cpl().spec_get_flag(Flag::Carry) == r.spec_get_flag(Flag::Carry),
        r.spec_cpl().spec_cpl().f == r.spec_cpl().f,
        r.spec_cpl().spec_cpl() == (Registers { f: r.spec_cpl().f, ..r }),
{
    reveal(Registers::spec_cpl);
    lemma_xor_self(r.a);
    lemma_pack_flags(r.spec_get_flag(Flag::Zero), true, true, r.spec_get_flag(Flag::Carry));
}

/// Every arithmetic and logic operation leaves the low nibble of `F`
/// clear.
pub proof fn lemma_alu_keeps_low_nibble_clear(r: Registers, value: u8, wide: u16, flag: bool)
    ensures
        r.spec_add(value, flag).wf(),
        r.spec_sub(value, flag).wf(),
        r.spec_cp(value).wf(),
        r.spec_and(value).wf(),
        r.spec_or(value).wf(),
        r.spec_xor(value).wf(),
        r.spec_inc(value).wf(),
        r.spec_dec(value).wf(),
        r.spec_shifted(value, flag).wf(),
        r.spec_bit(value, value).wf(),
        r.spec_daa().wf(),
        r.spec_cpl().wf(),
        r.spec_scf().wf(),
        r.spec_ccf().wf(),
        r.spec_add_hl(wide).wf(),
        r.spec_sp_flags(value).wf(),
        r.with_af(wide).wf(),
{
    reveal(Registers::spec_add);
    reveal(Registers::spec_sub);
    reveal(Registers::spec_cp);
    reveal(Registers::spec_and);
    reveal(Registers::spec_or);
    reveal(Registers::spec_xor);
    reveal(Registers::spec_inc);
    reveal(Registers::spec_dec);
    reveal(Registers::spec_shifted);
    reveal(Registers::spec_rl);
    reveal(Registers::spec_rr);
    reveal(Registers::spec_bit);
    reveal(Registers::spec_daa);
    reveal(Registers::spec_cpl);
    reveal(Registers::spec_scf);
    reveal(Registers::spec_ccf);
    reveal(Registers::spec_add_hl);
    reveal(Registers::spec_sp_plus);
    reveal(Registers::spec_sp_flags);
    assert forall|z: bool, n: bool, h: bool, c: bool| #[trigger]
        crate::registers::spec_pack_flags(z, n, h, c) & 0x0f == 0 by {
        lemma_pack_flags(z, n, h, c);
    }
    crate::bits::lemma_nibbles(crate::bits::lo_byte(wide));
}


/// Whether a byte holds two decimal digits, one in each nibble.
pub open spec fn is_decimal(v: u8) -> bool {
    (v & 0x0f) <= 9 && (v >> 4) <= 9
}

/// The number from 0 to 99 that a byte of two decimal digits holds.
pub open spec fn decimal(v: u8) -> int {
    (v >> 4) as int * 10 + (v & 0x0f) as int
}

/// The adjustment after a binary addition of two bytes of decimal digits,
/// on bytes alone: `sum` is the binary sum, `result` the adjusted sum.
proof fn lemma_decimal_adjust(a: u8, b: u8, sum: u16, low: bool, high: bool, result: u16)
    by (bit_vector)
    requires
        (a & 0x0f) <= 9 && (a >> 4) <= 9,
        (b & 0x0f) <= 9 && (b >> 4) <= 9,
        sum == (a as u16) + (b as u16),
        low == ((a & 0x0f) + (b & 0x0f) > 0x0f || (sum & 0x0f) > 9),
        high == (sum > 0xff || (sum & 0xff) > 0x99),
        result == (((sum & 0xff) + (if low {
            0x06u16
        } else {
            0u16
        }) + (if high {
            0x60u16
        } else {
            0u16
        })) as u16) & 0xff,
    ensures
        (result & 0x0f) <= 9 && (result >> 4) <= 9,
        high == (((a >> 4) as u16) * 10 + ((a & 0x0f) as u16) + ((b >> 4) as u16) * 10 + ((b
            & 0x0f) as u16) >= 100),
        (result >> 4) * 10 + (result & 0x0f) == (((a >> 4) as u16) * 10 + ((a & 0x0f) as u16) + ((b
            >> 4) as u16) * 10 + ((b & 0x0f) as u16)) % 100,
{
}

/// The nibbles of a byte are the nibbles of the word of the same value.
proof fn lemma_byte_in_word(x: u8, w: u16)
    by (bit_vector)
    requires
        w == x as u16,
    ensures
        w & 0x0f == (x & 0x0f) as u16,
        w >> 4 == (x >> 4) as u16,
        w & 0xff == w,
{
}

/// `DAA` after `ADD` adds packed decimals: where `A` and the operand hold
/// two decimal digits each, `A` holds the two low digits of their decimal
/// sum and the carry flag tells whether the sum reached 100.
pub proof fn lemma_daa_after_add(r: Registers, value: u8)
    requires
        is_decimal(r.a),
        is_decimal(value),
    ensures
        ({
            let s = r.spec_add(value, false).spec_daa();
            &&& is_decimal(s.a)
            &&& decimal(s.a) == (decimal(r.a) + decimal(value)) % 100
            &&& s.spec_get_flag(Flag::Carry) == (decimal(r.a) + decimal(value) >= 100)
            &&& s.spec_get_flag(Flag::Zero) == (s.a == 0)
            &&& !s.spec_get_flag(Flag::Sub)
            &&& !s.spec_get_flag(Flag::HalfCarry)
        }),
{
    reveal(Registers::spec_add);
    reveal(Registers::spec_daa);
    let a = r.a;
    let sum: u16 = (a + value) as u16;
    let added = r.spec_add(value, false);
    let half = (a & 0x0f) + (value & 0x0f) > 0x0f;
    lemma_pack_flags(added.a == 0, false, half, sum > 0xff);
    crate::bits::lemma_wrap8(a + value);
    crate::bits::lemma_word_masks(sum);
    assert(added.a as u16 == sum & 0xff);
    lemma_byte_in_word(added.a, sum & 0xff);
    assert((sum & 0xff) & 0x0f == sum & 0x0f) by (bit_vector);
    let low = half || (added.a & 0x0f) > 9;
    let high = sum > 0xff || added.a > 0x99;
    let adjust: u16 = ((if low {
        0x06u16
    } else {
        0u16
    }) + (if high {
        0x60u16
    } else {
        0u16
    })) as u16;
    let wide: u16 = ((sum & 0xff) + adjust) as u16;
    let result: u16 = wide & 0xff;
    lemma_decimal_adjust(a, value, sum, low, high, result);
    let s = added.spec_daa();
    crate::bits::lemma_wrap8(added.a + adjust);
    crate::bits::lemma_word_masks(wide);
    assert(s.a as u16 == result);
    lemma_byte_in_word(s.a, result);
    lemma_byte_in_word(a, a as u16);
    lemma_byte_in_word(value, value as u16);
    lemma_pack_flags(s.a == 0, false, false, high);
}

/// The adjustment after a binary subtraction of two bytes of decimal
/// digits, on bytes alone.
proof fn lemma_decimal_adjust_down(a: u8, b: u8, low: bool, high: bool, result: u16)
    by (bit_vector)
    requires
        (a & 0x0f) <= 9 && (a >> 4) <= 9,
        (b & 0x0f) <= 9 && (b >> 4) <= 9,
        low == ((a & 0x0f) < (b & 0x0f)),
        high == (a < b),
        result == (((a as u16) + 0x200 - (b as u16) - (if low {
            0x06u16
        } else {
            0u16
        }) - (if high {
            0x60u16
        } else {
            0u16
        })) as u16) & 0xff,
    ensures
        (result & 0x0f) <= 9 && (result >> 4) <= 9,
        high == (((a >> 4) as u16) * 10 + ((a & 0x0f) as u16) < ((b >> 4) as u16) * 10 + ((b
            & 0x0f) as u16)),
        (result >> 4) * 10 + (result & 0x0f) == (100 + ((a >> 4) as u16) * 10 + ((a & 0x0f) as u16)
            - ((b >> 4) as u16) * 10 - ((b & 0x0f) as u16)) % 100,
{
}

/// `DAA` after `SUB` subtracts packed decimals: where `A` and the operand
/// hold two decimal digits each, `A` holds their decimal difference
/// modulo 100 and the carry flag tells whether the operand was the
/// greater.
pub proof fn lemma_daa_after_sub(r: Registers, value: u8)
    requires
        is_decimal(r.a),
        is_decimal(value),
    ensures
        ({
            let s = r.spec_sub(value, false).spec_daa();
            &&& is_decimal(s.a)
            &&& decimal(s.a) == (100 + decimal(r.a) - decimal(value)) % 100
            &&& s.spec_get_flag(Flag::Carry) == (decimal(r.a) < decimal(value))
            &&& s.spec_get_flag(Flag::Zero) == (s.a == 0)
            &&& s.spec_get_flag(Flag::Sub)
            &&& !s.spec_get_flag(Flag::HalfCarry)
        }),
{
    reveal(Registers::spec_sub);
    reveal(Registers::spec_daa);
    let a = r.a;
    let subtracted = r.spec_sub(value, false);
    let low = (a & 0x0f) < (value & 0x0f);
    let high = a < value;
    lemma_pack_flags(subtracted.a == 0, true, low, high);
    crate::bits::lemma_wrap8(a - value);
    let adjust: int = (if low {
        0x06int
    } else {
        0
    }) + (if high {
        0x60int
    } else {
        0
    });
    let wide: u16 = (a + 0x200 - value - adjust) as u16;
    let result: u16 = wide & 0xff;
    lemma_decimal_adjust_down(a, value, low, high, result);
    let s = subtracted.spec_daa();
    let difference = a - value;
    assert(s.a == crate::bits::wrap8(subtracted.a - adjust));
    assert(subtracted.a == crate::bits::wrap8(difference));
    crate::bits::lemma_wrap8_twice(difference, adjust);
    assert((difference - adjust + 0x200) % 0x100 == (difference - adjust) % 0x100) by {
        let x = difference - adjust;
        assert((x + 0x200) % 0x100 == x % 0x100) by (nonlinear_arith);
    }
    crate::bits::lemma_word_masks(wide);
    assert(s.a as u16 == result);
    lemma_byte_in_word(s.a, result);
    lemma_byte_in_word(a, a as u16);
    lemma_byte_in_word(value, value as u16);
    lemma_pack_flags(s.a == 0, true, false, high);
}

} // verus!
