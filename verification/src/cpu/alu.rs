//! The arithmetic and logic unit: each operation computes its result and
//! sets the flags.
use vstd::prelude::*;
use crate::alu::{spec_rotate_left, spec_rotate_right, spec_swap, spec_res, spec_set};
use crate::bits::{wrap8, lemma_wrap8, lemma_wrap16, lemma_nibbles, lemma_word_masks,
    lemma_sign_extend};
use crate::cpu::CPU;
use crate::registers::{Flag, Registers, pack_flags, lemma_pack_flags};

verus! {

impl CPU {
    /// Replaces the four flags.
    pub fn set_flags(&mut self, z: bool, n: bool, h: bool, c: bool)
        ensures
            final(self)@ == old(self)@.with_registers(old(self).registers.with_flags(z, n, h, c)),
            final(self).registers.wf(),
    {
        proof {
            lemma_pack_flags(z, n, h, c);
        }
        self.registers.f = pack_flags(z, n, h, c);
    }

    /// The 8-bit increment of `value`; sets zero, subtract and half-carry.
    pub fn reg_inc(&mut self, value: u8) -> (result: u8)
        ensures
            result == wrap8(value + 1),
            final(self)@ == old(self)@.with_registers(old(self).registers.spec_inc(value)),
            final(self).registers.wf(),
    {
        reveal(Registers::spec_inc);
        proof {
            lemma_nibbles(value);
            lemma_wrap8(value + 1);
        }
        let result = value.wrapping_add(1);
        let carry = self.registers.get_flag(Flag::Carry);
        self.set_flags(result == 0, false, (value & 0x0f) + 1 > 0x0f, carry);
        result
    }

    /// The 8-bit decrement of `value`; sets zero, subtract and half-carry.
    pub fn reg_dec(&mut self, value: u8) -> (result: u8)
        ensures
            result == wrap8(value - 1),
            final(self)@ == old(self)@.with_registers(old(self).registers.spec_dec(value)),
            final(self).registers.wf(),
    {
        reveal(Registers::spec_dec);
        proof {
            lemma_wrap8(value - 1);
        }
        let result = value.wrapping_sub(1);
        let carry = self.registers.get_flag(Flag::Carry);
        self.set_flags(result == 0, true, (value & 0x0f) == 0, carry);
        result
    }

    /// `ADD A, value`, or `ADC A, value` when `need_carry` holds.
    pub fn add(&mut self, value: u8, need_carry: bool)
        ensures
            final(self)@ == old(self)@.with_registers(
                old(self).registers.spec_add(value, need_carry),
            ),
            final(self).registers.wf(),
    {
        reveal(Registers::spec_add);
        let carry: u8 = if need_carry && self.registers.get_flag(Flag::Carry) {
            1
        } else {
            0
        };
        let a = self.registers.a;
        proof {
            lemma_nibbles(a);
            lemma_nibbles(value);
        }
        proof {
            lemma_wrap8(a + value + carry);
        }
        let result = a.wrapping_add(value).wrapping_add(carry);
        let half = (a & 0x0f) + (value & 0x0f) + carry > 0x0f;
        let full = a as u16 + value as u16 + carry as u16 > 0xff;
        self.registers.a = result;
        self.set_flags(result == 0, false, half, full);
    }

    /// `SUB value`, or `SBC A, value` when `need_carry` holds.
    pub fn sub(&mut self, value: u8, need_carry: bool)
        ensures
            final(self)@ == old(self)@.with_registers(
                old(self).registers.spec_sub(value, need_carry),
            ),
            final(self).registers.wf(),
    {
        reveal(Registers::spec_sub);
        let carry: u8 = if need_carry && self.registers.get_flag(Flag::Carry) {
            1
        } else {
            0
        };
        let a = self.registers.a;
        proof {
            lemma_nibbles(a);
            lemma_nibbles(value);
        }
        proof {
            lemma_wrap8(a - value - carry);
        }
        let result = a.wrapping_sub(value).wrapping_sub(carry);
        let half = (a & 0x0f) < (value & 0x0f) + carry;
        let full = (a as u16) < value as u16 + carry as u16;
        self.registers.a = result;
        self.set_flags(result == 0, true, half, full);
    }

    pub fn and(&mut self, value: u8)
        ensures
            final(self)@ == old(self)@.with_registers(old(self).registers.spec_and(value)),
            final(self).registers.wf(),
    {
        reveal(Registers::spec_and);
        let result = self.registers.a & value;
        self.registers.a = result;
        self.set_flags(result == 0, false, true, false);
    }

    pub fn xor(&mut self, value: u8)
        ensures
            final(self)@ == old(self)@.with_registers(old(self).registers.spec_xor(value)),
            final(self).registers.wf(),
    {
        reveal(Registers::spec_xor);
        let result = self.registers.a ^ value;
        self.registers.a = result;
        self.set_flags(result == 0, false, false, false);
    }

    pub fn or(&mut self, value: u8)
        ensures
            final(self)@ == old(self)@.with_registers(old(self).registers.spec_or(value)),
            final(self).registers.wf(),
    {
        reveal(Registers::spec_or);
        let result = self.registers.a | value;
        self.registers.a = result;
        self.set_flags(result == 0, false, false, false);
    }

    /// `CP value`: compares `A` with `value` by the flags of a
    /// subtraction.
    pub fn cp(&mut self, value: u8)
        ensures
            final(self)@ == old(self)@.with_registers(old(self).registers.spec_cp(value)),
            final(self).registers.wf(),
    {
        reveal(Registers::spec_cp);
        reveal(Registers::spec_sub);
        let a = self.registers.a;
        proof {
            lemma_nibbles(a);
            lemma_nibbles(value);
        }
        proof {
            lemma_wrap8(a - value);
        }
        let result = a.wrapping_sub(value);
        self.set_flags(result == 0, true, (a & 0x0f) < (value & 0x0f), a < value);
    }

    /// Sets the flags of a rotation or shift.
    fn shifted(&mut self, result: u8, carry: bool)
        ensures
            final(self)@ == old(self)@.with_registers(
                old(self).registers.spec_shifted(result, carry),
            ),
            final(self).registers.wf(),
    {
        reveal(Registers::spec_shifted);
        self.set_flags(result == 0, false, false, carry);
    }

    /// Rotates left; bit 7 goes to bit 0 and to the carry flag.
    pub fn rlc(&mut self, value: u8) -> (result: u8)
        ensures
            result == spec_rotate_left(value),
            final(self)@ == old(self)@.with_registers(
                old(self).registers.spec_shifted(result, value & 0x80 != 0),
            ),
            final(self).registers.wf(),
    {
        let result = (value << 1) | (value >> 7);
        self.shifted(result, value & 0x80 != 0);
        result
    }

    /// Rotates right; bit 0 goes to bit 7 and to the carry flag.
    pub fn rrc(&mut self, value: u8) -> (result: u8)
        ensures
            result == spec_rotate_right(value),
            final(self)@ == old(self)@.with_registers(
                old(self).registers.spec_shifted(result, value & 0x01 != 0),
            ),
            final(self).registers.wf(),
    {
        let result = (value >> 1) | (value << 7);
        self.shifted(result, value & 0x01 != 0);
        result
    }

    /// Rotates left through the carry flag.
    pub fn rl(&mut self, value: u8) -> (result: u8)
        ensures
            result == old(self).registers.spec_rl(value),
            final(self)@ == old(self)@.with_registers(
                old(self).registers.spec_shifted(result, value & 0x80 != 0),
            ),
            final(self).registers.wf(),
    {
        reveal(Registers::spec_rl);
        let carry: u8 = if self.registers.get_flag(Flag::Carry) {
            1
        } else {
            0
        };
        let result = (value << 1) | carry;
        self.shifted(result, value & 0x80 != 0);
        result
    }

    /// Rotates right through the carry flag.
    pub fn rr(&mut self, value: u8) -> (result: u8)
        ensures
            result == old(self).registers.spec_rr(value),
            final(self)@ == old(self)@.with_registers(
                old(self).registers.spec_shifted(result, value & 0x01 != 0),
            ),
            final(self).registers.wf(),
    {
        reveal(Registers::spec_rr);
        let carry: u8 = if self.registers.get_flag(Flag::Carry) {
            1
        } else {
            0
        };
        let result = (value >> 1) | (carry << 7);
        self.shifted(result, value & 0x01 != 0);
        result
    }

    /// Shifts left; bit 7 goes to the carry flag.
    pub fn sla(&mut self, value: u8) -> (result: u8)
        ensures
            result == value << 1,
            final(self)@ == old(self)@.with_registers(
                old(self).registers.spec_shifted(result, value & 0x80 != 0),
            ),
            final(self).registers.wf(),
    {
        let result = value << 1;
        self.shifted(result, value & 0x80 != 0);
        result
    }

    /// Shifts right and keeps bit 7; bit 0 goes to the carry flag.
    pub fn sra(&mut self, value: u8) -> (result: u8)
        ensures
            result == (value >> 1) | (value & 0x80),
            final(self)@ == old(self)@.with_registers(
                old(self).registers.spec_shifted(result, value & 0x01 != 0),
            ),
            final(self).registers.wf(),
    {
        let result = (value >> 1) | (value & 0x80);
        self.shifted(result, value & 0x01 != 0);
        result
    }

    /// Exchanges the nibbles.
    pub fn swap(&mut self, value: u8) -> (result: u8)
        ensures
            result == spec_swap(value),
            final(self)@ == old(self)@.with_registers(
                old(self).registers.spec_shifted(result, false),
            ),
            final(self).registers.wf(),
    {
        let result = (value >> 4) | (value << 4);
        self.shifted(result, false);
        result
    }

    /// Shifts right; bit 0 goes to the carry flag.
    pub fn srl(&mut self, value: u8) -> (result: u8)
        ensures
            result == value >> 1,
            final(self)@ == old(self)@.with_registers(
                old(self).registers.spec_shifted(result, value & 0x01 != 0),
            ),
            final(self).registers.wf(),
    {
        let result = value >> 1;
        self.shifted(result, value & 0x01 != 0);
        result
    }

    /// `BIT bit, value`: the zero flag tells whether the bit is clear.
    pub fn bit(&mut self, value: u8, bit: u8)
        requires
            bit < 8,
        ensures
            final(self)@ == old(self)@.with_registers(old(self).registers.spec_bit(value, bit)),
            final(self).registers.wf(),
    {
        reveal(Registers::spec_bit);
        let carry = self.registers.get_flag(Flag::Carry);
        self.set_flags(value & (1u8 << bit) == 0, false, true, carry);
    }

    /// Corrects `A` to packed decimal after an addition or subtraction.
    pub fn daa(&mut self)
        ensures
            final(self)@ == old(self)@.with_registers(old(self).registers.spec_daa()),
            final(self).registers.wf(),
    {
        reveal(Registers::spec_daa);
        let a = self.registers.a;
        let subtract = self.registers.get_flag(Flag::Sub);
        let mut adjust: u8 = 0;
        let mut carry = false;
        if self.registers.get_flag(Flag::HalfCarry) || (!subtract && (a & 0x0f) > 9) {
            adjust = adjust + 0x06;
        }
        if self.registers.get_flag(Flag::Carry) || (!subtract && a > 0x99) {
            adjust = adjust + 0x60;
            carry = true;
        }
        proof {
            lemma_wrap8(a - adjust);
            lemma_wrap8(a + adjust);
        }
        let result = if subtract {
            a.wrapping_sub(adjust)
        } else {
            a.wrapping_add(adjust)
        };
        self.registers.a = result;
        self.set_flags(result == 0, subtract, false, carry);
    }

    /// `CPL`: complements `A`.
    pub fn cpl(&mut self)
        ensures
            final(self)@ == old(self)@.with_registers(old(self).registers.spec_cpl()),
            final(self).registers.wf(),
    {
        reveal(Registers::spec_cpl);
        let zero = self.registers.get_flag(Flag::Zero);
        let carry = self.registers.get_flag(Flag::Carry);
        self.registers.a = !self.registers.a;
        self.set_flags(zero, true, true, carry);
    }

    /// `SCF`: sets the carry flag.
    pub fn scf(&mut self)
        ensures
            final(self)@ == old(self)@.with_registers(old(self).registers.spec_scf()),
            final(self).registers.wf(),
    {
        reveal(Registers::spec_scf);
        let zero = self.registers.get_flag(Flag::Zero);
        self.set_flags(zero, false, false, true);
    }

    /// `CCF`: inverts the carry flag.
    pub fn ccf(&mut self)
        ensures
            final(self)@ == old(self)@.with_registers(old(self).registers.spec_ccf()),
            final(self).registers.wf(),
    {
        reveal(Registers::spec_ccf);
        let zero = self.registers.get_flag(Flag::Zero);
        let carry = self.registers.get_flag(Flag::Carry);
        self.set_flags(zero, false, false, !carry);
    }

    /// `value` with bit `bit` cleared.
    pub fn res(&mut self, value: u8, bit: u8) -> (result: u8)
        requires
            bit < 8,
        ensures
            result == spec_res(value, bit),
            *final(self) == *old(self),
    {
        value & !(1u8 << bit)
    }

    /// `value` with bit `bit` set.
    pub fn set(&mut self, value: u8, bit: u8) -> (result: u8)
        requires
            bit < 8,
        ensures
            result == spec_set(value, bit),
            *final(self) == *old(self),
    {
        value | (1u8 << bit)
    }

    /// `ADD HL, value`.
    pub fn add_hl(&mut self, value: u16)
        ensures
            final(self)@ == old(self)@.with_registers(old(self).registers.spec_add_hl(value)),
            final(self).registers.wf(),
    {
        reveal(Registers::spec_add_hl);
        let hl = self.registers.hl();
        proof {
            lemma_word_masks(hl);
            lemma_word_masks(value);
            lemma_wrap16(hl + value);
        }
        let result = hl.wrapping_add(value);
        let zero = self.registers.get_flag(Flag::Zero);
        let half = (hl & 0x0fff) + (value & 0x0fff) > 0x0fff;
        let full = hl as u32 + value as u32 > 0xffff;
        self.registers.set_hl(result);
        self.set_flags(zero, false, half, full);
    }

    /// `SP` plus the signed byte `offset`; sets the flags by the carries
    /// of the low bytes.
    pub fn sp_plus(&mut self, offset: u8) -> (result: u16)
        ensures
            result == old(self).registers.spec_sp_plus(offset),
            final(self)@ == old(self)@.with_registers(old(self).registers.spec_sp_flags(offset)),
            final(self).registers.wf(),
    {
        reveal(Registers::spec_sp_plus);
        reveal(Registers::spec_sp_flags);
        let sp = self.registers.sp;
        proof {
            lemma_word_masks(sp);
            lemma_nibbles(offset);
            lemma_sign_extend(offset);
            lemma_wrap16(sp + crate::bits::sign_extend(offset));
        }
        let half = (sp & 0x000f) + (offset & 0x0f) as u16 > 0x0f;
        let full = (sp & 0x00ff) + offset as u16 > 0xff;
        self.set_flags(false, false, half, full);
        sp.wrapping_add(offset as i8 as u16)
    }
}

} // verus!
