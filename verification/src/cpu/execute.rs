//! The execution of a decoded instruction.
use vstd::prelude::*;
use crate::bits::lemma_wrap16;
use crate::cpu::CPU;
use crate::cpu::model::CpuView;
use crate::instruction::{Instruction, InstructionType, JumpCondition, LdAction, Operation,
    RegisterTarget, RegisterTarget16};
use crate::registers::{Flag, Registers};

verus! {

impl CPU {
    /// Reads an 8-bit operand.
    pub fn get_value(&mut self, target: RegisterTarget) -> (value: u8)
        requires
            old(self).wf(),
        ensures
            final(self).wf(),
            (value, final(self)@) == old(self)@.get(target),
            final(self).registers.f == old(self).registers.f,
    {
        reveal(CpuView::get);
        match target {
            RegisterTarget::A => self.registers.a,
            RegisterTarget::B => self.registers.b,
            RegisterTarget::C => self.registers.c,
            RegisterTarget::D => self.registers.d,
            RegisterTarget::E => self.registers.e,
            RegisterTarget::H => self.registers.h,
            RegisterTarget::L => self.registers.l,
            RegisterTarget::_HL => self.memory.read(self.registers.hl()),
            RegisterTarget::INSTANT => self.fetch_byte(),
        }
    }

    /// Writes an 8-bit operand.
    pub fn set_value(&mut self, target: RegisterTarget, value: u8)
        requires
            old(self).wf(),
        ensures
            final(self).wf(),
            final(self)@ == old(self)@.set(target, value),
    {
        reveal(CpuView::set);
        match target {
            RegisterTarget::A => self.registers.a = value,
            RegisterTarget::B => self.registers.b = value,
            RegisterTarget::C => self.registers.c = value,
            RegisterTarget::D => self.registers.d = value,
            RegisterTarget::E => self.registers.e = value,
            RegisterTarget::H => self.registers.h = value,
            RegisterTarget::L => self.registers.l = value,
            RegisterTarget::_HL => self.memory.write(self.registers.hl(), value),
            RegisterTarget::INSTANT => {},
        }
    }

    /// Reads a 16-bit operand.
    pub fn get_value_16(&mut self, target: RegisterTarget16) -> (value: u16)
        requires
            old(self).wf(),
        ensures
            final(self).wf(),
            (value, final(self)@) == old(self)@.get16(target),
            final(self).registers.f == old(self).registers.f,
    {
        reveal(CpuView::get16);
        match target {
            RegisterTarget16::BC => self.registers.bc(),
            RegisterTarget16::DE => self.registers.de(),
            RegisterTarget16::HL => self.registers.hl(),
            RegisterTarget16::SP => self.registers.sp,
            RegisterTarget16::AF => self.registers.af(),
            RegisterTarget16::INSTANT2 => self.fetch_word(),
        }
    }

    /// Writes a 16-bit operand.
    pub fn set_value_16(&mut self, target: RegisterTarget16, value: u16)
        requires
            old(self).wf(),
        ensures
            final(self).wf(),
            final(self)@ == old(self)@.set16(target, value),
    {
        reveal(CpuView::set16);
        proof {
            crate::alu::lemma_alu_keeps_low_nibble_clear(self.registers, 0, value, false);
        }
        match target {
            RegisterTarget16::BC => self.registers.set_bc(value),
            RegisterTarget16::DE => self.registers.set_de(value),
            RegisterTarget16::HL => self.registers.set_hl(value),
            RegisterTarget16::SP => self.registers.sp = value,
            RegisterTarget16::AF => self.registers.set_af(value),
            RegisterTarget16::INSTANT2 => {},
        }
    }

    /// Whether a jump condition holds.
    pub fn holds(&self, condition: JumpCondition) -> (r: bool)
        ensures
            r == self@.holds(condition),
    {
        match condition {
            JumpCondition::NZ => !self.registers.get_flag(Flag::Zero),
            JumpCondition::Z => self.registers.get_flag(Flag::Zero),
            JumpCondition::NC => !self.registers.get_flag(Flag::Carry),
            JumpCondition::C => self.registers.get_flag(Flag::Carry),
            JumpCondition::NONE => true,
        }
    }

    fn execute_control(&mut self, instruction: Instruction) -> (cycles: u8)
        requires
            old(self).wf(),
        ensures
            final(self).wf(),
            (final(self)@, cycles) == old(self)@.execute_control(instruction),
            cycles == instruction.ticks,
    {
        reveal(CpuView::execute_control);
        match instruction.itype {
            InstructionType::STOP => {
                let _ = self.fetch_byte();
                self.memory.write(0xff04, 0);
            },
            InstructionType::HALT => {
                if !self.ime && self.pending() != 0 {
                    self.halt_bug = true;
                } else {
                    self.halted = true;
                }
            },
            InstructionType::DI => {
                self.ime = false;
                self.ei_pending = false;
            },
            InstructionType::EI => {
                self.ei_pending = true;
            },
            _ => {},
        }
        instruction.ticks
    }

    fn execute_jump(&mut self, instruction: Instruction) -> (cycles: u8)
        requires
            old(self).wf(),
        ensures
            final(self).wf(),
            (final(self)@, cycles) == old(self)@.execute_jump(instruction),
            cycles == if old(self)@.branches(instruction) {
                instruction.ticks_taken
            } else {
                instruction.ticks
            },
    {
        reveal(CpuView::execute_jump);
        match instruction.itype {
            InstructionType::JR(condition) => {
                if self.holds(condition) {
                    self.jr();
                    return instruction.ticks_taken;
                }
                let _ = self.fetch_byte();
            },
            InstructionType::JUMP(condition) => {
                let taken = self.holds(condition);
                let address = self.fetch_word();
                if taken {
                    self.registers.pc = address;
                    return instruction.ticks_taken;
                }
            },
            InstructionType::JP_HL => {
                self.registers.pc = self.registers.hl();
            },
            InstructionType::CALL(condition) => {
                let taken = self.holds(condition);
                let address = self.fetch_word();
                if taken {
                    let pc = self.registers.pc;
                    self.push_stack(pc);
                    self.registers.pc = address;
                    return instruction.ticks_taken;
                }
            },
            InstructionType::RET(condition) => {
                if self.holds(condition) {
                    self.registers.pc = self.pop_stack();
                    return instruction.ticks_taken;
                }
            },
            InstructionType::RETI => {
                self.registers.pc = self.pop_stack();
                self.ime = true;
            },
            InstructionType::RST(address) => {
                let pc = self.registers.pc;
                self.push_stack(pc);
                self.registers.pc = address;
            },
            _ => {},
        }
        instruction.ticks
    }

    fn execute_load(&mut self, instruction: Instruction) -> (cycles: u8)
        requires
            old(self).wf(),
        ensures
            final(self).wf(),
            (final(self)@, cycles) == old(self)@.execute_load(instruction),
            cycles == instruction.ticks,
    {
        reveal(CpuView::execute_load);
        match instruction.itype {
            InstructionType::LOAD11(target, source) => {
                let value = self.get_value(source);
                self.set_value(target, value);
            },
            InstructionType::LOAD12(target, source) => {
                let address = self.get_value_16(source);
                let value = self.memory.read(address);
                self.set_value(target, value);
            },
            InstructionType::LOAD21(target, source) => {
                let address = self.get_value_16(target);
                let value = self.get_value(source);
                self.memory.write(address, value);
            },
            InstructionType::LDH(action, offset) => {
                let low = self.get_value(offset);
                let address = 0xff00 + low as u16;
                match action {
                    LdAction::SAVE => self.memory.write(address, self.registers.a),
                    LdAction::LOAD => self.registers.a = self.memory.read(address),
                }
            },
            InstructionType::LD(action, operation) => {
                let address = match operation {
                    Operation::INCREMENTATION => self.registers.hli(),
                    Operation::DECREMENTATION => self.registers.hld(),
                };
                match action {
                    LdAction::SAVE => self.memory.write(address, self.registers.a),
                    LdAction::LOAD => self.registers.a = self.memory.read(address),
                }
            },
            InstructionType::LOAD22(target, source) => {
                match target {
                    RegisterTarget16::INSTANT2 => {
                        let address = self.fetch_word();
                        let value = self.get_value_16(source);
                        self.memory.write_word(address, value);
                    },
                    _ => {
                        let value = self.get_value_16(source);
                        self.set_value_16(target, value);
                    },
                }
            },
            InstructionType::LDHL => {
                let offset = self.fetch_byte();
                let value = self.sp_plus(offset);
                self.registers.set_hl(value);
            },
            InstructionType::POP(target) => {
                let value = self.pop_stack();
                self.set_value_16(target, value);
            },
            InstructionType::PUSH(source) => {
                let value = self.get_value_16(source);
                self.push_stack(value);
            },
            _ => {},
        }
        instruction.ticks
    }

    fn execute_arithmetic(&mut self, instruction: Instruction) -> (cycles: u8)
        requires
            old(self).wf(),
        ensures
            final(self).wf(),
            (final(self)@, cycles) == old(self)@.execute_arithmetic(instruction),
            cycles == instruction.ticks,
    {
        reveal(CpuView::execute_arithmetic);
        match instruction.itype {
            InstructionType::ADD(source) => {
                let value = self.get_value(source);
                self.add(value, false);
            },
            InstructionType::ADC(source) => {
                let value = self.get_value(source);
                self.add(value, true);
            },
            InstructionType::SUB(source) => {
                let value = self.get_value(source);
                self.sub(value, false);
            },
            InstructionType::SBC(source) => {
                let value = self.get_value(source);
                self.sub(value, true);
            },
            InstructionType::AND(source) => {
                let value = self.get_value(source);
                self.and(value);
            },
            InstructionType::XOR(source) => {
                let value = self.get_value(source);
                self.xor(value);
            },
            InstructionType::OR(source) => {
                let value = self.get_value(source);
                self.or(value);
            },
            InstructionType::CP(source) => {
                let value = self.get_value(source);
                self.cp(value);
            },
            _ => {},
        }
        instruction.ticks
    }

    fn execute_unary(&mut self, instruction: Instruction) -> (cycles: u8)
        requires
            old(self).wf(),
        ensures
            final(self).wf(),
            (final(self)@, cycles) == old(self)@.execute_unary(instruction),
            cycles == instruction.ticks,
    {
        reveal(CpuView::execute_unary);
        match instruction.itype {
            InstructionType::INC(target) => {
                let value = self.get_value(target);
                let result = self.reg_inc(value);
                self.set_value(target, result);
            },
            InstructionType::DEC(target) => {
                let value = self.get_value(target);
                let result = self.reg_dec(value);
                self.set_value(target, result);
            },
            InstructionType::DAA => self.daa(),
            InstructionType::CPL => self.cpl(),
            InstructionType::SCF => self.scf(),
            InstructionType::CCF => self.ccf(),
            _ => {},
        }
        instruction.ticks
    }

    fn execute_wide(&mut self, instruction: Instruction) -> (cycles: u8)
        requires
            old(self).wf(),
        ensures
            final(self).wf(),
            (final(self)@, cycles) == old(self)@.execute_wide(instruction),
            cycles == instruction.ticks,
    {
        reveal(CpuView::execute_wide);
        match instruction.itype {
            InstructionType::INC2(target) => {
                let value = self.get_value_16(target);
                proof {
                    lemma_wrap16(value + 1);
                }
                self.set_value_16(target, value.wrapping_add(1));
            },
            InstructionType::DEC2(target) => {
                let value = self.get_value_16(target);
                proof {
                    lemma_wrap16(value - 1);
                }
                self.set_value_16(target, value.wrapping_sub(1));
            },
            InstructionType::ADD22(source) => {
                let value = self.get_value_16(source);
                self.add_hl(value);
            },
            InstructionType::ADDSP => {
                let offset = self.fetch_byte();
                let sp = self.sp_plus(offset);
                self.registers.sp = sp;
            },
            _ => {},
        }
        instruction.ticks
    }

    /// Applies the rotation or shift that an instruction of the prefixed
    /// table names.
    fn rotate(&mut self, itype: InstructionType, value: u8) -> (result: u8)
        ensures
            result == old(self)@.rotated(itype, value).0,
            final(self)@ == old(self)@.with_registers(
                old(self).registers.spec_shifted(result, old(self)@.rotated(itype, value).1),
            ),
            final(self).registers.wf(),
    {
        reveal(CpuView::rotated);
        match itype {
            InstructionType::RLC(_) => self.rlc(value),
            InstructionType::RRC(_) => self.rrc(value),
            InstructionType::RL(_) => self.rl(value),
            InstructionType::RR(_) => self.rr(value),
            InstructionType::SLA(_) => self.sla(value),
            InstructionType::SRA(_) => self.sra(value),
            InstructionType::SWAP(_) => self.swap(value),
            _ => self.srl(value),
        }
    }

    fn execute_rotate_a(&mut self, instruction: Instruction) -> (cycles: u8)
        requires
            old(self).wf(),
        ensures
            final(self).wf(),
            (final(self)@, cycles) == old(self)@.execute_rotate_a(instruction),
            cycles == instruction.ticks,
    {
        reveal(CpuView::execute_rotate_a);
        reveal(Registers::spec_shifted);
        match instruction.itype {
            InstructionType::RLCA => {
                let value = self.registers.a;
                let result = self.rlc(value);
                self.registers.a = result;
                self.set_flags(false, false, false, value & 0x80 != 0);
            },
            InstructionType::RRCA => {
                let value = self.registers.a;
                let result = self.rrc(value);
                self.registers.a = result;
                self.set_flags(false, false, false, value & 0x01 != 0);
            },
            InstructionType::RLA => {
                let value = self.registers.a;
                let result = self.rl(value);
                self.registers.a = result;
                self.set_flags(false, false, false, value & 0x80 != 0);
            },
            InstructionType::RRA => {
                let value = self.registers.a;
                let result = self.rr(value);
                self.registers.a = result;
                self.set_flags(false, false, false, value & 0x01 != 0);
            },
            _ => {},
        }
        instruction.ticks
    }

    fn execute_rotate(&mut self, instruction: Instruction) -> (cycles: u8)
        requires
            old(self).wf(),
        ensures
            final(self).wf(),
            (final(self)@, cycles) == old(self)@.execute_rotate(instruction),
            cycles == instruction.ticks,
    {
        reveal(CpuView::execute_rotate);
        match instruction.itype {
            InstructionType::RLC(target)
            | InstructionType::RRC(target)
            | InstructionType::RL(target)
            | InstructionType::RR(target)
            | InstructionType::SLA(target)
            | InstructionType::SRA(target)
            | InstructionType::SWAP(target)
            | InstructionType::SRL(target) => {
                let value = self.get_value(target);
                let result = self.rotate(instruction.itype, value);
                self.set_value(target, result);
            },
            _ => {},
        }
        instruction.ticks
    }

    fn execute_bits(&mut self, instruction: Instruction) -> (cycles: u8)
        requires
            old(self).wf(),
            instruction.wf(),
        ensures
            final(self).wf(),
            (final(self)@, cycles) == old(self)@.execute_bits(instruction),
            cycles == instruction.ticks,
    {
        reveal(CpuView::execute_bits);
        match instruction.itype {
            InstructionType::BIT(bit, target) => {
                let value = self.get_value(target);
                self.bit(value, bit);
            },
            InstructionType::RES(bit, target) => {
                let value = self.get_value(target);
                let result = self.res(value, bit);
                self.set_value(target, result);
            },
            InstructionType::SET(bit, target) => {
                let value = self.get_value(target);
                let result = self.set(value, bit);
                self.set_value(target, result);
            },
            _ => {},
        }
        instruction.ticks
    }

    /// Runs an instruction whose opcode has been fetched. Returns the
    /// clock cycles it took: those of the table, and for a conditional
    /// jump, call or return the longer timing exactly when its condition
    /// held.
    pub fn execute(&mut self, instruction: Instruction) -> (cycles: u8)
        requires
            old(self).wf(),
            instruction.wf(),
        ensures
            final(self).wf(),
            (final(self)@, cycles) == old(self)@.execute(instruction),
            cycles == if old(self)@.branches(instruction) {
                instruction.ticks_taken
            } else {
                instruction.ticks
            },
    {
        match instruction.itype {
            InstructionType::NOP
            | InstructionType::STOP
            | InstructionType::HALT
            | InstructionType::PREFIX_CB
            | InstructionType::DI
            | InstructionType::EI
            | InstructionType::ILLEGAL => self.execute_control(instruction),
            InstructionType::JR(_)
            | InstructionType::JUMP(_)
            | InstructionType::JP_HL
            | InstructionType::CALL(_)
            | InstructionType::RET(_)
            | InstructionType::RETI
            | InstructionType::RST(_) => self.execute_jump(instruction),
            InstructionType::LOAD11(_, _)
            | InstructionType::LOAD12(_, _)
            | InstructionType::LOAD21(_, _)
            | InstructionType::LDH(_, _)
            | InstructionType::LD(_, _)
            | InstructionType::LOAD22(_, _)
            | InstructionType::LDHL
            | InstructionType::POP(_)
            | InstructionType::PUSH(_) => self.execute_load(instruction),
            InstructionType::ADD(_)
            | InstructionType::ADC(_)
            | InstructionType::SUB(_)
            | InstructionType::SBC(_)
            | InstructionType::AND(_)
            | InstructionType::XOR(_)
            | InstructionType::OR(_)
            | InstructionType::CP(_) => self.execute_arithmetic(instruction),
            InstructionType::INC(_)
            | InstructionType::DEC(_)
            | InstructionType::DAA
            | InstructionType::CPL
            | InstructionType::SCF
            | InstructionType::CCF => self.execute_unary(instruction),
            InstructionType::INC2(_)
            | InstructionType::DEC2(_)
            | InstructionType::ADD22(_)
            | InstructionType::ADDSP => self.execute_wide(instruction),
            InstructionType::RLCA
            | InstructionType::RRCA
            | InstructionType::RLA
            | InstructionType::RRA => self.execute_rotate_a(instruction),
            InstructionType::RLC(_)
            | InstructionType::RRC(_)
            | InstructionType::RL(_)
            | InstructionType::RR(_)
            | InstructionType::SLA(_)
            | InstructionType::SRA(_)
            | InstructionType::SWAP(_)
            | InstructionType::SRL(_) => self.execute_rotate(instruction),
            _ => self.execute_bits(instruction),
        }
    }
}

} // verus!
