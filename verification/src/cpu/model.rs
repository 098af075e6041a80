//! The processor as mathematics: what each instruction does to the
//! registers and to the bus, and how many clock cycles it takes.
use vstd::prelude::*;
use crate::alu::{spec_rotate_left, spec_rotate_right, spec_swap, spec_res, spec_set};
use crate::bits::{wrap8, wrap16, sign_extend};
use crate::error::IllegalOpcode;
use crate::instruction::{Instruction, InstructionType, JumpCondition, LdAction, Operation,
    RegisterTarget, RegisterTarget16};
use crate::memory::MemoryView;
use crate::registers::{Flag, Registers};

verus! {

/// The state of the machine: the processor's registers and flags, and the
/// bus with every device on it.
pub struct CpuView {
    pub registers: Registers,
    pub memory: MemoryView,
    /// `IME`, the master interrupt enable.
    pub ime: bool,
    /// `EI` was the last instruction: `IME` is set once the next
    /// instruction has been looked at for interrupts.
    pub ei_pending: bool,
    /// `HALT` has stopped the processor until an interrupt is requested.
    pub halted: bool,
    /// `HALT` met a pending interrupt with `IME` clear: the next opcode is
    /// fetched without moving `PC`.
    pub halt_bug: bool,
    /// The undefined opcode that stopped the processor.
    pub fault: Option<IllegalOpcode>,
}

/// The lowest set bit of a non-zero set of interrupt requests: the one
/// that is served first.
pub open spec fn spec_first_request(pending: u8) -> u8 {
    if pending & 0x01 != 0 {
        0x01
    } else if pending & 0x02 != 0 {
        0x02
    } else if pending & 0x04 != 0 {
        0x04
    } else if pending & 0x08 != 0 {
        0x08
    } else {
        0x10
    }
}

/// The address of the handler of an interrupt request bit: VBlank `40`,
/// LCD STAT `48`, timer `50`, serial `58`, joypad `60`.
pub open spec fn spec_interrupt_vector(request: u8) -> u16 {
    if request == 0x01 {
        0x40
    } else if request == 0x02 {
        0x48
    } else if request == 0x04 {
        0x50
    } else if request == 0x08 {
        0x58
    } else {
        0x60
    }
}

impl CpuView {
    pub open spec fn wf(self) -> bool {
        &&& self.registers.wf()
        &&& self.memory.wf()
    }

    pub open spec fn with_registers(self, registers: Registers) -> CpuView {
        CpuView { registers, ..self }
    }

    pub open spec fn with_memory(self, memory: MemoryView) -> CpuView {
        CpuView { memory, ..self }
    }

    pub open spec fn with_pc(self, pc: u16) -> CpuView {
        CpuView { registers: Registers { pc, ..self.registers }, ..self }
    }

    pub open spec fn with_sp(self, sp: u16) -> CpuView {
        CpuView { registers: Registers { sp, ..self.registers }, ..self }
    }

    pub open spec fn with_a(self, a: u8) -> CpuView {
        CpuView { registers: Registers { a, ..self.registers }, ..self }
    }

    /// The bus after a byte is written.
    pub open spec fn write(self, address: u16, value: u8) -> CpuView {
        CpuView { memory: self.memory.write(address, value), ..self }
    }

    /// The byte at `PC`, and the processor with `PC` moved past it.
    pub open spec fn fetch_byte(self) -> (u8, CpuView) {
        (self.memory.read(self.registers.pc), self.with_pc(wrap16(self.registers.pc + 1)))
    }

    /// The word at `PC`, and the processor with `PC` moved past it.
    pub open spec fn fetch_word(self) -> (u16, CpuView) {
        (self.memory.read_word(self.registers.pc), self.with_pc(wrap16(self.registers.pc + 2)))
    }

    /// The processor after a word is pushed: `SP` goes down by two and the
    /// word lies at the new `SP`, low byte first.
    pub open spec fn push_stack(self, value: u16) -> CpuView {
        let sp = wrap16(self.registers.sp - 2);
        CpuView { memory: self.memory.write_word(sp, value), ..self.with_sp(sp) }
    }

    /// The word at `SP`, and the processor with `SP` moved up by two.
    pub open spec fn pop_stack(self) -> (u16, CpuView) {
        (self.memory.read_word(self.registers.sp), self.with_sp(wrap16(self.registers.sp + 2)))
    }

    /// The value of an 8-bit operand, and the processor after it is read:
    /// reading the byte that follows the opcode moves `PC`.
    #[verifier::opaque]
    pub open spec fn get(self, target: RegisterTarget) -> (u8, CpuView) {
        match target {
            RegisterTarget::A => (self.registers.a, self),
            RegisterTarget::B => (self.registers.b, self),
            RegisterTarget::C => (self.registers.c, self),
            RegisterTarget::D => (self.registers.d, self),
            RegisterTarget::E => (self.registers.e, self),
            RegisterTarget::H => (self.registers.h, self),
            RegisterTarget::L => (self.registers.l, self),
            RegisterTarget::_HL => (self.memory.read(self.registers.spec_hl()), self),
            RegisterTarget::INSTANT => self.fetch_byte(),
        }
    }

    /// The processor after an 8-bit operand is written. Nothing can be
    /// written to the byte that follows the opcode.
    #[verifier::opaque]
    pub open spec fn set(self, target: RegisterTarget, value: u8) -> CpuView {
        match target {
            RegisterTarget::A => self.with_registers(Registers { a: value, ..self.registers }),
            RegisterTarget::B => self.with_registers(Registers { b: value, ..self.registers }),
            RegisterTarget::C => self.with_registers(Registers { c: value, ..self.registers }),
            RegisterTarget::D => self.with_registers(Registers { d: value, ..self.registers }),
            RegisterTarget::E => self.with_registers(Registers { e: value, ..self.registers }),
            RegisterTarget::H => self.with_registers(Registers { h: value, ..self.registers }),
            RegisterTarget::L => self.with_registers(Registers { l: value, ..self.registers }),
            RegisterTarget::_HL => self.write(self.registers.spec_hl(), value),
            RegisterTarget::INSTANT => self,
        }
    }

    /// The value of a 16-bit operand, and the processor after it is read.
    #[verifier::opaque]
    pub open spec fn get16(self, target: RegisterTarget16) -> (u16, CpuView) {
        match target {
            RegisterTarget16::BC => (self.registers.spec_bc(), self),
            RegisterTarget16::DE => (self.registers.spec_de(), self),
            RegisterTarget16::HL => (self.registers.spec_hl(), self),
            RegisterTarget16::SP => (self.registers.sp, self),
            RegisterTarget16::AF => (self.registers.spec_af(), self),
            RegisterTarget16::INSTANT2 => self.fetch_word(),
        }
    }

    /// The processor after a 16-bit operand is written. A write to `AF`
    /// clears the low nibble of `F`.
    #[verifier::opaque]
    pub open spec fn set16(self, target: RegisterTarget16, value: u16) -> CpuView {
        match target {
            RegisterTarget16::BC => self.with_registers(self.registers.with_bc(value)),
            RegisterTarget16::DE => self.with_registers(self.registers.with_de(value)),
            RegisterTarget16::HL => self.with_registers(self.registers.with_hl(value)),
            RegisterTarget16::SP => self.with_sp(value),
            RegisterTarget16::AF => self.with_registers(self.registers.with_af(value)),
            RegisterTarget16::INSTANT2 => self,
        }
    }

    /// Whether a jump condition holds.
    pub open spec fn holds(self, condition: JumpCondition) -> bool {
        match condition {
            JumpCondition::NZ => !self.registers.spec_get_flag(Flag::Zero),
            JumpCondition::Z => self.registers.spec_get_flag(Flag::Zero),
            JumpCondition::NC => !self.registers.spec_get_flag(Flag::Carry),
            JumpCondition::C => self.registers.spec_get_flag(Flag::Carry),
            JumpCondition::NONE => true,
        }
    }

    /// Whether the instruction is a jump, call or return whose condition
    /// holds.
    pub open spec fn branches(self, i: Instruction) -> bool {
        match i.itype {
            InstructionType::JR(condition) => self.holds(condition),
            InstructionType::JUMP(condition) => self.holds(condition),
            InstructionType::CALL(condition) => self.holds(condition),
            InstructionType::RET(condition) => self.holds(condition),
            _ => false,
        }
    }

    /// `JR`: the signed byte at `PC` is added to the address that follows
    /// it.
    pub open spec fn jr(self) -> CpuView {
        let (offset, next) = self.fetch_byte();
        next.with_pc(wrap16(next.registers.pc + sign_extend(offset)))
    }

    /// The interrupt requests that are enabled.
    pub open spec fn pending(self) -> u8 {
        self.memory.interrupt_flags & self.memory.interrupt_enable & 0x1f
    }

    /// The processor after it has entered a handler: `PC` is pushed and
    /// replaced.
    pub open spec fn call_interrupt(self, address: u16) -> CpuView {
        self.push_stack(self.registers.pc).with_pc(address)
    }

    /// The processor after it has taken the first pending interrupt: the
    /// request is cleared in `IF`, `IME` is cleared, and the handler is
    /// entered. With nothing pending, nothing happens.
    pub open spec fn handle_interrupts(self) -> CpuView {
        if self.pending() == 0 {
            self
        } else {
            let request = spec_first_request(self.pending());
            let entered = self.call_interrupt(spec_interrupt_vector(request));
            CpuView {
                ime: false,
                ..entered.write(0xff0f, self.memory.interrupt_flags & !request)
            }
        }
    }

    /// What a rotation or shift of the prefixed table makes of a value:
    /// the result and the bit moved out.
    #[verifier::opaque]
    pub open spec fn rotated(self, itype: InstructionType, value: u8) -> (u8, bool) {
        match itype {
            InstructionType::RLC(_) => (spec_rotate_left(value), value & 0x80 != 0),
            InstructionType::RRC(_) => (spec_rotate_right(value), value & 0x01 != 0),
            InstructionType::RL(_) => (self.registers.spec_rl(value), value & 0x80 != 0),
            InstructionType::RR(_) => (self.registers.spec_rr(value), value & 0x01 != 0),
            InstructionType::SLA(_) => (value << 1, value & 0x80 != 0),
            InstructionType::SRA(_) => ((value >> 1) | (value & 0x80), value & 0x01 != 0),
            InstructionType::SWAP(_) => (spec_swap(value), false),
            _ => (value >> 1, value & 0x01 != 0),
        }
    }

    /// Control instructions.
    #[verifier::opaque]
    pub open spec fn execute_control(self, i: Instruction) -> (CpuView, u8) {
        match i.itype {
            InstructionType::STOP => {
                let (_, next) = self.fetch_byte();
                (next.write(0xff04, 0), i.ticks)
            },
            InstructionType::HALT => if !self.ime && self.pending() != 0 {
                (CpuView { halt_bug: true, ..self }, i.ticks)
            } else {
                (CpuView { halted: true, ..self }, i.ticks)
            },
            InstructionType::DI => (CpuView { ime: false, ei_pending: false, ..self }, i.ticks),
            InstructionType::EI => (CpuView { ei_pending: true, ..self }, i.ticks),
            _ => (self, i.ticks),
        }
    }

    /// Jumps, calls and returns. A conditional one takes the longer timing
    /// when its condition holds.
    #[verifier::opaque]
    pub open spec fn execute_jump(self, i: Instruction) -> (CpuView, u8) {
        match i.itype {
            InstructionType::JR(condition) => if self.holds(condition) {
                (self.jr(), i.ticks_taken)
            } else {
                (self.fetch_byte().1, i.ticks)
            },
            InstructionType::JUMP(condition) => {
                let (address, next) = self.fetch_word();
                if self.holds(condition) {
                    (next.with_pc(address), i.ticks_taken)
                } else {
                    (next, i.ticks)
                }
            },
            InstructionType::JP_HL => (self.with_pc(self.registers.spec_hl()), i.ticks),
            InstructionType::CALL(condition) => {
                let (address, next) = self.fetch_word();
                if self.holds(condition) {
                    (next.push_stack(next.registers.pc).with_pc(address), i.ticks_taken)
                } else {
                    (next, i.ticks)
                }
            },
            InstructionType::RET(condition) => if self.holds(condition) {
                let (address, next) = self.pop_stack();
                (next.with_pc(address), i.ticks_taken)
            } else {
                (self, i.ticks)
            },
            InstructionType::RETI => {
                let (address, next) = self.pop_stack();
                (CpuView { ime: true, ..next.with_pc(address) }, i.ticks)
            },
            InstructionType::RST(address) => (
                self.push_stack(self.registers.pc).with_pc(address),
                i.ticks,
            ),
            _ => (self, i.ticks),
        }
    }

    /// Loads.
    #[verifier::opaque]
    pub open spec fn execute_load(self, i: Instruction) -> (CpuView, u8) {
        match i.itype {
            InstructionType::LOAD11(target, source) => {
                let (value, next) = self.get(source);
                (next.set(target, value), i.ticks)
            },
            InstructionType::LOAD12(target, source) => {
                let (address, next) = self.get16(source);
                (next.set(target, next.memory.read(address)), i.ticks)
            },
            InstructionType::LOAD21(target, source) => {
                let (address, next) = self.get16(target);
                let (value, last) = next.get(source);
                (last.write(address, value), i.ticks)
            },
            InstructionType::LDH(action, offset) => {
                let (low, next) = self.get(offset);
                let address = (0xff00 + low) as u16;
                match action {
                    LdAction::SAVE => (next.write(address, next.registers.a), i.ticks),
                    LdAction::LOAD => (next.with_a(next.memory.read(address)), i.ticks),
                }
            },
            InstructionType::LD(action, operation) => {
                let address = self.registers.spec_hl();
                let moved = self.with_registers(
                    self.registers.with_hl(
                        match operation {
                            Operation::INCREMENTATION => wrap16(address + 1),
                            Operation::DECREMENTATION => wrap16(address - 1),
                        },
                    ),
                );
                match action {
                    LdAction::SAVE => (moved.write(address, moved.registers.a), i.ticks),
                    LdAction::LOAD => (moved.with_a(moved.memory.read(address)), i.ticks),
                }
            },
            InstructionType::LOAD22(target, source) => {
                if target == RegisterTarget16::INSTANT2 {
                    let (address, next) = self.fetch_word();
                    let (value, last) = next.get16(source);
                    (last.with_memory(last.memory.write_word(address, value)), i.ticks)
                } else {
                    let (value, next) = self.get16(source);
                    (next.set16(target, value), i.ticks)
                }
            },
            InstructionType::LDHL => {
                let (offset, next) = self.fetch_byte();
                (
                    next.with_registers(
                        next.registers.spec_sp_flags(offset).with_hl(
                            next.registers.spec_sp_plus(offset),
                        ),
                    ),
                    i.ticks,
                )
            },
            InstructionType::POP(target) => {
                let (value, next) = self.pop_stack();
                (next.set16(target, value), i.ticks)
            },
            InstructionType::PUSH(source) => {
                let (value, next) = self.get16(source);
                (next.push_stack(value), i.ticks)
            },
            _ => (self, i.ticks),
        }
    }

    /// 8-bit arithmetic and logic on the accumulator.
    #[verifier::opaque]
    pub open spec fn execute_arithmetic(self, i: Instruction) -> (CpuView, u8) {
        match i.itype {
            InstructionType::ADD(source) => {
                let (value, next) = self.get(source);
                (next.with_registers(next.registers.spec_add(value, false)), i.ticks)
            },
            InstructionType::ADC(source) => {
                let (value, next) = self.get(source);
                (next.with_registers(next.registers.spec_add(value, true)), i.ticks)
            },
            InstructionType::SUB(source) => {
                let (value, next) = self.get(source);
                (next.with_registers(next.registers.spec_sub(value, false)), i.ticks)
            },
            InstructionType::SBC(source) => {
                let (value, next) = self.get(source);
                (next.with_registers(next.registers.spec_sub(value, true)), i.ticks)
            },
            InstructionType::AND(source) => {
                let (value, next) = self.get(source);
                (next.with_registers(next.registers.spec_and(value)), i.ticks)
            },
            InstructionType::XOR(source) => {
                let (value, next) = self.get(source);
                (next.with_registers(next.registers.spec_xor(value)), i.ticks)
            },
            InstructionType::OR(source) => {
                let (value, next) = self.get(source);
                (next.with_registers(next.registers.spec_or(value)), i.ticks)
            },
            InstructionType::CP(source) => {
                let (value, next) = self.get(source);
                (next.with_registers(next.registers.spec_cp(value)), i.ticks)
            },
            _ => (self, i.ticks),
        }
    }

    /// Increment, decrement and the adjustments of the accumulator and
    /// of the carry flag.
    #[verifier::opaque]
    pub open spec fn execute_unary(self, i: Instruction) -> (CpuView, u8) {
        match i.itype {
            InstructionType::INC(target) => {
                let (value, next) = self.get(target);
                (
                    next.with_registers(next.registers.spec_inc(value)).set(
                        target,
                        wrap8(value + 1),
                    ),
                    i.ticks,
                )
            },
            InstructionType::DEC(target) => {
                let (value, next) = self.get(target);
                (
                    next.with_registers(next.registers.spec_dec(value)).set(
                        target,
                        wrap8(value - 1),
                    ),
                    i.ticks,
                )
            },
            InstructionType::DAA => (self.with_registers(self.registers.spec_daa()), i.ticks),
            InstructionType::CPL => (self.with_registers(self.registers.spec_cpl()), i.ticks),
            InstructionType::SCF => (self.with_registers(self.registers.spec_scf()), i.ticks),
            InstructionType::CCF => (self.with_registers(self.registers.spec_ccf()), i.ticks),
            _ => (self, i.ticks),
        }
    }

    /// 16-bit arithmetic.
    #[verifier::opaque]
    pub open spec fn execute_wide(self, i: Instruction) -> (CpuView, u8) {
        match i.itype {
            InstructionType::INC2(target) => {
                let (value, next) = self.get16(target);
                (next.set16(target, wrap16(value + 1)), i.ticks)
            },
            InstructionType::DEC2(target) => {
                let (value, next) = self.get16(target);
                (next.set16(target, wrap16(value - 1)), i.ticks)
            },
            InstructionType::ADD22(source) => {
                let (value, next) = self.get16(source);
                (next.with_registers(next.registers.spec_add_hl(value)), i.ticks)
            },
            InstructionType::ADDSP => {
                let (offset, next) = self.fetch_byte();
                (
                    next.with_registers(next.registers.spec_sp_flags(offset)).with_sp(
                        next.registers.spec_sp_plus(offset),
                    ),
                    i.ticks,
                )
            },
            _ => (self, i.ticks),
        }
    }

    /// The four rotations of the accumulator, which clear the zero flag
    /// whatever the result.
    #[verifier::opaque]
    pub open spec fn execute_rotate_a(self, i: Instruction) -> (CpuView, u8) {
        match i.itype {
            InstructionType::RLCA => {
                let value = self.registers.a;
                (
                    self.with_registers(
                        self.registers.with_flags(false, false, false, value & 0x80 != 0),
                    ).with_a(spec_rotate_left(value)),
                    i.ticks,
                )
            },
            InstructionType::RRCA => {
                let value = self.registers.a;
                (
                    self.with_registers(
                        self.registers.with_flags(false, false, false, value & 0x01 != 0),
                    ).with_a(spec_rotate_right(value)),
                    i.ticks,
                )
            },
            InstructionType::RLA => {
                let value = self.registers.a;
                (
                    self.with_registers(
                        self.registers.with_flags(false, false, false, value & 0x80 != 0),
                    ).with_a(self.registers.spec_rl(value)),
                    i.ticks,
                )
            },
            InstructionType::RRA => {
                let value = self.registers.a;
                (
                    self.with_registers(
                        self.registers.with_flags(false, false, false, value & 0x01 != 0),
                    ).with_a(self.registers.spec_rr(value)),
                    i.ticks,
                )
            },
            _ => (self, i.ticks),
        }
    }

    /// The rotations and shifts of the prefixed table.
    #[verifier::opaque]
    pub open spec fn execute_rotate(self, i: Instruction) -> (CpuView, u8) {
        match i.itype {
            InstructionType::RLC(target) | InstructionType::RRC(target) | InstructionType::RL(
                target,
            ) | InstructionType::RR(target) | InstructionType::SLA(target) | InstructionType::SRA(
                target,
            ) | InstructionType::SWAP(target) | InstructionType::SRL(target) => {
                let (value, next) = self.get(target);
                let (result, carry) = next.rotated(i.itype, value);
                (
                    next.with_registers(next.registers.spec_shifted(result, carry)).set(
                        target,
                        result,
                    ),
                    i.ticks,
                )
            },
            _ => (self, i.ticks),
        }
    }

    /// The single-bit instructions of the prefixed table.
    #[verifier::opaque]
    pub open spec fn execute_bits(self, i: Instruction) -> (CpuView, u8) {
        match i.itype {
            InstructionType::BIT(bit, target) => {
                let (value, next) = self.get(target);
                (next.with_registers(next.registers.spec_bit(value, bit)), i.ticks)
            },
            InstructionType::RES(bit, target) => {
                let (value, next) = self.get(target);
                (next.set(target, spec_res(value, bit)), i.ticks)
            },
            InstructionType::SET(bit, target) => {
                let (value, next) = self.get(target);
                (next.set(target, spec_set(value, bit)), i.ticks)
            },
            _ => (self, i.ticks),
        }
    }

    /// The processor after an instruction whose opcode has been fetched,
    /// and the clock cycles that the instruction took.
    pub open spec fn execute(self, i: Instruction) -> (CpuView, u8) {
        match i.itype {
            InstructionType::NOP | InstructionType::STOP | InstructionType::HALT
            | InstructionType::PREFIX_CB | InstructionType::DI | InstructionType::EI
            | InstructionType::ILLEGAL => self.execute_control(i),
            InstructionType::JR(_) | InstructionType::JUMP(_) | InstructionType::JP_HL
            | InstructionType::CALL(_) | InstructionType::RET(_) | InstructionType::RETI
            | InstructionType::RST(_) => self.execute_jump(i),
            InstructionType::LOAD11(_, _) | InstructionType::LOAD12(_, _)
            | InstructionType::LOAD21(_, _) | InstructionType::LDH(_, _) | InstructionType::LD(
                _,
                _,
            ) | InstructionType::LOAD22(_, _) | InstructionType::LDHL | InstructionType::POP(_)
            | InstructionType::PUSH(_) => self.execute_load(i),
            InstructionType::ADD(_) | InstructionType::ADC(_) | InstructionType::SUB(_)
            | InstructionType::SBC(_) | InstructionType::AND(_) | InstructionType::XOR(_)
            | InstructionType::OR(_) | InstructionType::CP(_) => self.execute_arithmetic(i),
            InstructionType::INC(_) | InstructionType::DEC(_) | InstructionType::DAA
            | InstructionType::CPL | InstructionType::SCF | InstructionType::CCF =>
                self.execute_unary(i),
            InstructionType::INC2(_) | InstructionType::DEC2(_) | InstructionType::ADD22(_)
            | InstructionType::ADDSP => self.execute_wide(i),
            InstructionType::RLCA | InstructionType::RRCA | InstructionType::RLA
            | InstructionType::RRA => self.execute_rotate_a(i),
            InstructionType::RLC(_) | InstructionType::RRC(_) | InstructionType::RL(_)
            | InstructionType::RR(_) | InstructionType::SLA(_) | InstructionType::SRA(_)
            | InstructionType::SWAP(_) | InstructionType::SRL(_) => self.execute_rotate(i),
            _ => self.execute_bits(i),
        }
    }

    /// The processor after the instruction of the prefixed table at `PC`.
    pub open spec fn cb_call(self) -> (CpuView, u8) {
        let (opcode, next) = self.fetch_byte();
        next.execute(Instruction::decode_cb(opcode))
    }

    /// The processor after the instruction at `PC`. An undefined opcode
    /// is recorded with its address, and `PC` stays on it.
    pub open spec fn call(self) -> (CpuView, u8) {
        let opcode = self.memory.read(self.registers.pc);
        let next = CpuView {
            halt_bug: false,
            ..if self.halt_bug {
                self
            } else {
                self.with_pc(wrap16(self.registers.pc + 1))
            }
        };
        let i = Instruction::decode(opcode);
        match i.itype {
            InstructionType::ILLEGAL => (
                CpuView {
                    fault: Some(IllegalOpcode { opcode, pc: self.registers.pc }),
                    halt_bug: false,
                    ..self
                },
                i.ticks,
            ),
            InstructionType::PREFIX_CB => next.cb_call(),
            _ => next.execute(i),
        }
    }

    /// The clock cycles that the instruction at `PC` takes: those that
    /// the table gives its opcode, and for a conditional jump, call or
    /// return the longer timing exactly when the condition holds.
    pub open spec fn timing(self) -> u8 {
        let i = Instruction::decode(self.memory.read(self.registers.pc));
        if i.itype == InstructionType::PREFIX_CB {
            let second = if self.halt_bug {
                self.registers.pc
            } else {
                wrap16(self.registers.pc + 1)
            };
            Instruction::decode_cb(self.memory.read(second)).ticks
        } else if self.branches(i) {
            i.ticks_taken
        } else {
            i.ticks
        }
    }

    /// One step of the processor alone. A stopped processor lets four
    /// cycles pass; so does a halted one while nothing is pending. An
    /// enabled pending interrupt is taken in place of an instruction and
    /// costs twenty cycles. Otherwise the instruction at `PC` runs, with
    /// `IME` set first if `EI` came before it.
    pub open spec fn cycle(self) -> (CpuView, u8) {
        if self.fault.is_some() {
            (self, 4)
        } else if self.halted && self.pending() == 0 {
            (self, 4)
        } else {
            let awake = CpuView { halted: false, ..self };
            if awake.ime && awake.pending() != 0 {
                (awake.handle_interrupts(), 20)
            } else if awake.ei_pending {
                (CpuView { ime: true, ei_pending: false, ..awake }).call()
            } else {
                awake.call()
            }
        }
    }

    /// One step of the machine: a step of the processor, then the devices
    /// advance by as many cycles as it took.
    pub open spec fn step(self) -> (CpuView, u8) {
        let (next, cycles) = self.cycle();
        (next.with_memory(next.memory.step(cycles)), cycles)
    }
}

} // verus!
