//! The two opcode tables of the LR35902: what each opcode byte means and
//! how many clock cycles it takes.
use vstd::prelude::*;

verus! {

/// An 8-bit operand: a register, the byte that `HL` points at, or the
/// byte that follows the opcode.
#[allow(non_camel_case_types)]
#[derive(Debug, Clone, Copy, PartialEq, Eq)]
pub enum RegisterTarget {
    A,
    B,
    C,
    D,
    E,
    H,
    L,
    _HL,
    INSTANT,
}

/// Which way a load between `A` and memory goes.
#[derive(Debug, Clone, Copy, PartialEq, Eq)]
pub enum LdAction {
    /// `A` is stored to memory.
    SAVE,
    /// `A` is loaded from memory.
    LOAD,
}

/// What a load through `HL` does to `HL` afterwards.
#[derive(Debug, Clone, Copy, PartialEq, Eq)]
pub enum Operation {
    INCREMENTATION,
    DECREMENTATION,
}

/// A 16-bit operand: a register pair, or the word that follows the opcode.
#[derive(Debug, Clone, Copy, PartialEq, Eq)]
pub enum RegisterTarget16 {
    BC,
    DE,
    HL,
    SP,
    AF,
    INSTANT2,
}

/// The condition of a jump, call or return; `NONE` always holds.
#[derive(Debug, Clone, Copy, PartialEq, Eq)]
pub enum JumpCondition {
    NZ,
    Z,
    NC,
    C,
    NONE,
}

/// The instructions of the processor, each with its operands.
#[allow(non_camel_case_types)]
#[derive(Debug, Clone, Copy, PartialEq, Eq)]
pub enum InstructionType {
    // Control
    NOP,
    STOP,
    HALT,
    PREFIX_CB,
    DI,
    EI,
    // Jumps, calls and returns
    JR(JumpCondition),
    JUMP(JumpCondition),
    JP_HL,
    CALL(JumpCondition),
    RET(JumpCondition),
    RETI,
    RST(u16),
    // 8-bit loads
    /// `LD target, source` between 8-bit operands.
    LOAD11(RegisterTarget, RegisterTarget),
    /// `LD r, (rr)`: the register is loaded from the address that the
    /// 16-bit operand gives.
    LOAD12(RegisterTarget, RegisterTarget16),
    /// `LD (rr), r`: the register is stored at the address that the 16-bit
    /// operand gives.
    LOAD21(RegisterTarget16, RegisterTarget),
    /// A load between `A` and `FF00` plus the 8-bit operand.
    LDH(LdAction, RegisterTarget),
    /// A load between `A` and `(HL)` that then moves `HL`.
    LD(LdAction, Operation),
    // 16-bit loads
    /// `LD target, source` between 16-bit operands; with the following
    /// word as target, the source is stored at that address.
    LOAD22(RegisterTarget16, RegisterTarget16),
    /// `LD HL, SP+e8`.
    LDHL,
    POP(RegisterTarget16),
    PUSH(RegisterTarget16),
    // 8-bit arithmetic and logic
    INC(RegisterTarget),
    DEC(RegisterTarget),
    ADD(RegisterTarget),
    ADC(RegisterTarget),
    SUB(RegisterTarget),
    SBC(RegisterTarget),
    AND(RegisterTarget),
    XOR(RegisterTarget),
    OR(RegisterTarget),
    CP(RegisterTarget),
    DAA,
    CPL,
    SCF,
    CCF,
    // 16-bit arithmetic
    INC2(RegisterTarget16),
    DEC2(RegisterTarget16),
    /// `ADD HL, rr`.
    ADD22(RegisterTarget16),
    /// `ADD SP, e8`.
    ADDSP,
    // Rotations of the accumulator
    RLCA,
    RRCA,
    RLA,
    RRA,
    // The prefixed table
    RLC(RegisterTarget),
    RRC(RegisterTarget),
    RL(RegisterTarget),
    RR(RegisterTarget),
    SLA(RegisterTarget),
    SRA(RegisterTarget),
    SWAP(RegisterTarget),
    SRL(RegisterTarget),
    BIT(u8, RegisterTarget),
    RES(u8, RegisterTarget),
    SET(u8, RegisterTarget),
    /// One of the eleven opcodes that the processor does not define.
    ILLEGAL,
}

/// What an opcode means and what it costs.
#[derive(Debug, Clone, Copy, PartialEq, Eq)]
pub struct Instruction {
    /// Clock cycles; for a conditional jump, call or return, the cycles
    /// when the condition does not hold.
    pub ticks: u8,
    /// Clock cycles of a conditional jump, call or return when the
    /// condition holds; the same as `ticks` for every other instruction.
    pub ticks_taken: u8,
    pub itype: InstructionType,
}

/// The 8-bit operand that three bits of an opcode select.
pub open spec fn operand(index: int) -> RegisterTarget {
    if index == 0 {
        RegisterTarget::B
    } else if index == 1 {
        RegisterTarget::C
    } else if index == 2 {
        RegisterTarget::D
    } else if index == 3 {
        RegisterTarget::E
    } else if index == 4 {
        RegisterTarget::H
    } else if index == 5 {
        RegisterTarget::L
    } else if index == 6 {
        RegisterTarget::_HL
    } else {
        RegisterTarget::A
    }
}

/// The register pair that two bits of an opcode select; the last is `SP`,
/// or `AF` for `PUSH` and `POP`.
pub open spec fn pair(index: int, stack: bool) -> RegisterTarget16 {
    if index == 0 {
        RegisterTarget16::BC
    } else if index == 1 {
        RegisterTarget16::DE
    } else if index == 2 {
        RegisterTarget16::HL
    } else if stack {
        RegisterTarget16::AF
    } else {
        RegisterTarget16::SP
    }
}

/// The condition that two bits of an opcode select.
pub open spec fn condition(index: int) -> JumpCondition {
    if index == 0 {
        JumpCondition::NZ
    } else if index == 1 {
        JumpCondition::Z
    } else if index == 2 {
        JumpCondition::NC
    } else {
        JumpCondition::C
    }
}

/// The arithmetic or logic operation on `A` that three bits of an opcode
/// select.
pub open spec fn arithmetic(index: int, source: RegisterTarget) -> InstructionType {
    if index == 0 {
        InstructionType::ADD(source)
    } else if index == 1 {
        InstructionType::ADC(source)
    } else if index == 2 {
        InstructionType::SUB(source)
    } else if index == 3 {
        InstructionType::SBC(source)
    } else if index == 4 {
        InstructionType::AND(source)
    } else if index == 5 {
        InstructionType::XOR(source)
    } else if index == 6 {
        InstructionType::OR(source)
    } else {
        InstructionType::CP(source)
    }
}

/// The rotation or shift that three bits of a prefixed opcode select.
pub open spec fn rotation(index: int, target: RegisterTarget) -> InstructionType {
    if index == 0 {
        InstructionType::RLC(target)
    } else if index == 1 {
        InstructionType::RRC(target)
    } else if index == 2 {
        InstructionType::RL(target)
    } else if index == 3 {
        InstructionType::RR(target)
    } else if index == 4 {
        InstructionType::SLA(target)
    } else if index == 5 {
        InstructionType::SRA(target)
    } else if index == 6 {
        InstructionType::SWAP(target)
    } else {
        InstructionType::SRL(target)
    }
}

/// `plain` when the operand is a register, `memory` when it is `(HL)`.
pub open spec fn cost(target: RegisterTarget, plain: u8, memory: u8) -> u8 {
    if target == RegisterTarget::_HL {
        memory
    } else {
        plain
    }
}

impl Instruction {
    pub open spec fn spec_plain(itype: InstructionType, ticks: u8) -> Instruction {
        Instruction { ticks, ticks_taken: ticks, itype }
    }

    pub open spec fn spec_branch(itype: InstructionType, ticks: u8, ticks_taken: u8) -> Instruction {
        Instruction { ticks, ticks_taken, itype }
    }

    /// An instruction with one timing.
    #[verifier::when_used_as_spec(spec_plain)]
    pub fn plain(itype: InstructionType, ticks: u8) -> (i: Instruction)
        ensures
            i == Instruction::spec_plain(itype, ticks),
    {
        Instruction { ticks, ticks_taken: ticks, itype }
    }

    /// A conditional instruction with its two timings.
    #[verifier::when_used_as_spec(spec_branch)]
    pub fn branch(itype: InstructionType, ticks: u8, ticks_taken: u8) -> (i: Instruction)
        ensures
            i == Instruction::spec_branch(itype, ticks, ticks_taken),
    {
        Instruction { ticks, ticks_taken, itype }
    }

    /// A bit number in the instruction is below 8.
    pub open spec fn wf(self) -> bool {
        match self.itype {
            InstructionType::BIT(n, _) => n < 8,
            InstructionType::RES(n, _) => n < 8,
            InstructionType::SET(n, _) => n < 8,
            _ => true,
        }
    }

    /// The first quarter of the main table, `00-3F`, by the low three bits
    /// `z` and the middle three bits `y` of the opcode.
    pub open spec fn decode_low(y: int, z: int) -> Instruction {
        if z == 0 {
            if y == 0 {
                Instruction::plain(InstructionType::NOP, 4)
            } else if y == 1 {
                Instruction::plain(
                    InstructionType::LOAD22(RegisterTarget16::INSTANT2, RegisterTarget16::SP),
                    20,
                )
            } else if y == 2 {
                Instruction::plain(InstructionType::STOP, 4)
            } else if y == 3 {
                Instruction::plain(InstructionType::JR(JumpCondition::NONE), 12)
            } else {
                Instruction::branch(InstructionType::JR(condition(y - 4)), 8, 12)
            }
        } else if z == 1 {
            if y % 2 == 0 {
                Instruction::plain(
                    InstructionType::LOAD22(pair(y / 2, false), RegisterTarget16::INSTANT2),
                    12,
                )
            } else {
                Instruction::plain(InstructionType::ADD22(pair(y / 2, false)), 8)
            }
        } else if z == 2 {
            Instruction::plain(
                if y == 0 {
                    InstructionType::LOAD21(RegisterTarget16::BC, RegisterTarget::A)
                } else if y == 1 {
                    InstructionType::LOAD12(RegisterTarget::A, RegisterTarget16::BC)
                } else if y == 2 {
                    InstructionType::LOAD21(RegisterTarget16::DE, RegisterTarget::A)
                } else if y == 3 {
                    InstructionType::LOAD12(RegisterTarget::A, RegisterTarget16::DE)
                } else if y == 4 {
                    InstructionType::LD(LdAction::SAVE, Operation::INCREMENTATION)
                } else if y == 5 {
                    InstructionType::LD(LdAction::LOAD, Operation::INCREMENTATION)
                } else if y == 6 {
                    InstructionType::LD(LdAction::SAVE, Operation::DECREMENTATION)
                } else {
                    InstructionType::LD(LdAction::LOAD, Operation::DECREMENTATION)
                },
                8,
            )
        } else if z == 3 {
            if y % 2 == 0 {
                Instruction::plain(InstructionType::INC2(pair(y / 2, false)), 8)
            } else {
                Instruction::plain(InstructionType::DEC2(pair(y / 2, false)), 8)
            }
        } else if z == 4 {
            Instruction::plain(InstructionType::INC(operand(y)), cost(operand(y), 4, 12))
        } else if z == 5 {
            Instruction::plain(InstructionType::DEC(operand(y)), cost(operand(y), 4, 12))
        } else if z == 6 {
            Instruction::plain(
                InstructionType::LOAD11(operand(y), RegisterTarget::INSTANT),
                cost(operand(y), 8, 12),
            )
        } else {
            Instruction::plain(
                if y == 0 {
                    InstructionType::RLCA
                } else if y == 1 {
                    InstructionType::RRCA
                } else if y == 2 {
                    InstructionType::RLA
                } else if y == 3 {
                    InstructionType::RRA
                } else if y == 4 {
                    InstructionType::DAA
                } else if y == 5 {
                    InstructionType::CPL
                } else if y == 6 {
                    InstructionType::SCF
                } else {
                    InstructionType::CCF
                },
                4,
            )
        }
    }

    /// The last quarter of the main table, `C0-FF`.
    pub open spec fn decode_high(y: int, z: int) -> Instruction {
        if z == 0 {
            if y < 4 {
                Instruction::branch(InstructionType::RET(condition(y)), 8, 20)
            } else if y == 4 {
                Instruction::plain(InstructionType::LDH(LdAction::SAVE, RegisterTarget::INSTANT), 12)
            } else if y == 5 {
                Instruction::plain(InstructionType::ADDSP, 16)
            } else if y == 6 {
                Instruction::plain(InstructionType::LDH(LdAction::LOAD, RegisterTarget::INSTANT), 12)
            } else {
                Instruction::plain(InstructionType::LDHL, 12)
            }
        } else if z == 1 {
            if y % 2 == 0 {
                Instruction::plain(InstructionType::POP(pair(y / 2, true)), 12)
            } else if y == 1 {
                Instruction::plain(InstructionType::RET(JumpCondition::NONE), 16)
            } else if y == 3 {
                Instruction::plain(InstructionType::RETI, 16)
            } else if y == 5 {
                Instruction::plain(InstructionType::JP_HL, 4)
            } else {
                Instruction::plain(
                    InstructionType::LOAD22(RegisterTarget16::SP, RegisterTarget16::HL),
                    8,
                )
            }
        } else if z == 2 {
            if y < 4 {
                Instruction::branch(InstructionType::JUMP(condition(y)), 12, 16)
            } else if y == 4 {
                Instruction::plain(InstructionType::LDH(LdAction::SAVE, RegisterTarget::C), 8)
            } else if y == 5 {
                Instruction::plain(
                    InstructionType::LOAD21(RegisterTarget16::INSTANT2, RegisterTarget::A),
                    16,
                )
            } else if y == 6 {
                Instruction::plain(InstructionType::LDH(LdAction::LOAD, RegisterTarget::C), 8)
            } else {
                Instruction::plain(
                    InstructionType::LOAD12(RegisterTarget::A, RegisterTarget16::INSTANT2),
                    16,
                )
            }
        } else if z == 3 {
            if y == 0 {
                Instruction::plain(InstructionType::JUMP(JumpCondition::NONE), 16)
            } else if y == 1 {
                Instruction::plain(InstructionType::PREFIX_CB, 4)
            } else if y == 6 {
                Instruction::plain(InstructionType::DI, 4)
            } else if y == 7 {
                Instruction::plain(InstructionType::EI, 4)
            } else {
                Instruction::plain(InstructionType::ILLEGAL, 4)
            }
        } else if z == 4 {
            if y < 4 {
                Instruction::branch(InstructionType::CALL(condition(y)), 12, 24)
            } else {
                Instruction::plain(InstructionType::ILLEGAL, 4)
            }
        } else if z == 5 {
            if y % 2 == 0 {
                Instruction::plain(InstructionType::PUSH(pair(y / 2, true)), 16)
            } else if y == 1 {
                Instruction::plain(InstructionType::CALL(JumpCondition::NONE), 24)
            } else {
                Instruction::plain(InstructionType::ILLEGAL, 4)
            }
        } else if z == 6 {
            Instruction::plain(arithmetic(y, RegisterTarget::INSTANT), 8)
        } else {
            Instruction::plain(InstructionType::RST((y * 8) as u16), 16)
        }
    }

    /// The meaning of an opcode of the main table, by its three fields:
    /// the top two bits, the middle three and the low three.
    pub open spec fn decode(opcode: u8) -> Instruction {
        let x = opcode as int / 64;
        let y = (opcode as int / 8) % 8;
        let z = opcode as int % 8;
        if x == 0 {
            Instruction::decode_low(y, z)
        } else if x == 1 {
            if opcode == 0x76 {
                Instruction::plain(InstructionType::HALT, 4)
            } else {
                Instruction::plain(
                    InstructionType::LOAD11(operand(y), operand(z)),
                    if y == 6 || z == 6 {
                        8
                    } else {
                        4
                    },
                )
            }
        } else if x == 2 {
            Instruction::plain(arithmetic(y, operand(z)), cost(operand(z), 4, 8))
        } else {
            Instruction::decode_high(y, z)
        }
    }

    /// The meaning of an opcode that follows the `CB` prefix; the cycles
    /// include the prefix.
    pub open spec fn decode_cb(opcode: u8) -> Instruction {
        let x = opcode as int / 64;
        let y = (opcode as int / 8) % 8;
        let z = opcode as int % 8;
        if x == 0 {
            Instruction::plain(rotation(y, operand(z)), cost(operand(z), 8, 16))
        } else if x == 1 {
            Instruction::plain(InstructionType::BIT(y as u8, operand(z)), cost(operand(z), 8, 12))
        } else if x == 2 {
            Instruction::plain(InstructionType::RES(y as u8, operand(z)), cost(operand(z), 8, 16))
        } else {
            Instruction::plain(InstructionType::SET(y as u8, operand(z)), cost(operand(z), 8, 16))
        }
    }

    /// The opcodes `00-0F` of the main table, by their low nibble.
    fn row_0(opcode: u8) -> (i: Instruction)
        requires
            opcode / 16 == 0x0,
        ensures
            i == Instruction::decode(opcode),
            i.wf(),
    {
        match opcode % 16 {
            0x0 => Instruction::plain(InstructionType::NOP, 4),
            0x1 => Instruction::plain(InstructionType::LOAD22(RegisterTarget16::BC, RegisterTarget16::INSTANT2), 12),
            0x2 => Instruction::plain(InstructionType::LOAD21(RegisterTarget16::BC, RegisterTarget::A), 8),
            0x3 => Instruction::plain(InstructionType::INC2(RegisterTarget16::BC), 8),
            0x4 => Instruction::plain(InstructionType::INC(RegisterTarget::B), 4),
            0x5 => Instruction::plain(InstructionType::DEC(RegisterTarget::B), 4),
            0x6 => Instruction::plain(InstructionType::LOAD11(RegisterTarget::B, RegisterTarget::INSTANT), 8),
            0x7 => Instruction::plain(InstructionType::RLCA, 4),
            0x8 => Instruction::plain(InstructionType::LOAD22(RegisterTarget16::INSTANT2, RegisterTarget16::SP), 20),
            0x9 => Instruction::plain(InstructionType::ADD22(RegisterTarget16::BC), 8),
            0xa => Instruction::plain(InstructionType::LOAD12(RegisterTarget::A, RegisterTarget16::BC), 8),
            0xb => Instruction::plain(InstructionType::DEC2(RegisterTarget16::BC), 8),
            0xc => Instruction::plain(InstructionType::INC(RegisterTarget::C), 4),
            0xd => Instruction::plain(InstructionType::DEC(RegisterTarget::C), 4),
            0xe => Instruction::plain(InstructionType::LOAD11(RegisterTarget::C, RegisterTarget::INSTANT), 8),
            _ => Instruction::plain(InstructionType::RRCA, 4),
        }
    }

    /// The opcodes `10-1F` of the main table, by their low nibble.
    fn row_1(opcode: u8) -> (i: Instruction)
        requires
            opcode / 16 == 0x1,
        ensures
            i == Instruction::decode(opcode),
            i.wf(),
    {
        match opcode % 16 {
            0x0 => Instruction::plain(InstructionType::STOP, 4),
            0x1 => Instruction::plain(InstructionType::LOAD22(RegisterTarget16::DE, RegisterTarget16::INSTANT2), 12),
            0x2 => Instruction::plain(InstructionType::LOAD21(RegisterTarget16::DE, RegisterTarget::A), 8),
            0x3 => Instruction::plain(InstructionType::INC2(RegisterTarget16::DE), 8),
            0x4 => Instruction::plain(InstructionType::INC(RegisterTarget::D), 4),
            0x5 => Instruction::plain(InstructionType::DEC(RegisterTarget::D), 4),
            0x6 => Instruction::plain(InstructionType::LOAD11(RegisterTarget::D, RegisterTarget::INSTANT), 8),
            0x7 => Instruction::plain(InstructionType::RLA, 4),
            0x8 => Instruction::plain(InstructionType::JR(JumpCondition::NONE), 12),
            0x9 => Instruction::plain(InstructionType::ADD22(RegisterTarget16::DE), 8),
            0xa => Instruction::plain(InstructionType::LOAD12(RegisterTarget::A, RegisterTarget16::DE), 8),
            0xb => Instruction::plain(InstructionType::DEC2(RegisterTarget16::DE), 8),
            0xc => Instruction::plain(InstructionType::INC(RegisterTarget::E), 4),
            0xd => Instruction::plain(InstructionType::DEC(RegisterTarget::E), 4),
            0xe => Instruction::plain(InstructionType::LOAD11(RegisterTarget::E, RegisterTarget::INSTANT), 8),
            _ => Instruction::plain(InstructionType::RRA, 4),
        }
    }

    /// The opcodes `20-2F` of the main table, by their low nibble.
    fn row_2(opcode: u8) -> (i: Instruction)
        requires
            opcode / 16 == 0x2,
        ensures
            i == Instruction::decode(opcode),
            i.wf(),
    {
        match opcode % 16 {
            0x0 => Instruction::branch(InstructionType::JR(JumpCondition::NZ), 8, 12),
            0x1 => Instruction::plain(InstructionType::LOAD22(RegisterTarget16::HL, RegisterTarget16::INSTANT2), 12),
            0x2 => Instruction::plain(InstructionType::LD(LdAction::SAVE, Operation::INCREMENTATION), 8),
            0x3 => Instruction::plain(InstructionType::INC2(RegisterTarget16::HL), 8),
            0x4 => Instruction::plain(InstructionType::INC(RegisterTarget::H), 4),
            0x5 => Instruction::plain(InstructionType::DEC(RegisterTarget::H), 4),
            0x6 => Instruction::plain(InstructionType::LOAD11(RegisterTarget::H, RegisterTarget::INSTANT), 8),
            0x7 => Instruction::plain(InstructionType::DAA, 4),
            0x8 => Instruction::branch(InstructionType::JR(JumpCondition::Z), 8, 12),
            0x9 => Instruction::plain(InstructionType::ADD22(RegisterTarget16::HL), 8),
            0xa => Instruction::plain(InstructionType::LD(LdAction::LOAD, Operation::INCREMENTATION), 8),
            0xb => Instruction::plain(InstructionType::DEC2(RegisterTarget16::HL), 8),
            0xc => Instruction::plain(InstructionType::INC(RegisterTarget::L), 4),
            0xd => Instruction::plain(InstructionType::DEC(RegisterTarget::L), 4),
            0xe => Instruction::plain(InstructionType::LOAD11(RegisterTarget::L, RegisterTarget::INSTANT), 8),
            _ => Instruction::plain(InstructionType::CPL, 4),
        }
    }

    /// The opcodes `30-3F` of the main table, by their low nibble.
    fn row_3(opcode: u8) -> (i: Instruction)
        requires
            opcode / 16 == 0x3,
        ensures
            i == Instruction::decode(opcode),
            i.wf(),
    {
        match opcode % 16 {
            0x0 => Instruction::branch(InstructionType::JR(JumpCondition::NC), 8, 12),
            0x1 => Instruction::plain(InstructionType::LOAD22(RegisterTarget16::SP, RegisterTarget16::INSTANT2), 12),
            0x2 => Instruction::plain(InstructionType::LD(LdAction::SAVE, Operation::DECREMENTATION), 8),
            0x3 => Instruction::plain(InstructionType::INC2(RegisterTarget16::SP), 8),
            0x4 => Instruction::plain(InstructionType::INC(RegisterTarget::_HL), 12),
            0x5 => Instruction::plain(InstructionType::DEC(RegisterTarget::_HL), 12),
            0x6 => Instruction::plain(InstructionType::LOAD11(RegisterTarget::_HL, RegisterTarget::INSTANT), 12),
            0x7 => Instruction::plain(InstructionType::SCF, 4),
            0x8 => Instruction::branch(InstructionType::JR(JumpCondition::C), 8, 12),
            0x9 => Instruction::plain(InstructionType::ADD22(RegisterTarget16::SP), 8),
            0xa => Instruction::plain(InstructionType::LD(LdAction::LOAD, Operation::DECREMENTATION), 8),
            0xb => Instruction::plain(InstructionType::DEC2(RegisterTarget16::SP), 8),
            0xc => Instruction::plain(InstructionType::INC(RegisterTarget::A), 4),
            0xd => Instruction::plain(InstructionType::DEC(RegisterTarget::A), 4),
            0xe => Instruction::plain(InstructionType::LOAD11(RegisterTarget::A, RegisterTarget::INSTANT), 8),
            _ => Instruction::plain(InstructionType::CCF, 4),
        }
    }

    /// The opcodes `40-4F` of the main table, by their low nibble.
    fn row_4(opcode: u8) -> (i: Instruction)
        requires
            opcode / 16 == 0x4,
        ensures
            i == Instruction::decode(opcode),
            i.wf(),
    {
        match opcode % 16 {
            0x0 => Instruction::plain(InstructionType::LOAD11(RegisterTarget::B, RegisterTarget::B), 4),
            0x1 => Instruction::plain(InstructionType::LOAD11(RegisterTarget::B, RegisterTarget::C), 4),
            0x2 => Instruction::plain(InstructionType::LOAD11(RegisterTarget::B, RegisterTarget::D), 4),
            0x3 => Instruction::plain(InstructionType::LOAD11(RegisterTarget::B, RegisterTarget::E), 4),
            0x4 => Instruction::plain(InstructionType::LOAD11(RegisterTarget::B, RegisterTarget::H), 4),
            0x5 => Instruction::plain(InstructionType::LOAD11(RegisterTarget::B, RegisterTarget::L), 4),
            0x6 => Instruction::plain(InstructionType::LOAD11(RegisterTarget::B, RegisterTarget::_HL), 8),
            0x7 => Instruction::plain(InstructionType::LOAD11(RegisterTarget::B, RegisterTarget::A), 4),
            0x8 => Instruction::plain(InstructionType::LOAD11(RegisterTarget::C, RegisterTarget::B), 4),
            0x9 => Instruction::plain(InstructionType::LOAD11(RegisterTarget::C, RegisterTarget::C), 4),
            0xa => Instruction::plain(InstructionType::LOAD11(RegisterTarget::C, RegisterTarget::D), 4),
            0xb => Instruction::plain(InstructionType::LOAD11(RegisterTarget::C, RegisterTarget::E), 4),
            0xc => Instruction::plain(InstructionType::LOAD11(RegisterTarget::C, RegisterTarget::H), 4),
            0xd => Instruction::plain(InstructionType::LOAD11(RegisterTarget::C, RegisterTarget::L), 4),
            0xe => Instruction::plain(InstructionType::LOAD11(RegisterTarget::C, RegisterTarget::_HL), 8),
            _ => Instruction::plain(InstructionType::LOAD11(RegisterTarget::C, RegisterTarget::A), 4),
        }
    }

    /// The opcodes `50-5F` of the main table, by their low nibble.
    fn row_5(opcode: u8) -> (i: Instruction)
        requires
            opcode / 16 == 0x5,
        ensures
            i == Instruction::decode(opcode),
            i.wf(),
    {
        match opcode % 16 {
            0x0 => Instruction::plain(InstructionType::LOAD11(RegisterTarget::D, RegisterTarget::B), 4),
            0x1 => Instruction::plain(InstructionType::LOAD11(RegisterTarget::D, RegisterTarget::C), 4),
            0x2 => Instruction::plain(InstructionType::LOAD11(RegisterTarget::D, RegisterTarget::D), 4),
            0x3 => Instruction::plain(InstructionType::LOAD11(RegisterTarget::D, RegisterTarget::E), 4),
            0x4 => Instruction::plain(InstructionType::LOAD11(RegisterTarget::D, RegisterTarget::H), 4),
            0x5 => Instruction::plain(InstructionType::LOAD11(RegisterTarget::D, RegisterTarget::L), 4),
            0x6 => Instruction::plain(InstructionType::LOAD11(RegisterTarget::D, RegisterTarget::_HL), 8),
            0x7 => Instruction::plain(InstructionType::LOAD11(RegisterTarget::D, RegisterTarget::A), 4),
            0x8 => Instruction::plain(InstructionType::LOAD11(RegisterTarget::E, RegisterTarget::B), 4),
            0x9 => Instruction::plain(InstructionType::LOAD11(RegisterTarget::E, RegisterTarget::C), 4),
            0xa => Instruction::plain(InstructionType::LOAD11(RegisterTarget::E, RegisterTarget::D), 4),
            0xb => Instruction::plain(InstructionType::LOAD11(RegisterTarget::E, RegisterTarget::E), 4),
            0xc => Instruction::plain(InstructionType::LOAD11(RegisterTarget::E, RegisterTarget::H), 4),
            0xd => Instruction::plain(InstructionType::LOAD11(RegisterTarget::E, RegisterTarget::L), 4),
            0xe => Instruction::plain(InstructionType::LOAD11(RegisterTarget::E, RegisterTarget::_HL), 8),
            _ => Instruction::plain(InstructionType::LOAD11(RegisterTarget::E, RegisterTarget::A), 4),
        }
    }

    /// The opcodes `60-6F` of the main table, by their low nibble.
    fn row_6(opcode: u8) -> (i: Instruction)
        requires
            opcode / 16 == 0x6,
        ensures
            i == Instruction::decode(opcode),
            i.wf(),
    {
        match opcode % 16 {
            0x0 => Instruction::plain(InstructionType::LOAD11(RegisterTarget::H, RegisterTarget::B), 4),
            0x1 => Instruction::plain(InstructionType::LOAD11(RegisterTarget::H, RegisterTarget::C), 4),
            0x2 => Instruction::plain(InstructionType::LOAD11(RegisterTarget::H, RegisterTarget::D), 4),
            0x3 => Instruction::plain(InstructionType::LOAD11(RegisterTarget::H, RegisterTarget::E), 4),
            0x4 => Instruction::plain(InstructionType::LOAD11(RegisterTarget::H, RegisterTarget::H), 4),
            0x5 => Instruction::plain(InstructionType::LOAD11(RegisterTarget::H, RegisterTarget::L), 4),
            0x6 => Instruction::plain(InstructionType::LOAD11(RegisterTarget::H, RegisterTarget::_HL), 8),
            0x7 => Instruction::plain(InstructionType::LOAD11(RegisterTarget::H, RegisterTarget::A), 4),
            0x8 => Instruction::plain(InstructionType::LOAD11(RegisterTarget::L, RegisterTarget::B), 4),
            0x9 => Instruction::plain(InstructionType::LOAD11(RegisterTarget::L, RegisterTarget::C), 4),
            0xa => Instruction::plain(InstructionType::LOAD11(RegisterTarget::L, RegisterTarget::D), 4),
            0xb => Instruction::plain(InstructionType::LOAD11(RegisterTarget::L, RegisterTarget::E), 4),
            0xc => Instruction::plain(InstructionType::LOAD11(RegisterTarget::L, RegisterTarget::H), 4),
            0xd => Instruction::plain(InstructionType::LOAD11(RegisterTarget::L, RegisterTarget::L), 4),
            0xe => Instruction::plain(InstructionType::LOAD11(RegisterTarget::L, RegisterTarget::_HL), 8),
            _ => Instruction::plain(InstructionType::LOAD11(RegisterTarget::L, RegisterTarget::A), 4),
        }
    }

    /// The opcodes `70-7F` of the main table, by their low nibble.
    fn row_7(opcode: u8) -> (i: Instruction)
        requires
            opcode / 16 == 0x7,
        ensures
            i == Instruction::decode(opcode),
            i.wf(),
    {
        match opcode % 16 {
            0x0 => Instruction::plain(InstructionType::LOAD11(RegisterTarget::_HL, RegisterTarget::B), 8),
            0x1 => Instruction::plain(InstructionType::LOAD11(RegisterTarget::_HL, RegisterTarget::C), 8),
            0x2 => Instruction::plain(InstructionType::LOAD11(RegisterTarget::_HL, RegisterTarget::D), 8),
            0x3 => Instruction::plain(InstructionType::LOAD11(RegisterTarget::_HL, RegisterTarget::E), 8),
            0x4 => Instruction::plain(InstructionType::LOAD11(RegisterTarget::_HL, RegisterTarget::H), 8),
            0x5 => Instruction::plain(InstructionType::LOAD11(RegisterTarget::_HL, RegisterTarget::L), 8),
            0x6 => Instruction::plain(InstructionType::HALT, 4),
            0x7 => Instruction::plain(InstructionType::LOAD11(RegisterTarget::_HL, RegisterTarget::A), 8),
            0x8 => Instruction::plain(InstructionType::LOAD11(RegisterTarget::A, RegisterTarget::B), 4),
            0x9 => Instruction::plain(InstructionType::LOAD11(RegisterTarget::A, RegisterTarget::C), 4),
            0xa => Instruction::plain(InstructionType::LOAD11(RegisterTarget::A, RegisterTarget::D), 4),
            0xb => Instruction::plain(InstructionType::LOAD11(RegisterTarget::A, RegisterTarget::E), 4),
            0xc => Instruction::plain(InstructionType::LOAD11(RegisterTarget::A, RegisterTarget::H), 4),
            0xd => Instruction::plain(InstructionType::LOAD11(RegisterTarget::A, RegisterTarget::L), 4),
            0xe => Instruction::plain(InstructionType::LOAD11(RegisterTarget::A, RegisterTarget::_HL), 8),
            _ => Instruction::plain(InstructionType::LOAD11(RegisterTarget::A, RegisterTarget::A), 4),
        }
    }

    /// The opcodes `80-8F` of the main table, by their low nibble.
    fn row_8(opcode: u8) -> (i: Instruction)
        requires
            opcode / 16 == 0x8,
        ensures
            i == Instruction::decode(opcode),
            i.wf(),
    {
        match opcode % 16 {
            0x0 => Instruction::plain(InstructionType::ADD(RegisterTarget::B), 4),
            0x1 => Instruction::plain(InstructionType::ADD(RegisterTarget::C), 4),
            0x2 => Instruction::plain(InstructionType::ADD(RegisterTarget::D), 4),
            0x3 => Instruction::plain(InstructionType::ADD(RegisterTarget::E), 4),
            0x4 => Instruction::plain(InstructionType::ADD(RegisterTarget::H), 4),
            0x5 => Instruction::plain(InstructionType::ADD(RegisterTarget::L), 4),
            0x6 => Instruction::plain(InstructionType::ADD(RegisterTarget::_HL), 8),
            0x7 => Instruction::plain(InstructionType::ADD(RegisterTarget::A), 4),
            0x8 => Instruction::plain(InstructionType::ADC(RegisterTarget::B), 4),
            0x9 => Instruction::plain(InstructionType::ADC(RegisterTarget::C), 4),
            0xa => Instruction::plain(InstructionType::ADC(RegisterTarget::D), 4),
            0xb => Instruction::plain(InstructionType::ADC(RegisterTarget::E), 4),
            0xc => Instruction::plain(InstructionType::ADC(RegisterTarget::H), 4),
            0xd => Instruction::plain(InstructionType::ADC(RegisterTarget::L), 4),
            0xe => Instruction::plain(InstructionType::ADC(RegisterTarget::_HL), 8),
            _ => Instruction::plain(InstructionType::ADC(RegisterTarget::A), 4),
        }
    }

    /// The opcodes `90-9F` of the main table, by their low nibble.
    fn row_9(opcode: u8) -> (i: Instruction)
        requires
            opcode / 16 == 0x9,
        ensures
            i == Instruction::decode(opcode),
            i.wf(),
    {
        match opcode % 16 {
            0x0 => Instruction::plain(InstructionType::SUB(RegisterTarget::B), 4),
            0x1 => Instruction::plain(InstructionType::SUB(RegisterTarget::C), 4),
            0x2 => Instruction::plain(InstructionType::SUB(RegisterTarget::D), 4),
            0x3 => Instruction::plain(InstructionType::SUB(RegisterTarget::E), 4),
            0x4 => Instruction::plain(InstructionType::SUB(RegisterTarget::H), 4),
            0x5 => Instruction::plain(InstructionType::SUB(RegisterTarget::L), 4),
            0x6 => Instruction::plain(InstructionType::SUB(RegisterTarget::_HL), 8),
            0x7 => Instruction::plain(InstructionType::SUB(RegisterTarget::A), 4),
            0x8 => Instruction::plain(InstructionType::SBC(RegisterTarget::B), 4),
            0x9 => Instruction::plain(InstructionType::SBC(RegisterTarget::C), 4),
            0xa => Instruction::plain(InstructionType::SBC(RegisterTarget::D), 4),
            0xb => Instruction::plain(InstructionType::SBC(RegisterTarget::E), 4),
            0xc => Instruction::plain(InstructionType::SBC(RegisterTarget::H), 4),
            0xd => Instruction::plain(InstructionType::SBC(RegisterTarget::L), 4),
            0xe => Instruction::plain(InstructionType::SBC(RegisterTarget::_HL), 8),
            _ => Instruction::plain(InstructionType::SBC(RegisterTarget::A), 4),
        }
    }

    /// The opcodes `A0-AF` of the main table, by their low nibble.
    fn row_a(opcode: u8) -> (i: Instruction)
        requires
            opcode / 16 == 0xa,
        ensures
            i == Instruction::decode(opcode),
            i.wf(),
    {
        match opcode % 16 {
            0x0 => Instruction::plain(InstructionType::AND(RegisterTarget::B), 4),
            0x1 => Instruction::plain(InstructionType::AND(RegisterTarget::C), 4),
            0x2 => Instruction::plain(InstructionType::AND(RegisterTarget::D), 4),
            0x3 => Instruction::plain(InstructionType::AND(RegisterTarget::E), 4),
            0x4 => Instruction::plain(InstructionType::AND(RegisterTarget::H), 4),
            0x5 => Instruction::plain(InstructionType::AND(RegisterTarget::L), 4),
            0x6 => Instruction::plain(InstructionType::AND(RegisterTarget::_HL), 8),
            0x7 => Instruction::plain(InstructionType::AND(RegisterTarget::A), 4),
            0x8 => Instruction::plain(InstructionType::XOR(RegisterTarget::B), 4),
            0x9 => Instruction::plain(InstructionType::XOR(RegisterTarget::C), 4),
            0xa => Instruction::plain(InstructionType::XOR(RegisterTarget::D), 4),
            0xb => Instruction::plain(InstructionType::XOR(RegisterTarget::E), 4),
            0xc => Instruction::plain(InstructionType::XOR(RegisterTarget::H), 4),
            0xd => Instruction::plain(InstructionType::XOR(RegisterTarget::L), 4),
            0xe => Instruction::plain(InstructionType::XOR(RegisterTarget::_HL), 8),
            _ => Instruction::plain(InstructionType::XOR(RegisterTarget::A), 4),
        }
    }

    /// The opcodes `B0-BF` of the main table, by their low nibble.
    fn row_b(opcode: u8) -> (i: Instruction)
        requires
            opcode / 16 == 0xb,
        ensures
            i == Instruction::decode(opcode),
            i.wf(),
    {
        match opcode % 16 {
            0x0 => Instruction::plain(InstructionType::OR(RegisterTarget::B), 4),
            0x1 => Instruction::plain(InstructionType::OR(RegisterTarget::C), 4),
            0x2 => Instruction::plain(InstructionType::OR(RegisterTarget::D), 4),
            0x3 => Instruction::plain(InstructionType::OR(RegisterTarget::E), 4),
            0x4 => Instruction::plain(InstructionType::OR(RegisterTarget::H), 4),
            0x5 => Instruction::plain(InstructionType::OR(RegisterTarget::L), 4),
            0x6 => Instruction::plain(InstructionType::OR(RegisterTarget::_HL), 8),
            0x7 => Instruction::plain(InstructionType::OR(RegisterTarget::A), 4),
            0x8 => Instruction::plain(InstructionType::CP(RegisterTarget::B), 4),
            0x9 => Instruction::plain(InstructionType::CP(RegisterTarget::C), 4),
            0xa => Instruction::plain(InstructionType::CP(RegisterTarget::D), 4),
            0xb => Instruction::plain(InstructionType::CP(RegisterTarget::E), 4),
            0xc => Instruction::plain(InstructionType::CP(RegisterTarget::H), 4),
            0xd => Instruction::plain(InstructionType::CP(RegisterTarget::L), 4),
            0xe => Instruction::plain(InstructionType::CP(RegisterTarget::_HL), 8),
            _ => Instruction::plain(InstructionType::CP(RegisterTarget::A), 4),
        }
    }

    /// The opcodes `C0-CF` of the main table, by their low nibble.
    fn row_c(opcode: u8) -> (i: Instruction)
        requires
            opcode / 16 == 0xc,
        ensures
            i == Instruction::decode(opcode),
            i.wf(),
    {
        match opcode % 16 {
            0x0 => Instruction::branch(InstructionType::RET(JumpCondition::NZ), 8, 20),
            0x1 => Instruction::plain(InstructionType::POP(RegisterTarget16::BC), 12),
            0x2 => Instruction::branch(InstructionType::JUMP(JumpCondition::NZ), 12, 16),
            0x3 => Instruction::plain(InstructionType::JUMP(JumpCondition::NONE), 16),
            0x4 => Instruction::branch(InstructionType::CALL(JumpCondition::NZ), 12, 24),
            0x5 => Instruction::plain(InstructionType::PUSH(RegisterTarget16::BC), 16),
            0x6 => Instruction::plain(InstructionType::ADD(RegisterTarget::INSTANT), 8),
            0x7 => Instruction::plain(InstructionType::RST(0x00), 16),
            0x8 => Instruction::branch(InstructionType::RET(JumpCondition::Z), 8, 20),
            0x9 => Instruction::plain(InstructionType::RET(JumpCondition::NONE), 16),
            0xa => Instruction::branch(InstructionType::JUMP(JumpCondition::Z), 12, 16),
            0xb => Instruction::plain(InstructionType::PREFIX_CB, 4),
            0xc => Instruction::branch(InstructionType::CALL(JumpCondition::Z), 12, 24),
            0xd => Instruction::plain(InstructionType::CALL(JumpCondition::NONE), 24),
            0xe => Instruction::plain(InstructionType::ADC(RegisterTarget::INSTANT), 8),
            _ => Instruction::plain(InstructionType::RST(0x08), 16),
        }
    }

    /// The opcodes `D0-DF` of the main table, by their low nibble.
    fn row_d(opcode: u8) -> (i: Instruction)
        requires
            opcode / 16 == 0xd,
        ensures
            i == Instruction::decode(opcode),
            i.wf(),
    {
        match opcode % 16 {
            0x0 => Instruction::branch(InstructionType::RET(JumpCondition::NC), 8, 20),
            0x1 => Instruction::plain(InstructionType::POP(RegisterTarget16::DE), 12),
            0x2 => Instruction::branch(InstructionType::JUMP(JumpCondition::NC), 12, 16),
            0x3 => Instruction::plain(InstructionType::ILLEGAL, 4),
            0x4 => Instruction::branch(InstructionType::CALL(JumpCondition::NC), 12, 24),
            0x5 => Instruction::plain(InstructionType::PUSH(RegisterTarget16::DE), 16),
            0x6 => Instruction::plain(InstructionType::SUB(RegisterTarget::INSTANT), 8),
            0x7 => Instruction::plain(InstructionType::RST(0x10), 16),
            0x8 => Instruction::branch(InstructionType::RET(JumpCondition::C), 8, 20),
            0x9 => Instruction::plain(InstructionType::RETI, 16),
            0xa => Instruction::branch(InstructionType::JUMP(JumpCondition::C), 12, 16),
            0xb => Instruction::plain(InstructionType::ILLEGAL, 4),
            0xc => Instruction::branch(InstructionType::CALL(JumpCondition::C), 12, 24),
            0xd => Instruction::plain(InstructionType::ILLEGAL, 4),
            0xe => Instruction::plain(InstructionType::SBC(RegisterTarget::INSTANT), 8),
            _ => Instruction::plain(InstructionType::RST(0x18), 16),
        }
    }

    /// The opcodes `E0-EF` of the main table, by their low nibble.
    fn row_e(opcode: u8) -> (i: Instruction)
        requires
            opcode / 16 == 0xe,
        ensures
            i == Instruction::decode(opcode),
            i.wf(),
    {
        match opcode % 16 {
            0x0 => Instruction::plain(InstructionType::LDH(LdAction::SAVE, RegisterTarget::INSTANT), 12),
            0x1 => Instruction::plain(InstructionType::POP(RegisterTarget16::HL), 12),
            0x2 => Instruction::plain(InstructionType::LDH(LdAction::SAVE, RegisterTarget::C), 8),
            0x3 => Instruction::plain(InstructionType::ILLEGAL, 4),
            0x4 => Instruction::plain(InstructionType::ILLEGAL, 4),
            0x5 => Instruction::plain(InstructionType::PUSH(RegisterTarget16::HL), 16),
            0x6 => Instruction::plain(InstructionType::AND(RegisterTarget::INSTANT), 8),
            0x7 => Instruction::plain(InstructionType::RST(0x20), 16),
            0x8 => Instruction::plain(InstructionType::ADDSP, 16),
            0x9 => Instruction::plain(InstructionType::JP_HL, 4),
            0xa => Instruction::plain(InstructionType::LOAD21(RegisterTarget16::INSTANT2, RegisterTarget::A), 16),
            0xb => Instruction::plain(InstructionType::ILLEGAL, 4),
            0xc => Instruction::plain(InstructionType::ILLEGAL, 4),
            0xd => Instruction::plain(InstructionType::ILLEGAL, 4),
            0xe => Instruction::plain(InstructionType::XOR(RegisterTarget::INSTANT), 8),
            _ => Instruction::plain(InstructionType::RST(0x28), 16),
        }
    }

    /// The opcodes `F0-FF` of the main table, by their low nibble.
    fn row_f(opcode: u8) -> (i: Instruction)
        requires
            opcode / 16 == 0xf,
        ensures
            i == Instruction::decode(opcode),
            i.wf(),
    {
        match opcode % 16 {
            0x0 => Instruction::plain(InstructionType::LDH(LdAction::LOAD, RegisterTarget::INSTANT), 12),
            0x1 => Instruction::plain(InstructionType::POP(RegisterTarget16::AF), 12),
            0x2 => Instruction::plain(InstructionType::LDH(LdAction::LOAD, RegisterTarget::C), 8),
            0x3 => Instruction::plain(InstructionType::DI, 4),
            0x4 => Instruction::plain(InstructionType::ILLEGAL, 4),
            0x5 => Instruction::plain(InstructionType::PUSH(RegisterTarget16::AF), 16),
            0x6 => Instruction::plain(InstructionType::OR(RegisterTarget::INSTANT), 8),
            0x7 => Instruction::plain(InstructionType::RST(0x30), 16),
            0x8 => Instruction::plain(InstructionType::LDHL, 12),
            0x9 => Instruction::plain(InstructionType::LOAD22(RegisterTarget16::SP, RegisterTarget16::HL), 8),
            0xa => Instruction::plain(InstructionType::LOAD12(RegisterTarget::A, RegisterTarget16::INSTANT2), 16),
            0xb => Instruction::plain(InstructionType::EI, 4),
            0xc => Instruction::plain(InstructionType::ILLEGAL, 4),
            0xd => Instruction::plain(InstructionType::ILLEGAL, 4),
            0xe => Instruction::plain(InstructionType::CP(RegisterTarget::INSTANT), 8),
            _ => Instruction::plain(InstructionType::RST(0x38), 16),
        }
    }

    /// The opcodes `00-0F` of the table of the `CB` prefix, by their low nibble.
    fn cb_row_0(opcode: u8) -> (i: Instruction)
        requires
            opcode / 16 == 0x0,
        ensures
            i == Instruction::decode_cb(opcode),
            i.wf(),
    {
        match opcode % 16 {
            0x0 => Instruction::plain(InstructionType::RLC(RegisterTarget::B), 8),
            0x1 => Instruction::plain(InstructionType::RLC(RegisterTarget::C), 8),
            0x2 => Instruction::plain(InstructionType::RLC(RegisterTarget::D), 8),
            0x3 => Instruction::plain(InstructionType::RLC(RegisterTarget::E), 8),
            0x4 => Instruction::plain(InstructionType::RLC(RegisterTarget::H), 8),
            0x5 => Instruction::plain(InstructionType::RLC(RegisterTarget::L), 8),
            0x6 => Instruction::plain(InstructionType::RLC(RegisterTarget::_HL), 16),
            0x7 => Instruction::plain(InstructionType::RLC(RegisterTarget::A), 8),
            0x8 => Instruction::plain(InstructionType::RRC(RegisterTarget::B), 8),
            0x9 => Instruction::plain(InstructionType::RRC(RegisterTarget::C), 8),
            0xa => Instruction::plain(InstructionType::RRC(RegisterTarget::D), 8),
            0xb => Instruction::plain(InstructionType::RRC(RegisterTarget::E), 8),
            0xc => Instruction::plain(InstructionType::RRC(RegisterTarget::H), 8),
            0xd => Instruction::plain(InstructionType::RRC(RegisterTarget::L), 8),
            0xe => Instruction::plain(InstructionType::RRC(RegisterTarget::_HL), 16),
            _ => Instruction::plain(InstructionType::RRC(RegisterTarget::A), 8),
        }
    }

    /// The opcodes `10-1F` of the table of the `CB` prefix, by their low nibble.
    fn cb_row_1(opcode: u8) -> (i: Instruction)
        requires
            opcode / 16 == 0x1,
        ensures
            i == Instruction::decode_cb(opcode),
            i.wf(),
    {
        match opcode % 16 {
            0x0 => Instruction::plain(InstructionType::RL(RegisterTarget::B), 8),
            0x1 => Instruction::plain(InstructionType::RL(RegisterTarget::C), 8),
            0x2 => Instruction::plain(InstructionType::RL(RegisterTarget::D), 8),
            0x3 => Instruction::plain(InstructionType::RL(RegisterTarget::E), 8),
            0x4 => Instruction::plain(InstructionType::RL(RegisterTarget::H), 8),
            0x5 => Instruction::plain(InstructionType::RL(RegisterTarget::L), 8),
            0x6 => Instruction::plain(InstructionType::RL(RegisterTarget::_HL), 16),
            0x7 => Instruction::plain(InstructionType::RL(RegisterTarget::A), 8),
            0x8 => Instruction::plain(InstructionType::RR(RegisterTarget::B), 8),
            0x9 => Instruction::plain(InstructionType::RR(RegisterTarget::C), 8),
            0xa => Instruction::plain(InstructionType::RR(RegisterTarget::D), 8),
            0xb => Instruction::plain(InstructionType::RR(RegisterTarget::E), 8),
            0xc => Instruction::plain(InstructionType::RR(RegisterTarget::H), 8),
            0xd => Instruction::plain(InstructionType::RR(RegisterTarget::L), 8),
            0xe => Instruction::plain(InstructionType::RR(RegisterTarget::_HL), 16),
            _ => Instruction::plain(InstructionType::RR(RegisterTarget::A), 8),
        }
    }

    /// The opcodes `20-2F` of the table of the `CB` prefix, by their low nibble.
    fn cb_row_2(opcode: u8) -> (i: Instruction)
        requires
            opcode / 16 == 0x2,
        ensures
            i == Instruction::decode_cb(opcode),
            i.wf(),
    {
        match opcode % 16 {
            0x0 => Instruction::plain(InstructionType::SLA(RegisterTarget::B), 8),
            0x1 => Instruction::plain(InstructionType::SLA(RegisterTarget::C), 8),
            0x2 => Instruction::plain(InstructionType::SLA(RegisterTarget::D), 8),
            0x3 => Instruction::plain(InstructionType::SLA(RegisterTarget::E), 8),
            0x4 => Instruction::plain(InstructionType::SLA(RegisterTarget::H), 8),
            0x5 => Instruction::plain(InstructionType::SLA(RegisterTarget::L), 8),
            0x6 => Instruction::plain(InstructionType::SLA(RegisterTarget::_HL), 16),
            0x7 => Instruction::plain(InstructionType::SLA(RegisterTarget::A), 8),
            0x8 => Instruction::plain(InstructionType::SRA(RegisterTarget::B), 8),
            0x9 => Instruction::plain(InstructionType::SRA(RegisterTarget::C), 8),
            0xa => Instruction::plain(InstructionType::SRA(RegisterTarget::D), 8),
            0xb => Instruction::plain(InstructionType::SRA(RegisterTarget::E), 8),
            0xc => Instruction::plain(InstructionType::SRA(RegisterTarget::H), 8),
            0xd => Instruction::plain(InstructionType::SRA(RegisterTarget::L), 8),
            0xe => Instruction::plain(InstructionType::SRA(RegisterTarget::_HL), 16),
            _ => Instruction::plain(InstructionType::SRA(RegisterTarget::A), 8),
        }
    }

    /// The opcodes `30-3F` of the table of the `CB` prefix, by their low nibble.
    fn cb_row_3(opcode: u8) -> (i: Instruction)
        requires
            opcode / 16 == 0x3,
        ensures
            i == Instruction::decode_cb(opcode),
            i.wf(),
    {
        match opcode % 16 {
            0x0 => Instruction::plain(InstructionType::SWAP(RegisterTarget::B), 8),
            0x1 => Instruction::plain(InstructionType::SWAP(RegisterTarget::C), 8),
            0x2 => Instruction::plain(InstructionType::SWAP(RegisterTarget::D), 8),
            0x3 => Instruction::plain(InstructionType::SWAP(RegisterTarget::E), 8),
            0x4 => Instruction::plain(InstructionType::SWAP(RegisterTarget::H), 8),
            0x5 => Instruction::plain(InstructionType::SWAP(RegisterTarget::L), 8),
            0x6 => Instruction::plain(InstructionType::SWAP(RegisterTarget::_HL), 16),
            0x7 => Instruction::plain(InstructionType::SWAP(RegisterTarget::A), 8),
            0x8 => Instruction::plain(InstructionType::SRL(RegisterTarget::B), 8),
            0x9 => Instruction::plain(InstructionType::SRL(RegisterTarget::C), 8),
            0xa => Instruction::plain(InstructionType::SRL(RegisterTarget::D), 8),
            0xb => Instruction::plain(InstructionType::SRL(RegisterTarget::E), 8),
            0xc => Instruction::plain(InstructionType::SRL(RegisterTarget::H), 8),
            0xd => Instruction::plain(InstructionType::SRL(RegisterTarget::L), 8),
            0xe => Instruction::plain(InstructionType::SRL(RegisterTarget::_HL), 16),
            _ => Instruction::plain(InstructionType::SRL(RegisterTarget::A), 8),
        }
    }

    /// The opcodes `40-4F` of the table of the `CB` prefix, by their low nibble.
    fn cb_row_4(opcode: u8) -> (i: Instruction)
        requires
            opcode / 16 == 0x4,
        ensures
            i == Instruction::decode_cb(opcode),
            i.wf(),
    {
        match opcode % 16 {
            0x0 => Instruction::plain(InstructionType::BIT(0, RegisterTarget::B), 8),
            0x1 => Instruction::plain(InstructionType::BIT(0, RegisterTarget::C), 8),
            0x2 => Instruction::plain(InstructionType::BIT(0, RegisterTarget::D), 8),
            0x3 => Instruction::plain(InstructionType::BIT(0, RegisterTarget::E), 8),
            0x4 => Instruction::plain(InstructionType::BIT(0, RegisterTarget::H), 8),
            0x5 => Instruction::plain(InstructionType::BIT(0, RegisterTarget::L), 8),
            0x6 => Instruction::plain(InstructionType::BIT(0, RegisterTarget::_HL), 12),
            0x7 => Instruction::plain(InstructionType::BIT(0, RegisterTarget::A), 8),
            0x8 => Instruction::plain(InstructionType::BIT(1, RegisterTarget::B), 8),
            0x9 => Instruction::plain(InstructionType::BIT(1, RegisterTarget::C), 8),
            0xa => Instruction::plain(InstructionType::BIT(1, RegisterTarget::D), 8),
            0xb => Instruction::plain(InstructionType::BIT(1, RegisterTarget::E), 8),
            0xc => Instruction::plain(InstructionType::BIT(1, RegisterTarget::H), 8),
            0xd => Instruction::plain(InstructionType::BIT(1, RegisterTarget::L), 8),
            0xe => Instruction::plain(InstructionType::BIT(1, RegisterTarget::_HL), 12),
            _ => Instruction::plain(InstructionType::BIT(1, RegisterTarget::A), 8),
        }
    }

    /// The opcodes `50-5F` of the table of the `CB` prefix, by their low nibble.
    fn cb_row_5(opcode: u8) -> (i: Instruction)
        requires
            opcode / 16 == 0x5,
        ensures
            i == Instruction::decode_cb(opcode),
            i.wf(),
    {
        match opcode % 16 {
            0x0 => Instruction::plain(InstructionType::BIT(2, RegisterTarget::B), 8),
            0x1 => Instruction::plain(InstructionType::BIT(2, RegisterTarget::C), 8),
            0x2 => Instruction::plain(InstructionType::BIT(2, RegisterTarget::D), 8),
            0x3 => Instruction::plain(InstructionType::BIT(2, RegisterTarget::E), 8),
            0x4 => Instruction::plain(InstructionType::BIT(2, RegisterTarget::H), 8),
            0x5 => Instruction::plain(InstructionType::BIT(2, RegisterTarget::L), 8),
            0x6 => Instruction::plain(InstructionType::BIT(2, RegisterTarget::_HL), 12),
            0x7 => Instruction::plain(InstructionType::BIT(2, RegisterTarget::A), 8),
            0x8 => Instruction::plain(InstructionType::BIT(3, RegisterTarget::B), 8),
            0x9 => Instruction::plain(InstructionType::BIT(3, RegisterTarget::C), 8),
            0xa => Instruction::plain(InstructionType::BIT(3, RegisterTarget::D), 8),
            0xb => Instruction::plain(InstructionType::BIT(3, RegisterTarget::E), 8),
            0xc => Instruction::plain(InstructionType::BIT(3, RegisterTarget::H), 8),
            0xd => Instruction::plain(InstructionType::BIT(3, RegisterTarget::L), 8),
            0xe => Instruction::plain(InstructionType::BIT(3, RegisterTarget::_HL), 12),
            _ => Instruction::plain(InstructionType::BIT(3, RegisterTarget::A), 8),
        }
    }

    /// The opcodes `60-6F` of the table of the `CB` prefix, by their low nibble.
    fn cb_row_6(opcode: u8) -> (i: Instruction)
        requires
            opcode / 16 == 0x6,
        ensures
            i == Instruction::decode_cb(opcode),
            i.wf(),
    {
        match opcode % 16 {
            0x0 => Instruction::plain(InstructionType::BIT(4, RegisterTarget::B), 8),
            0x1 => Instruction::plain(InstructionType::BIT(4, RegisterTarget::C), 8),
            0x2 => Instruction::plain(InstructionType::BIT(4, RegisterTarget::D), 8),
            0x3 => Instruction::plain(InstructionType::BIT(4, RegisterTarget::E), 8),
            0x4 => Instruction::plain(InstructionType::BIT(4, RegisterTarget::H), 8),
            0x5 => Instruction::plain(InstructionType::BIT(4, RegisterTarget::L), 8),
            0x6 => Instruction::plain(InstructionType::BIT(4, RegisterTarget::_HL), 12),
            0x7 => Instruction::plain(InstructionType::BIT(4, RegisterTarget::A), 8),
            0x8 => Instruction::plain(InstructionType::BIT(5, RegisterTarget::B), 8),
            0x9 => Instruction::plain(InstructionType::BIT(5, RegisterTarget::C), 8),
            0xa => Instruction::plain(InstructionType::BIT(5, RegisterTarget::D), 8),
            0xb => Instruction::plain(InstructionType::BIT(5, RegisterTarget::E), 8),
            0xc => Instruction::plain(InstructionType::BIT(5, RegisterTarget::H), 8),
            0xd => Instruction::plain(InstructionType::BIT(5, RegisterTarget::L), 8),
            0xe => Instruction::plain(InstructionType::BIT(5, RegisterTarget::_HL), 12),
            _ => Instruction::plain(InstructionType::BIT(5, RegisterTarget::A), 8),
        }
    }

    /// The opcodes `70-7F` of the table of the `CB` prefix, by their low nibble.
    fn cb_row_7(opcode: u8) -> (i: Instruction)
        requires
            opcode / 16 == 0x7,
        ensures
            i == Instruction::decode_cb(opcode),
            i.wf(),
    {
        match opcode % 16 {
            0x0 => Instruction::plain(InstructionType::BIT(6, RegisterTarget::B), 8),
            0x1 => Instruction::plain(InstructionType::BIT(6, RegisterTarget::C), 8),
            0x2 => Instruction::plain(InstructionType::BIT(6, RegisterTarget::D), 8),
            0x3 => Instruction::plain(InstructionType::BIT(6, RegisterTarget::E), 8),
            0x4 => Instruction::plain(InstructionType::BIT(6, RegisterTarget::H), 8),
            0x5 => Instruction::plain(InstructionType::BIT(6, RegisterTarget::L), 8),
            0x6 => Instruction::plain(InstructionType::BIT(6, RegisterTarget::_HL), 12),
            0x7 => Instruction::plain(InstructionType::BIT(6, RegisterTarget::A), 8),
            0x8 => Instruction::plain(InstructionType::BIT(7, RegisterTarget::B), 8),
            0x9 => Instruction::plain(InstructionType::BIT(7, RegisterTarget::C), 8),
            0xa => Instruction::plain(InstructionType::BIT(7, RegisterTarget::D), 8),
            0xb => Instruction::plain(InstructionType::BIT(7, RegisterTarget::E), 8),
            0xc => Instruction::plain(InstructionType::BIT(7, RegisterTarget::H), 8),
            0xd => Instruction::plain(InstructionType::BIT(7, RegisterTarget::L), 8),
            0xe => Instruction::plain(InstructionType::BIT(7, RegisterTarget::_HL), 12),
            _ => Instruction::plain(InstructionType::BIT(7, RegisterTarget::A), 8),
        }
    }

    /// The opcodes `80-8F` of the table of the `CB` prefix, by their low nibble.
    fn cb_row_8(opcode: u8) -> (i: Instruction)
        requires
            opcode / 16 == 0x8,
        ensures
            i == Instruction::decode_cb(opcode),
            i.wf(),
    {
        match opcode % 16 {
            0x0 => Instruction::plain(InstructionType::RES(0, RegisterTarget::B), 8),
            0x1 => Instruction::plain(InstructionType::RES(0, RegisterTarget::C), 8),
            0x2 => Instruction::plain(InstructionType::RES(0, RegisterTarget::D), 8),
            0x3 => Instruction::plain(InstructionType::RES(0, RegisterTarget::E), 8),
            0x4 => Instruction::plain(InstructionType::RES(0, RegisterTarget::H), 8),
            0x5 => Instruction::plain(InstructionType::RES(0, RegisterTarget::L), 8),
            0x6 => Instruction::plain(InstructionType::RES(0, RegisterTarget::_HL), 16),
            0x7 => Instruction::plain(InstructionType::RES(0, RegisterTarget::A), 8),
            0x8 => Instruction::plain(InstructionType::RES(1, RegisterTarget::B), 8),
            0x9 => Instruction::plain(InstructionType::RES(1, RegisterTarget::C), 8),
            0xa => Instruction::plain(InstructionType::RES(1, RegisterTarget::D), 8),
            0xb => Instruction::plain(InstructionType::RES(1, RegisterTarget::E), 8),
            0xc => Instruction::plain(InstructionType::RES(1, RegisterTarget::H), 8),
            0xd => Instruction::plain(InstructionType::RES(1, RegisterTarget::L), 8),
            0xe => Instruction::plain(InstructionType::RES(1, RegisterTarget::_HL), 16),
            _ => Instruction::plain(InstructionType::RES(1, RegisterTarget::A), 8),
        }
    }

    /// The opcodes `90-9F` of the table of the `CB` prefix, by their low nibble.
    fn cb_row_9(opcode: u8) -> (i: Instruction)
        requires
            opcode / 16 == 0x9,
        ensures
            i == Instruction::decode_cb(opcode),
            i.wf(),
    {
        match opcode % 16 {
            0x0 => Instruction::plain(InstructionType::RES(2, RegisterTarget::B), 8),
            0x1 => Instruction::plain(InstructionType::RES(2, RegisterTarget::C), 8),
            0x2 => Instruction::plain(InstructionType::RES(2, RegisterTarget::D), 8),
            0x3 => Instruction::plain(InstructionType::RES(2, RegisterTarget::E), 8),
            0x4 => Instruction::plain(InstructionType::RES(2, RegisterTarget::H), 8),
            0x5 => Instruction::plain(InstructionType::RES(2, RegisterTarget::L), 8),
            0x6 => Instruction::plain(InstructionType::RES(2, RegisterTarget::_HL), 16),
            0x7 => Instruction::plain(InstructionType::RES(2, RegisterTarget::A), 8),
            0x8 => Instruction::plain(InstructionType::RES(3, RegisterTarget::B), 8),
            0x9 => Instruction::plain(InstructionType::RES(3, RegisterTarget::C), 8),
            0xa => Instruction::plain(InstructionType::RES(3, RegisterTarget::D), 8),
            0xb => Instruction::plain(InstructionType::RES(3, RegisterTarget::E), 8),
            0xc => Instruction::plain(InstructionType::RES(3, RegisterTarget::H), 8),
            0xd => Instruction::plain(InstructionType::RES(3, RegisterTarget::L), 8),
            0xe => Instruction::plain(InstructionType::RES(3, RegisterTarget::_HL), 16),
            _ => Instruction::plain(InstructionType::RES(3, RegisterTarget::A), 8),
        }
    }

    /// The opcodes `A0-AF` of the table of the `CB` prefix, by their low nibble.
    fn cb_row_a(opcode: u8) -> (i: Instruction)
        requires
            opcode / 16 == 0xa,
        ensures
            i == Instruction::decode_cb(opcode),
            i.wf(),
    {
        match opcode % 16 {
            0x0 => Instruction::plain(InstructionType::RES(4, RegisterTarget::B), 8),
            0x1 => Instruction::plain(InstructionType::RES(4, RegisterTarget::C), 8),
            0x2 => Instruction::plain(InstructionType::RES(4, RegisterTarget::D), 8),
            0x3 => Instruction::plain(InstructionType::RES(4, RegisterTarget::E), 8),
            0x4 => Instruction::plain(InstructionType::RES(4, RegisterTarget::H), 8),
            0x5 => Instruction::plain(InstructionType::RES(4, RegisterTarget::L), 8),
            0x6 => Instruction::plain(InstructionType::RES(4, RegisterTarget::_HL), 16),
            0x7 => Instruction::plain(InstructionType::RES(4, RegisterTarget::A), 8),
            0x8 => Instruction::plain(InstructionType::RES(5, RegisterTarget::B), 8),
            0x9 => Instruction::plain(InstructionType::RES(5, RegisterTarget::C), 8),
            0xa => Instruction::plain(InstructionType::RES(5, RegisterTarget::D), 8),
            0xb => Instruction::plain(InstructionType::RES(5, RegisterTarget::E), 8),
            0xc => Instruction::plain(InstructionType::RES(5, RegisterTarget::H), 8),
            0xd => Instruction::plain(InstructionType::RES(5, RegisterTarget::L), 8),
            0xe => Instruction::plain(InstructionType::RES(5, RegisterTarget::_HL), 16),
            _ => Instruction::plain(InstructionType::RES(5, RegisterTarget::A), 8),
        }
    }

    /// The opcodes `B0-BF` of the table of the `CB` prefix, by their low nibble.
    fn cb_row_b(opcode: u8) -> (i: Instruction)
        requires
            opcode / 16 == 0xb,
        ensures
            i == Instruction::decode_cb(opcode),
            i.wf(),
    {
        match opcode % 16 {
            0x0 => Instruction::plain(InstructionType::RES(6, RegisterTarget::B), 8),
            0x1 => Instruction::plain(InstructionType::RES(6, RegisterTarget::C), 8),
            0x2 => Instruction::plain(InstructionType::RES(6, RegisterTarget::D), 8),
            0x3 => Instruction::plain(InstructionType::RES(6, RegisterTarget::E), 8),
            0x4 => Instruction::plain(InstructionType::RES(6, RegisterTarget::H), 8),
            0x5 => Instruction::plain(InstructionType::RES(6, RegisterTarget::L), 8),
            0x6 => Instruction::plain(InstructionType::RES(6, RegisterTarget::_HL), 16),
            0x7 => Instruction::plain(InstructionType::RES(6, RegisterTarget::A), 8),
            0x8 => Instruction::plain(InstructionType::RES(7, RegisterTarget::B), 8),
            0x9 => Instruction::plain(InstructionType::RES(7, RegisterTarget::C), 8),
            0xa => Instruction::plain(InstructionType::RES(7, RegisterTarget::D), 8),
            0xb => Instruction::plain(InstructionType::RES(7, RegisterTarget::E), 8),
            0xc => Instruction::plain(InstructionType::RES(7, RegisterTarget::H), 8),
            0xd => Instruction::plain(InstructionType::RES(7, RegisterTarget::L), 8),
            0xe => Instruction::plain(InstructionType::RES(7, RegisterTarget::_HL), 16),
            _ => Instruction::plain(InstructionType::RES(7, RegisterTarget::A), 8),
        }
    }

    /// The opcodes `C0-CF` of the table of the `CB` prefix, by their low nibble.
    fn cb_row_c(opcode: u8) -> (i: Instruction)
        requires
            opcode / 16 == 0xc,
        ensures
            i == Instruction::decode_cb(opcode),
            i.wf(),
    {
        match opcode % 16 {
            0x0 => Instruction::plain(InstructionType::SET(0, RegisterTarget::B), 8),
            0x1 => Instruction::plain(InstructionType::SET(0, RegisterTarget::C), 8),
            0x2 => Instruction::plain(InstructionType::SET(0, RegisterTarget::D), 8),
            0x3 => Instruction::plain(InstructionType::SET(0, RegisterTarget::E), 8),
            0x4 => Instruction::plain(InstructionType::SET(0, RegisterTarget::H), 8),
            0x5 => Instruction::plain(InstructionType::SET(0, RegisterTarget::L), 8),
            0x6 => Instruction::plain(InstructionType::SET(0, RegisterTarget::_HL), 16),
            0x7 => Instruction::plain(InstructionType::SET(0, RegisterTarget::A), 8),
            0x8 => Instruction::plain(InstructionType::SET(1, RegisterTarget::B), 8),
            0x9 => Instruction::plain(InstructionType::SET(1, RegisterTarget::C), 8),
            0xa => Instruction::plain(InstructionType::SET(1, RegisterTarget::D), 8),
            0xb => Instruction::plain(InstructionType::SET(1, RegisterTarget::E), 8),
            0xc => Instruction::plain(InstructionType::SET(1, RegisterTarget::H), 8),
            0xd => Instruction::plain(InstructionType::SET(1, RegisterTarget::L), 8),
            0xe => Instruction::plain(InstructionType::SET(1, RegisterTarget::_HL), 16),
            _ => Instruction::plain(InstructionType::SET(1, RegisterTarget::A), 8),
        }
    }

    /// The opcodes `D0-DF` of the table of the `CB` prefix, by their low nibble.
    fn cb_row_d(opcode: u8) -> (i: Instruction)
        requires
            opcode / 16 == 0xd,
        ensures
            i == Instruction::decode_cb(opcode),
            i.wf(),
    {
        match opcode % 16 {
            0x0 => Instruction::plain(InstructionType::SET(2, RegisterTarget::B), 8),
            0x1 => Instruction::plain(InstructionType::SET(2, RegisterTarget::C), 8),
            0x2 => Instruction::plain(InstructionType::SET(2, RegisterTarget::D), 8),
            0x3 => Instruction::plain(InstructionType::SET(2, RegisterTarget::E), 8),
            0x4 => Instruction::plain(InstructionType::SET(2, RegisterTarget::H), 8),
            0x5 => Instruction::plain(InstructionType::SET(2, RegisterTarget::L), 8),
            0x6 => Instruction::plain(InstructionType::SET(2, RegisterTarget::_HL), 16),
            0x7 => Instruction::plain(InstructionType::SET(2, RegisterTarget::A), 8),
            0x8 => Instruction::plain(InstructionType::SET(3, RegisterTarget::B), 8),
            0x9 => Instruction::plain(InstructionType::SET(3, RegisterTarget::C), 8),
            0xa => Instruction::plain(InstructionType::SET(3, RegisterTarget::D), 8),
            0xb => Instruction::plain(InstructionType::SET(3, RegisterTarget::E), 8),
            0xc => Instruction::plain(InstructionType::SET(3, RegisterTarget::H), 8),
            0xd => Instruction::plain(InstructionType::SET(3, RegisterTarget::L), 8),
            0xe => Instruction::plain(InstructionType::SET(3, RegisterTarget::_HL), 16),
            _ => Instruction::plain(InstructionType::SET(3, RegisterTarget::A), 8),
        }
    }

    /// The opcodes `E0-EF` of the table of the `CB` prefix, by their low nibble.
    fn cb_row_e(opcode: u8) -> (i: Instruction)
        requires
            opcode / 16 == 0xe,
        ensures
            i == Instruction::decode_cb(opcode),
            i.wf(),
    {
        match opcode % 16 {
            0x0 => Instruction::plain(InstructionType::SET(4, RegisterTarget::B), 8),
            0x1 => Instruction::plain(InstructionType::SET(4, RegisterTarget::C), 8),
            0x2 => Instruction::plain(InstructionType::SET(4, RegisterTarget::D), 8),
            0x3 => Instruction::plain(InstructionType::SET(4, RegisterTarget::E), 8),
            0x4 => Instruction::plain(InstructionType::SET(4, RegisterTarget::H), 8),
            0x5 => Instruction::plain(InstructionType::SET(4, RegisterTarget::L), 8),
            0x6 => Instruction::plain(InstructionType::SET(4, RegisterTarget::_HL), 16),
            0x7 => Instruction::plain(InstructionType::SET(4, RegisterTarget::A), 8),
            0x8 => Instruction::plain(InstructionType::SET(5, RegisterTarget::B), 8),
            0x9 => Instruction::plain(InstructionType::SET(5, RegisterTarget::C), 8),
            0xa => Instruction::plain(InstructionType::SET(5, RegisterTarget::D), 8),
            0xb => Instruction::plain(InstructionType::SET(5, RegisterTarget::E), 8),
            0xc => Instruction::plain(InstructionType::SET(5, RegisterTarget::H), 8),
            0xd => Instruction::plain(InstructionType::SET(5, RegisterTarget::L), 8),
            0xe => Instruction::plain(InstructionType::SET(5, RegisterTarget::_HL), 16),
            _ => Instruction::plain(InstructionType::SET(5, RegisterTarget::A), 8),
        }
    }

    /// The opcodes `F0-FF` of the table of the `CB` prefix, by their low nibble.
    fn cb_row_f(opcode: u8) -> (i: Instruction)
        requires
            opcode / 16 == 0xf,
        ensures
            i == Instruction::decode_cb(opcode),
            i.wf(),
    {
        match opcode % 16 {
            0x0 => Instruction::plain(InstructionType::SET(6, RegisterTarget::B), 8),
            0x1 => Instruction::plain(InstructionType::SET(6, RegisterTarget::C), 8),
            0x2 => Instruction::plain(InstructionType::SET(6, RegisterTarget::D), 8),
            0x3 => Instruction::plain(InstructionType::SET(6, RegisterTarget::E), 8),
            0x4 => Instruction::plain(InstructionType::SET(6, RegisterTarget::H), 8),
            0x5 => Instruction::plain(InstructionType::SET(6, RegisterTarget::L), 8),
            0x6 => Instruction::plain(InstructionType::SET(6, RegisterTarget::_HL), 16),
            0x7 => Instruction::plain(InstructionType::SET(6, RegisterTarget::A), 8),
            0x8 => Instruction::plain(InstructionType::SET(7, RegisterTarget::B), 8),
            0x9 => Instruction::plain(InstructionType::SET(7, RegisterTarget::C), 8),
            0xa => Instruction::plain(InstructionType::SET(7, RegisterTarget::D), 8),
            0xb => Instruction::plain(InstructionType::SET(7, RegisterTarget::E), 8),
            0xc => Instruction::plain(InstructionType::SET(7, RegisterTarget::H), 8),
            0xd => Instruction::plain(InstructionType::SET(7, RegisterTarget::L), 8),
            0xe => Instruction::plain(InstructionType::SET(7, RegisterTarget::_HL), 16),
            _ => Instruction::plain(InstructionType::SET(7, RegisterTarget::A), 8),
        }
    }

    /// Looks an opcode up in the main table.
    pub fn from(opcode: u8) -> (i: Instruction)
        ensures
            i == Instruction::decode(opcode),
            i.wf(),
    {
        match opcode / 16 {
            0x0 => Instruction::row_0(opcode),
            0x1 => Instruction::row_1(opcode),
            0x2 => Instruction::row_2(opcode),
            0x3 => Instruction::row_3(opcode),
            0x4 => Instruction::row_4(opcode),
            0x5 => Instruction::row_5(opcode),
            0x6 => Instruction::row_6(opcode),
            0x7 => Instruction::row_7(opcode),
            0x8 => Instruction::row_8(opcode),
            0x9 => Instruction::row_9(opcode),
            0xa => Instruction::row_a(opcode),
            0xb => Instruction::row_b(opcode),
            0xc => Instruction::row_c(opcode),
            0xd => Instruction::row_d(opcode),
            0xe => Instruction::row_e(opcode),
            _ => Instruction::row_f(opcode),
        }
    }

    /// Looks an opcode up in the table of the `CB` prefix.
    pub fn from_cb(opcode: u8) -> (i: Instruction)
        ensures
            i == Instruction::decode_cb(opcode),
            i.wf(),
    {
        match opcode / 16 {
            0x0 => Instruction::cb_row_0(opcode),
            0x1 => Instruction::cb_row_1(opcode),
            0x2 => Instruction::cb_row_2(opcode),
            0x3 => Instruction::cb_row_3(opcode),
            0x4 => Instruction::cb_row_4(opcode),
            0x5 => Instruction::cb_row_5(opcode),
            0x6 => Instruction::cb_row_6(opcode),
            0x7 => Instruction::cb_row_7(opcode),
            0x8 => Instruction::cb_row_8(opcode),
            0x9 => Instruction::cb_row_9(opcode),
            0xa => Instruction::cb_row_a(opcode),
            0xb => Instruction::cb_row_b(opcode),
            0xc => Instruction::cb_row_c(opcode),
            0xd => Instruction::cb_row_d(opcode),
            0xe => Instruction::cb_row_e(opcode),
            _ => Instruction::cb_row_f(opcode),
        }
    }
}

/// Every instruction takes 4, 8, 12, 16, 20 or 24 clock cycles. A
/// conditional relative jump takes 8 cycles or 12 when taken, a
/// conditional jump 12 or 16, a conditional call 12 or 24, a conditional
/// return 8 or 20; every other instruction has one timing.
pub proof fn lemma_timing(opcode: u8)
    ensures
        ({
            let i = Instruction::decode(opcode);
            &&& i.ticks % 4 == 0 && 4 <= i.ticks <= 24
            &&& i.ticks_taken % 4 == 0 && i.ticks <= i.ticks_taken <= 24
            &&& match i.itype {
                InstructionType::JR(c) => c != JumpCondition::NONE ==> i.ticks == 8 && i.ticks_taken
                    == 12,
                InstructionType::JUMP(c) => c != JumpCondition::NONE ==> i.ticks == 12
                    && i.ticks_taken == 16,
                InstructionType::CALL(c) => c != JumpCondition::NONE ==> i.ticks == 12
                    && i.ticks_taken == 24,
                InstructionType::RET(c) => c != JumpCondition::NONE ==> i.ticks == 8
                    && i.ticks_taken == 20,
                _ => i.ticks == i.ticks_taken,
            }
        }),
        ({
            let i = Instruction::decode_cb(opcode);
            i.ticks == i.ticks_taken && (i.ticks == 8 || i.ticks == 12 || i.ticks == 16)
        }),
{
}

/// The main table leaves exactly eleven opcodes undefined.
pub proof fn lemma_illegal_opcodes(opcode: u8)
    ensures
        Instruction::decode(opcode).itype == InstructionType::ILLEGAL <==> (opcode == 0xd3 || opcode
            == 0xdb || opcode == 0xdd || opcode == 0xe3 || opcode == 0xe4 || opcode == 0xeb
            || opcode == 0xec || opcode == 0xed || opcode == 0xf4 || opcode == 0xfc || opcode
            == 0xfd),
{
}

} // verus!
