//! Laws of the processor, proved of the model.
use vstd::prelude::*;
use crate::bits::{wrap16, lemma_wrap16};
use crate::cpu::model::CpuView;
use crate::alu::lemma_alu_keeps_low_nibble_clear;
use crate::instruction::{Instruction, InstructionType, RegisterTarget, RegisterTarget16,
    lemma_timing};
use crate::memory::MemoryView;
use crate::registers::{Flag, Registers, spec_pack_flags, lemma_pack_flags};

verus! {

/// Whether a word can be kept at an address: both of its bytes lie in work
/// RAM, echo RAM or high RAM.
pub open spec fn holds_word(address: u16) -> bool {
    ||| 0xc000 <= address < 0xfdff
    ||| 0xff80 <= address < 0xfffe
}

/// A word written to RAM is read back.
pub proof fn lemma_word_write_read(m: MemoryView, address: u16, value: u16)
    requires
        m.wf(),
        holds_word(address),
    ensures
        m.write_word(address, value).read_word(address) == value,
        m.write_word(address, value).wf(),
{
    reveal(MemoryView::read);
    reveal(MemoryView::write);
    lemma_wrap16(address + 1);
}

/// A word that is pushed is the word that is popped next, and the pop
/// leaves `SP` where it was before the push, provided the two bytes below
/// `SP` lie in RAM.
pub proof fn lemma_push_pop(s: CpuView, value: u16)
    requires
        s.wf(),
        holds_word(wrap16(s.registers.sp - 2)),
    ensures
        s.push_stack(value).pop_stack().0 == value,
        s.push_stack(value).pop_stack().1.registers == s.registers,
        s.push_stack(value).pop_stack().1.memory == s.memory.write_word(
            wrap16(s.registers.sp - 2),
            value,
        ),
{
    let sp = wrap16(s.registers.sp - 2);
    lemma_wrap16(s.registers.sp - 2);
    lemma_wrap16(sp + 2);
    lemma_word_write_read(s.memory, sp, value);
}

/// Writing a register pair with its own value changes nothing; for
/// `AF`, provided the low nibble of `F` is clear.
pub proof fn lemma_pair_write_back(r: Registers)
    ensures
        r.with_bc(r.spec_bc()) == r,
        r.with_de(r.spec_de()) == r,
        r.with_hl(r.spec_hl()) == r,
        r.wf() ==> r.with_af(r.spec_af()) == r,
{
    let f = r.f;
    assert(f & 0x0f == 0 ==> f & 0xf0 == f) by (bit_vector);
}

/// What `PUSH rr` does: the pair's value is pushed.
pub proof fn lemma_push_register(s: CpuView, pair: RegisterTarget16)
    requires
        pair != RegisterTarget16::INSTANT2,
    ensures
        s.execute(Instruction::plain(InstructionType::PUSH(pair), 16)).0 == s.push_stack(
            s.get16(pair).0,
        ),
        s.get16(pair).1 == s,
{
    reveal(CpuView::execute_load);
    reveal(CpuView::get16);
}

/// What `POP rr` does: the word on top of the stack is written to the
/// pair.
pub proof fn lemma_pop_register(s: CpuView, pair: RegisterTarget16)
    ensures
        s.execute(Instruction::plain(InstructionType::POP(pair), 12)).0 == s.pop_stack().1.set16(
            pair,
            s.pop_stack().0,
        ),
{
    reveal(CpuView::execute_load);
}

/// `PUSH rr` followed by `POP rr` leaves every register as it was,
/// provided the two bytes below `SP` lie in RAM.
pub proof fn lemma_push_then_pop_register(s: CpuView, pair: RegisterTarget16)
    requires
        s.wf(),
        holds_word(wrap16(s.registers.sp - 2)),
        pair != RegisterTarget16::INSTANT2,
        pair != RegisterTarget16::SP,
    ensures
        ({
            let push = Instruction::plain(InstructionType::PUSH(pair), 16);
            let pop = Instruction::plain(InstructionType::POP(pair), 12);
            s.execute(push).0.execute(pop).0.registers == s.registers
        }),
{
    let value = s.get16(pair).0;
    let pushed = s.push_stack(value);
    lemma_push_register(s, pair);
    lemma_pop_register(pushed, pair);
    lemma_push_pop(s, value);
    let popped = pushed.pop_stack().1;
    assert(popped.registers == s.registers);
    assert(popped.set16(pair, value).registers == s.registers) by {
        reveal(CpuView::get16);
        reveal(CpuView::set16);
        lemma_pair_write_back(s.registers);
    }
}

/// An instruction takes the cycles that the table gives it: the longer
/// timing exactly when it is a jump, call or return whose condition
/// holds.
pub proof fn lemma_execute_timing(s: CpuView, i: Instruction)
    ensures
        s.execute(i).1 == if s.branches(i) {
            i.ticks_taken
        } else {
            i.ticks
        },
{
    reveal(CpuView::execute_control);
    reveal(CpuView::execute_jump);
    reveal(CpuView::execute_load);
    reveal(CpuView::execute_arithmetic);
    reveal(CpuView::execute_unary);
    reveal(CpuView::execute_wide);
    reveal(CpuView::execute_rotate_a);
    reveal(CpuView::execute_rotate);
    reveal(CpuView::execute_bits);
}

/// The instruction at `PC` takes the cycles that `timing` names.
pub proof fn lemma_call_timing(s: CpuView)
    ensures
        s.call().1 == s.timing(),
        4 <= s.call().1 <= 24,
{
    let opcode = s.memory.read(s.registers.pc);
    let i = Instruction::decode(opcode);
    let next = CpuView {
        halt_bug: false,
        ..if s.halt_bug {
            s
        } else {
            s.with_pc(wrap16(s.registers.pc + 1))
        }
    };
    lemma_timing(opcode);
    lemma_timing(next.fetch_byte().0);
    lemma_execute_timing(next, i);
    lemma_execute_timing(next.fetch_byte().1, Instruction::decode_cb(next.fetch_byte().0));
}

/// Every step of the machine takes from 4 to 24 clock cycles.
pub proof fn lemma_step_cycles(s: CpuView)
    ensures
        4 <= s.cycle().1 <= 24,
        s.step().1 == s.cycle().1,
{
    let awake = CpuView { halted: false, ..s };
    lemma_call_timing(awake);
    lemma_call_timing(CpuView { ime: true, ei_pending: false, ..awake });
}

/// `DI`, `EI`, `NOP` in a row leave `IME` set, provided no interrupt is
/// taken in place of the `DI`.
pub proof fn lemma_di_ei_nop(s: CpuView)
    requires
        s.fault.is_none(),
        !s.halted,
        !s.halt_bug,
        !(s.ime && s.pending() != 0),
        s.memory.read(s.registers.pc) == 0xf3,
        ({
            let after_di = s.step().0;
            after_di.memory.read(after_di.registers.pc) == 0xfb
        }),
        ({
            let after_ei = s.step().0.step().0;
            after_ei.memory.read(after_ei.registers.pc) == 0x00
        }),
    ensures
        !s.step().0.ime,
        !s.step().0.step().0.ime,
        s.step().0.step().0.step().0.ime,
{
    reveal(CpuView::execute_control);
    let s1 = s.step().0;
    let s2 = s1.step().0;
    assert(Instruction::decode(0xf3).itype == InstructionType::DI);
    assert(Instruction::decode(0xfb).itype == InstructionType::EI);
    assert(Instruction::decode(0x00).itype == InstructionType::NOP);
    assert(!s1.ime && !s1.ei_pending && s1.fault.is_none() && !s1.halted && !s1.halt_bug);
    assert(!s2.ime && s2.ei_pending && s2.fault.is_none() && !s2.halted && !s2.halt_bug);
}

/// A whole number of steps: the machine after it has been stepped until
/// at least `budget` clock cycles have passed.
pub open spec fn run(s: CpuView, budget: nat) -> CpuView
    decreases budget,
    via run_decreases
{
    if budget == 0 {
        s
    } else if s.step().1 >= budget {
        s.step().0
    } else {
        run(s.step().0, (budget - s.step().1) as nat)
    }
}

#[via_fn]
proof fn run_decreases(s: CpuView, budget: nat) {
    lemma_step_cycles(s);
}


/// Reading an operand leaves the flags alone, and so does writing one;
/// a write to `AF` clears the low nibble of `F`.
pub proof fn lemma_operands_keep_low_nibble_clear(
    s: CpuView,
    target: RegisterTarget,
    wide: RegisterTarget16,
    value: u8,
    word: u16,
)
    requires
        s.registers.wf(),
    ensures
        s.get(target).1.registers.wf(),
        s.get16(wide).1.registers.wf(),
        s.set(target, value).registers.wf(),
        s.set16(wide, word).registers.wf(),
{
    reveal(CpuView::get);
    reveal(CpuView::get16);
    reveal(CpuView::set);
    reveal(CpuView::set16);
    lemma_alu_keeps_low_nibble_clear(s.registers, value, word, false);
}

/// Every arithmetic and logic operation leaves the low nibble of `F`
/// clear, whatever its operands.
pub proof fn lemma_alu_keeps_flags_valid()
    ensures
        forall|r: Registers, value: u8, flag: bool| (#[trigger] r.spec_add(value, flag)).wf(),
        forall|r: Registers, value: u8, flag: bool| (#[trigger] r.spec_sub(value, flag)).wf(),
        forall|r: Registers, value: u8| (#[trigger] r.spec_cp(value)).wf(),
        forall|r: Registers, value: u8| (#[trigger] r.spec_and(value)).wf(),
        forall|r: Registers, value: u8| (#[trigger] r.spec_or(value)).wf(),
        forall|r: Registers, value: u8| (#[trigger] r.spec_xor(value)).wf(),
        forall|r: Registers, value: u8| (#[trigger] r.spec_inc(value)).wf(),
        forall|r: Registers, value: u8| (#[trigger] r.spec_dec(value)).wf(),
        forall|r: Registers, value: u8, flag: bool| (#[trigger] r.spec_shifted(value, flag)).wf(),
        forall|r: Registers| (#[trigger] r.spec_daa()).wf(),
        forall|r: Registers| (#[trigger] r.spec_cpl()).wf(),
        forall|r: Registers| (#[trigger] r.spec_scf()).wf(),
        forall|r: Registers| (#[trigger] r.spec_ccf()).wf(),
        forall|r: Registers, wide: u16| (#[trigger] r.spec_add_hl(wide)).wf(),
        forall|r: Registers, value: u8| (#[trigger] r.spec_sp_flags(value)).wf(),
        forall|r: Registers, value: u8, bit: u8| (#[trigger] r.spec_bit(value, bit)).wf(),
        forall|r: Registers, z: bool, n: bool, h: bool, c: bool|
            (#[trigger] r.with_flags(z, n, h, c)).wf(),
{
    assert forall|r: Registers, value: u8, flag: bool| (#[trigger] r.spec_add(value, flag)).wf() by {
        lemma_alu_keeps_low_nibble_clear(r, value, 0, flag);
    }
    assert forall|r: Registers, value: u8, flag: bool| (#[trigger] r.spec_sub(value, flag)).wf() by {
        lemma_alu_keeps_low_nibble_clear(r, value, 0, flag);
    }
    assert forall|r: Registers, value: u8| (#[trigger] r.spec_cp(value)).wf() by {
        lemma_alu_keeps_low_nibble_clear(r, value, 0, false);
    }
    assert forall|r: Registers, value: u8| (#[trigger] r.spec_and(value)).wf() by {
        lemma_alu_keeps_low_nibble_clear(r, value, 0, false);
    }
    assert forall|r: Registers, value: u8| (#[trigger] r.spec_or(value)).wf() by {
        lemma_alu_keeps_low_nibble_clear(r, value, 0, false);
    }
    assert forall|r: Registers, value: u8| (#[trigger] r.spec_xor(value)).wf() by {
        lemma_alu_keeps_low_nibble_clear(r, value, 0, false);
    }
    assert forall|r: Registers, value: u8| (#[trigger] r.spec_inc(value)).wf() by {
        lemma_alu_keeps_low_nibble_clear(r, value, 0, false);
    }
    assert forall|r: Registers, value: u8| (#[trigger] r.spec_dec(value)).wf() by {
        lemma_alu_keeps_low_nibble_clear(r, value, 0, false);
    }
    assert forall|r: Registers, value: u8, flag: bool| (#[trigger] r.spec_shifted(value, flag)).wf() by {
        lemma_alu_keeps_low_nibble_clear(r, value, 0, flag);
    }
    assert forall|r: Registers| (#[trigger] r.spec_daa()).wf() by {
        lemma_alu_keeps_low_nibble_clear(r, 0, 0, false);
    }
    assert forall|r: Registers| (#[trigger] r.spec_cpl()).wf() by {
        lemma_alu_keeps_low_nibble_clear(r, 0, 0, false);
    }
    assert forall|r: Registers| (#[trigger] r.spec_scf()).wf() by {
        lemma_alu_keeps_low_nibble_clear(r, 0, 0, false);
    }
    assert forall|r: Registers| (#[trigger] r.spec_ccf()).wf() by {
        lemma_alu_keeps_low_nibble_clear(r, 0, 0, false);
    }
    assert forall|r: Registers, wide: u16| (#[trigger] r.spec_add_hl(wide)).wf() by {
        lemma_alu_keeps_low_nibble_clear(r, 0, wide, false);
    }
    assert forall|r: Registers, value: u8| (#[trigger] r.spec_sp_flags(value)).wf() by {
        lemma_alu_keeps_low_nibble_clear(r, value, 0, false);
    }
    assert forall|r: Registers, value: u8, bit: u8| (#[trigger] r.spec_bit(value, bit)).wf() by {
        reveal(Registers::spec_bit);
        lemma_pack_flags(value & (1u8 << bit) == 0, false, true, r.spec_get_flag(Flag::Carry));
    }
    assert forall|r: Registers, z: bool, n: bool, h: bool, c: bool|
        (#[trigger] r.with_flags(z, n, h, c)).wf() by {
        lemma_pack_flags(z, n, h, c);
    }
}

/// Reading or writing an operand leaves the low nibble of `F` clear,
/// whatever the operand.
pub proof fn lemma_operands_keep_flags_valid()
    ensures
        forall|t: CpuView, target: RegisterTarget|
            t.registers.wf() ==> (#[trigger] t.get(target)).1.registers.wf(),
        forall|t: CpuView, wide: RegisterTarget16|
            t.registers.wf() ==> (#[trigger] t.get16(wide)).1.registers.wf(),
        forall|t: CpuView, target: RegisterTarget, value: u8|
            t.registers.wf() ==> (#[trigger] t.set(target, value)).registers.wf(),
        forall|t: CpuView, wide: RegisterTarget16, word: u16|
            t.registers.wf() ==> (#[trigger] t.set16(wide, word)).registers.wf(),
{
    assert forall|t: CpuView, target: RegisterTarget| t.registers.wf() implies (#[trigger] t.get(
        target,
    )).1.registers.wf() by {
        lemma_operands_keep_low_nibble_clear(t, target, RegisterTarget16::BC, 0, 0);
    }
    assert forall|t: CpuView, wide: RegisterTarget16| t.registers.wf() implies (#[trigger] t.get16(
        wide,
    )).1.registers.wf() by {
        lemma_operands_keep_low_nibble_clear(t, RegisterTarget::A, wide, 0, 0);
    }
    assert forall|t: CpuView, target: RegisterTarget, value: u8|
        t.registers.wf() implies (#[trigger] t.set(target, value)).registers.wf() by {
        lemma_operands_keep_low_nibble_clear(t, target, RegisterTarget16::BC, value, 0);
    }
    assert forall|t: CpuView, wide: RegisterTarget16, word: u16|
        t.registers.wf() implies (#[trigger] t.set16(wide, word)).registers.wf() by {
        lemma_operands_keep_low_nibble_clear(t, RegisterTarget::A, wide, 0, word);
    }
}

/// Whatever instruction runs, it leaves the low nibble of `F` clear.
pub proof fn lemma_execute_keeps_low_nibble_clear(s: CpuView, i: Instruction)
    requires
        s.registers.wf(),
    ensures
        s.execute(i).0.registers.wf(),
{
    lemma_operands_keep_flags_valid();
    lemma_alu_keeps_flags_valid();
    match i.itype {
        InstructionType::NOP
        | InstructionType::STOP
        | InstructionType::HALT
        | InstructionType::PREFIX_CB
        | InstructionType::DI
        | InstructionType::EI
        | InstructionType::ILLEGAL => {
            reveal(CpuView::execute_control);
            assert(s.execute_control(i).0.registers.wf());
        },
        InstructionType::JR(_)
        | InstructionType::JUMP(_)
        | InstructionType::JP_HL
        | InstructionType::CALL(_)
        | InstructionType::RET(_)
        | InstructionType::RETI
        | InstructionType::RST(_) => {
            reveal(CpuView::execute_jump);
            assert(s.execute_jump(i).0.registers.wf());
        },
        InstructionType::LOAD11(_, _)
        | InstructionType::LOAD12(_, _)
        | InstructionType::LOAD21(_, _)
        | InstructionType::LDH(_, _)
        | InstructionType::LD(_, _)
        | InstructionType::LOAD22(_, _)
        | InstructionType::LDHL
        | InstructionType::POP(_)
        | InstructionType::PUSH(_) => {
            reveal(CpuView::execute_load);
            assert(s.execute_load(i).0.registers.wf());
        },
        InstructionType::ADD(_)
        | InstructionType::ADC(_)
        | InstructionType::SUB(_)
        | InstructionType::SBC(_)
        | InstructionType::AND(_)
        | InstructionType::XOR(_)
        | InstructionType::OR(_)
        | InstructionType::CP(_) => {
            reveal(CpuView::execute_arithmetic);
            assert(s.execute_arithmetic(i).0.registers.wf());
        },
        InstructionType::INC(_)
        | InstructionType::DEC(_)
        | InstructionType::DAA
        | InstructionType::CPL
        | InstructionType::SCF
        | InstructionType::CCF => {
            reveal(CpuView::execute_unary);
            assert(s.execute_unary(i).0.registers.wf());
        },
        InstructionType::INC2(_)
        | InstructionType::DEC2(_)
        | InstructionType::ADD22(_)
        | InstructionType::ADDSP => {
            reveal(CpuView::execute_wide);
            assert(s.execute_wide(i).0.registers.wf());
        },
        InstructionType::RLCA
        | InstructionType::RRCA
        | InstructionType::RLA
        | InstructionType::RRA => {
            reveal(CpuView::execute_rotate_a);
            assert(s.execute_rotate_a(i).0.registers.wf());
        },
        InstructionType::RLC(_)
        | InstructionType::RRC(_)
        | InstructionType::RL(_)
        | InstructionType::RR(_)
        | InstructionType::SLA(_)
        | InstructionType::SRA(_)
        | InstructionType::SWAP(_)
        | InstructionType::SRL(_) => {
            reveal(CpuView::execute_rotate);
            assert(s.execute_rotate(i).0.registers.wf());
        },
        _ => {
            reveal(CpuView::execute_bits);
            assert(s.execute_bits(i).0.registers.wf());
        },
    }
}

/// After any step of the machine, the low nibble of `F` is clear.
pub proof fn lemma_step_keeps_low_nibble_clear(s: CpuView)
    requires
        s.registers.wf(),
    ensures
        s.step().0.registers.wf(),
{
    let awake = CpuView { halted: false, ..s };
    let enabled = CpuView { ime: true, ei_pending: false, ..awake };
    lemma_call_keeps_low_nibble_clear(awake);
    lemma_call_keeps_low_nibble_clear(enabled);
}

/// The instruction at `PC` leaves the low nibble of `F` clear.
pub proof fn lemma_call_keeps_low_nibble_clear(s: CpuView)
    requires
        s.registers.wf(),
    ensures
        s.call().0.registers.wf(),
{
    let opcode = s.memory.read(s.registers.pc);
    let next = CpuView {
        halt_bug: false,
        ..if s.halt_bug {
            s
        } else {
            s.with_pc(wrap16(s.registers.pc + 1))
        }
    };
    lemma_execute_keeps_low_nibble_clear(next, Instruction::decode(opcode));
    lemma_execute_keeps_low_nibble_clear(
        next.fetch_byte().1,
        Instruction::decode_cb(next.fetch_byte().0),
    );
}

/// The opcode `AF`, `XOR A`, leaves zero in `A`, sets the zero flag and
/// clears the other three.
pub proof fn lemma_xor_a_instruction(s: CpuView)
    ensures
        Instruction::decode(0xaf).itype == InstructionType::XOR(RegisterTarget::A),
        s.execute(Instruction::decode(0xaf)).0.registers == s.registers.spec_xor(s.registers.a),
        s.execute(Instruction::decode(0xaf)).0.registers.a == 0,
        s.execute(Instruction::decode(0xaf)).0.registers.f == 0x80,
        s.execute(Instruction::decode(0xaf)).0.memory == s.memory,
{
    reveal(CpuView::execute_arithmetic);
    reveal(CpuView::get);
    reveal(Registers::spec_xor);
    crate::alu::lemma_xor_a(s.registers);
    assert(spec_pack_flags(true, false, false, false) == 0x80) by (bit_vector);
}

/// The opcode `2F`, `CPL`, run twice gives `A` back; the second run
/// changes no flag.
pub proof fn lemma_cpl_instruction_twice(s: CpuView)
    ensures
        Instruction::decode(0x2f).itype == InstructionType::CPL,
        ({
            let cpl = Instruction::decode(0x2f);
            let once = s.execute(cpl).0;
            let twice = once.execute(cpl).0;
            &&& once.registers == s.registers.spec_cpl()
            &&& twice.registers.a == s.registers.a
            &&& twice.registers.f == once.registers.f
            &&& once.registers.spec_get_flag(Flag::Sub)
            &&& once.registers.spec_get_flag(Flag::HalfCarry)
            &&& twice.memory == s.memory
        }),
{
    reveal(CpuView::execute_unary);
    crate::alu::lemma_cpl_twice(s.registers);
}

} // verus!
