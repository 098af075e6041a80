//! The interpreter for the Sharp LR35902.
use vstd::prelude::*;
use crate::bits::lemma_sign_extend;
use crate::cpu::model::{CpuView, spec_first_request, spec_interrupt_vector};
use crate::error::IllegalOpcode;
use crate::instruction::{Instruction, InstructionType};
use crate::memory::Memory;
use crate::registers::Registers;

pub mod model;
pub mod alu;
pub mod execute;
pub mod laws;

verus! {

/// The processor together with the bus that it drives.
pub struct CPU {
    pub registers: Registers,
    pub memory: Memory,
    pub ime: bool,
    pub ei_pending: bool,
    pub halted: bool,
    pub halt_bug: bool,
    pub fault: Option<IllegalOpcode>,
}

impl View for CPU {
    type V = CpuView;

    open spec fn view(&self) -> CpuView {
        CpuView {
            registers: self.registers,
            memory: self.memory@,
            ime: self.ime,
            ei_pending: self.ei_pending,
            halted: self.halted,
            halt_bug: self.halt_bug,
            fault: self.fault,
        }
    }
}

/// The lowest set bit of a non-zero set of interrupt requests.
pub fn first_request(pending: u8) -> (request: u8)
    ensures
        request == spec_first_request(pending),
{
    if pending & 0x01 != 0 {
        0x01
    } else if pending & 0x02 != 0 {
        0x02
    } else if pending & 0x04 != 0 {
        0x04
    } else if pending & 0x08 != 0 {
        0x08
    } else {
        0x10
    }
}

/// The address of the handler of an interrupt request bit.
pub fn interrupt_vector(request: u8) -> (address: u16)
    ensures
        address == spec_interrupt_vector(request),
{
    match request {
        0x01 => 0x40,
        0x02 => 0x48,
        0x04 => 0x50,
        0x08 => 0x58,
        _ => 0x60,
    }
}

impl CPU {
    pub open spec fn wf(&self) -> bool {
        self@.wf()
    }

    /// The machine at power-on, as the boot program leaves it, with no
    /// cartridge in the slot.
    pub open spec fn power_on() -> CpuView {
        CpuView {
            registers: Registers::post_boot(),
            memory: crate::memory::MemoryView::power_on(),
            ime: false,
            ei_pending: false,
            halted: false,
            halt_bug: false,
            fault: None,
        }
    }

    pub fn new() -> (cpu: CPU)
        ensures
            cpu.wf(),
            cpu@ == CPU::power_on(),
    {
        CPU {
            registers: Registers::new(),
            memory: Memory::new(),
            ime: false,
            ei_pending: false,
            halted: false,
            halt_bug: false,
            fault: None,
        }
    }

    /// Restores the registers and the interrupt state of power-on. The
    /// bus and the cartridge stay as they are.
    pub fn reset(&mut self)
        requires
            old(self).wf(),
        ensures
            final(self).wf(),
            final(self)@ == (CpuView { memory: old(self)@.memory, ..CPU::power_on() }),
    {
        self.registers = Registers::new();
        self.ime = false;
        self.ei_pending = false;
        self.halted = false;
        self.halt_bug = false;
        self.fault = None;
    }

    pub fn read_byte(&self, address: u16) -> (r: u8)
        requires
            self.wf(),
        ensures
            r == self@.memory.read(address),
    {
        self.memory.read(address)
    }

    pub fn write_byte(&mut self, address: u16, value: u8)
        requires
            old(self).wf(),
        ensures
            final(self).wf(),
            final(self)@ == old(self)@.write(address, value),
    {
        self.memory.write(address, value);
    }

    /// Writes a little-endian word, low byte first.
    pub fn write_word(&mut self, address: u16, value: u16)
        requires
            old(self).wf(),
        ensures
            final(self).wf(),
            final(self)@ == old(self)@.with_memory(
                old(self)@.memory.write_word(address, value),
            ),
    {
        self.memory.write_word(address, value);
    }

    /// Reads the byte at `PC` and moves `PC` past it.
    pub fn fetch_byte(&mut self) -> (r: u8)
        requires
            old(self).wf(),
        ensures
            final(self).wf(),
            (r, final(self)@) == old(self)@.fetch_byte(),
    {
        let value = self.memory.read(self.registers.pc);
        self.registers.pc = self.registers.pc.wrapping_add(1);
        value
    }

    /// Reads the word at `PC`.
    pub fn read_word(&self) -> (r: u16)
        requires
            self.wf(),
        ensures
            r == self@.memory.read_word(self.registers.pc),
    {
        self.memory.read_word(self.registers.pc)
    }

    /// Reads the word at `PC` and moves `PC` past it.
    pub fn fetch_word(&mut self) -> (r: u16)
        requires
            old(self).wf(),
        ensures
            final(self).wf(),
            (r, final(self)@) == old(self)@.fetch_word(),
    {
        let value = self.read_word();
        self.registers.pc = self.registers.pc.wrapping_add(2);
        value
    }

    pub fn push_stack(&mut self, value: u16)
        requires
            old(self).wf(),
        ensures
            final(self).wf(),
            final(self)@ == old(self)@.push_stack(value),
    {
        self.registers.sp = self.registers.sp.wrapping_sub(2);
        self.memory.write_word(self.registers.sp, value);
    }

    pub fn pop_stack(&mut self) -> (r: u16)
        requires
            old(self).wf(),
        ensures
            final(self).wf(),
            (r, final(self)@) == old(self)@.pop_stack(),
    {
        let value = self.memory.read_word(self.registers.sp);
        self.registers.sp = self.registers.sp.wrapping_add(2);
        value
    }

    /// Jumps by the signed byte at `PC`, counted from the address that
    /// follows it.
    pub fn jr(&mut self)
        requires
            old(self).wf(),
        ensures
            final(self).wf(),
            final(self)@ == old(self)@.jr(),
    {
        let byte = self.fetch_byte();
        proof {
            lemma_sign_extend(byte);
        }
        let offset = byte as i8 as u16;
        self.registers.pc = self.registers.pc.wrapping_add(offset);
    }

    /// The interrupt requests that are enabled.
    pub fn pending(&self) -> (r: u8)
        ensures
            r == self@.pending(),
    {
        self.memory.interrupt_flags & self.memory.interrupt_enable & 0x1f
    }

    /// Enters the handler at `address`.
    pub fn call_interrupt(&mut self, address: u16)
        requires
            old(self).wf(),
        ensures
            final(self).wf(),
            final(self)@ == old(self)@.call_interrupt(address),
    {
        let pc = self.registers.pc;
        self.push_stack(pc);
        self.registers.pc = address;
    }

    /// Takes the first pending interrupt.
    pub fn handle_interrupts(&mut self)
        requires
            old(self).wf(),
        ensures
            final(self).wf(),
            final(self)@ == old(self)@.handle_interrupts(),
    {
        let interrupt_flags = self.memory.interrupt_flags;
        let pending = self.pending();
        if pending == 0 {
            return ;
        }
        let request = first_request(pending);
        self.call_interrupt(interrupt_vector(request));
        self.memory.write(0xff0f, interrupt_flags & !request);
        self.ime = false;
    }

    /// Runs the instruction of the prefixed table at `PC`.
    pub fn cb_call(&mut self) -> (cycles: u8)
        requires
            old(self).wf(),
        ensures
            final(self).wf(),
            (final(self)@, cycles) == old(self)@.cb_call(),
            cycles == Instruction::decode_cb(old(self)@.memory.read(old(self).registers.pc)).ticks,
            cycles == 8 || cycles == 12 || cycles == 16,
    {
        let opcode = self.fetch_byte();
        proof {
            crate::instruction::lemma_timing(opcode);
        }
        self.execute(Instruction::from_cb(opcode))
    }

    /// Runs the instruction at `PC`.
    pub fn call(&mut self) -> (cycles: u8)
        requires
            old(self).wf(),
        ensures
            final(self).wf(),
            (final(self)@, cycles) == old(self)@.call(),
            cycles == old(self)@.timing(),
            4 <= cycles <= 24,
    {
        proof {
            crate::instruction::lemma_timing(self@.memory.read(self.registers.pc));
        }
        let pc = self.registers.pc;
        let opcode = self.memory.read(pc);
        if self.halt_bug {
            self.halt_bug = false;
        } else {
            self.registers.pc = pc.wrapping_add(1);
        }
        let instruction = Instruction::from(opcode);
        match instruction.itype {
            InstructionType::ILLEGAL => {
                self.registers.pc = pc;
                self.fault = Some(IllegalOpcode { opcode, pc });
                instruction.ticks
            },
            InstructionType::PREFIX_CB => self.cb_call(),
            _ => self.execute(instruction),
        }
    }

    /// One step of the processor alone, without the devices.
    pub fn cycle(&mut self) -> (cycles: u8)
        requires
            old(self).wf(),
        ensures
            final(self).wf(),
            (final(self)@, cycles) == old(self)@.cycle(),
            4 <= cycles <= 24,
    {
        if self.fault.is_some() {
            return 4;
        }
        let pending = self.pending();
        if self.halted && pending == 0 {
            return 4;
        }
        self.halted = false;
        if self.ime && pending != 0 {
            self.handle_interrupts();
            return 20;
        }
        if self.ei_pending {
            self.ime = true;
            self.ei_pending = false;
        }
        self.call()
    }

    /// One step of the machine: runs one instruction, or takes one
    /// interrupt, then advances the devices by the cycles that took.
    /// Returns those cycles.
    pub fn step(&mut self) -> (cycles: u8)
        requires
            old(self).wf(),
        ensures
            final(self).wf(),
            (final(self)@, cycles) == old(self)@.step(),
            4 <= cycles <= 24,
    {
        let ticks = self.cycle();
        self.memory.step(ticks);
        ticks
    }
}

} // verus!
