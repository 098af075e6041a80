//! The machine as a host drives it: it is built from a cartridge image,
//! runs frame by frame, takes key events and shows its framebuffer.
use vstd::prelude::*;
use crate::cpu::CPU;
use crate::cpu::laws::run;
use crate::cpu::model::CpuView;
use crate::error::LoadError;
use crate::header::{Header, header_checksum};
use crate::keypad::KeyEvent;
use crate::mbc::{spec_from_rom, spec_load_error};
use crate::memory::MemoryView;

verus! {

/// The clock cycles of one frame: 154 lines of 456 dots.
pub const CYCLES_PER_FRAME: u32 = 70224;

/// The clock cycles of one second.
pub const CYCLES_PER_SECOND: u32 = 4_194_304;

/// The kind of machine that a cartridge asks for.
#[derive(Debug, Copy, Clone, PartialEq, Eq)]
pub enum GBMode {
    DMG,
    CGB,
}

/// A machine with a cartridge in its slot.
pub struct Gameboy {
    pub cpu: CPU,
    pub header: Header,
}

/// The error, if any, that keeps an image from being run. A header
/// checksum that does not match is an error only when the caller rejects
/// such images.
pub open spec fn spec_start_error(rom: Seq<u8>, reject_bad_checksum: bool) -> Option<LoadError> {
    match spec_load_error(rom) {
        Some(error) => Some(error),
        None => if reject_bad_checksum && header_checksum(rom) != rom[0x14d] {
            Some(LoadError::BadHeaderChecksum)
        } else {
            None
        },
    }
}

/// The machine at power-on with the cartridge of an image in its slot.
pub open spec fn spec_start(rom: Seq<u8>) -> CpuView {
    CpuView {
        memory: MemoryView { mbc: spec_from_rom(rom), ..MemoryView::power_on() },
        ..CPU::power_on()
    }
}

impl Gameboy {
    pub open spec fn wf(&self) -> bool {
        self.cpu.wf()
    }

    /// The machine for a cartridge image. An image whose header checksum
    /// does not match is accepted.
    pub fn new(rom: &Vec<u8>) -> (result: Result<Gameboy, LoadError>)
        ensures
            match result {
                Ok(gameboy) => spec_start_error(rom@, false).is_none() && gameboy.wf()
                    && gameboy.cpu@ == spec_start(rom@) && gameboy.header.describes(rom@),
                Err(error) => spec_start_error(rom@, false) == Some(error),
            },
    {
        Gameboy::load(rom, false)
    }

    /// The machine for a cartridge image; with `reject_bad_checksum`, an
    /// image whose header checksum does not match is refused.
    pub fn load(rom: &Vec<u8>, reject_bad_checksum: bool) -> (result: Result<Gameboy, LoadError>)
        ensures
            match result {
                Ok(gameboy) => spec_start_error(rom@, reject_bad_checksum).is_none()
                    && gameboy.wf() && gameboy.cpu@ == spec_start(rom@)
                    && gameboy.header.describes(rom@),
                Err(error) => spec_start_error(rom@, reject_bad_checksum) == Some(error),
            },
    {
        let header = match Header::load_rom(rom) {
            Ok(header) => header,
            Err(error) => {
                return Err(error);
            },
        };
        let mut cpu = CPU::new();
        match cpu.memory.load_rom(rom) {
            Ok(_) => {},
            Err(error) => {
                return Err(error);
            },
        }
        if reject_bad_checksum && !header.is_valid(rom) {
            return Err(LoadError::BadHeaderChecksum);
        }
        Ok(Gameboy { cpu, header })
    }

    /// The header of the cartridge.
    pub fn header(&self) -> (header: &Header)
        ensures
            *header == self.header,
    {
        &self.header
    }

    /// The kind of machine that the cartridge asks for: bit 7 of its CGB
    /// flag.
    pub fn mode(&self) -> (mode: GBMode)
        ensures
            mode == if self.header.cgb_flag & 0x80 != 0 {
                GBMode::CGB
            } else {
                GBMode::DMG
            },
    {
        if self.header.cgb_flag & 0x80 != 0 {
            GBMode::CGB
        } else {
            GBMode::DMG
        }
    }

    /// The framebuffer: 160 by 144 shades from 0 to 3.
    pub fn get_screen_data(&self) -> (screen: &Vec<u8>)
        ensures
            screen@ == self.cpu@.memory.gpu.screen,
    {
        self.cpu.memory.gpu.screen_data()
    }

    /// Presses or releases a key.
    pub fn handle_key(&mut self, event: KeyEvent)
        ensures
            final(self).cpu@ == old(self).cpu@.with_memory(
                MemoryView {
                    keypad: match event {
                        KeyEvent::Press(key) => old(self).cpu.memory.keypad.spec_press(key),
                        KeyEvent::Release(key) => old(self).cpu.memory.keypad.spec_release(key),
                    },
                    ..old(self).cpu@.memory
                },
            ),
            final(self).header == old(self).header,
            old(self).wf() ==> final(self).wf(),
    {
        self.cpu.memory.keypad.handle(event);
    }

    /// Runs one instruction, or takes one interrupt. Returns the clock
    /// cycles that took.
    pub fn step(&mut self) -> (cycles: u8)
        requires
            old(self).wf(),
        ensures
            final(self).wf(),
            (final(self).cpu@, cycles) == old(self).cpu@.step(),
            final(self).header == old(self).header,
            4 <= cycles <= 24,
    {
        self.cpu.step()
    }

    /// Runs the machine for one frame: whole steps until at least 70224
    /// clock cycles have passed. Returns the cycles that passed, which
    /// exceed the frame by less than one step.
    pub fn update(&mut self) -> (cycles: u32)
        requires
            old(self).wf(),
        ensures
            final(self).wf(),
            final(self).cpu@ == run(old(self).cpu@, CYCLES_PER_FRAME as nat),
            final(self).header == old(self).header,
            CYCLES_PER_FRAME <= cycles < CYCLES_PER_FRAME + 24,
    {
        let mut cycles: u32 = 0;
        while cycles < CYCLES_PER_FRAME
            invariant
                self.wf(),
                self.header == old(self).header,
                cycles < CYCLES_PER_FRAME + 24,
                cycles < CYCLES_PER_FRAME ==> run(self.cpu@, (CYCLES_PER_FRAME - cycles) as nat)
                    == run(old(self).cpu@, CYCLES_PER_FRAME as nat),
                cycles >= CYCLES_PER_FRAME ==> self.cpu@ == run(
                    old(self).cpu@,
                    CYCLES_PER_FRAME as nat,
                ),
            decreases CYCLES_PER_FRAME + 24 - cycles,
        {
            let ghost before = self.cpu@;
            let ghost budget = (CYCLES_PER_FRAME - cycles) as nat;
            let ticks = self.cpu.step();
            assert(run(before, budget) == if ticks >= budget {
                self.cpu@
            } else {
                run(self.cpu@, (budget - ticks) as nat)
            });
            cycles = cycles + ticks as u32;
        }
        cycles
    }

    /// Runs the machine for one frame and returns the framebuffer.
    pub fn step_frame(&mut self) -> (screen: &Vec<u8>)
        requires
            old(self).wf(),
        ensures
            final(self).wf(),
            final(self).cpu@ == run(old(self).cpu@, CYCLES_PER_FRAME as nat),
            final(self).header == old(self).header,
            screen@ == final(self).cpu@.memory.gpu.screen,
    {
        let _ = self.update();
        self.cpu.memory.gpu.screen_data()
    }
}

} // verus!
