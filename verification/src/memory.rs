//! The memory bus: it decodes every 16-bit address to the component that
//! owns it, holds work RAM, high RAM and the two interrupt registers, and
//! moves the timer and the pixel-processing unit forward in time.
use vstd::prelude::*;
use crate::bits::{word, hi_byte, lo_byte, wrap16, lemma_word_masks, lemma_word_pack,
    lemma_word_split};
use crate::error::LoadError;
use crate::gpu::{GPU, GpuView, LcdRegisters};
use crate::keypad::Keypad;
use crate::mbc::{MBC, Cartridge, CartridgeView, from_rom, spec_from_rom, spec_load_error};
use crate::mbc::no_mbc::{NoMBC, NoMbcView};
use crate::timer::Timer;

verus! {

pub const WRAM_SIZE: usize = 0x2000;

pub const HRAM_SIZE: usize = 0x7F;

/// The bus and everything on it.
pub struct Memory {
    pub mbc: Cartridge,
    pub gpu: GPU,
    pub keypad: Keypad,
    pub timer: Timer,
    /// `IF`, the interrupt requests.
    pub interrupt_flags: u8,
    /// `IE`, the interrupt mask.
    pub interrupt_enable: u8,
    pub wram: Vec<u8>,
    pub hram: Vec<u8>,
}

/// The bus as mathematics.
pub struct MemoryView {
    pub mbc: CartridgeView,
    pub gpu: GpuView,
    pub keypad: Keypad,
    pub timer: Timer,
    pub interrupt_flags: u8,
    pub interrupt_enable: u8,
    pub wram: Seq<u8>,
    pub hram: Seq<u8>,
}

impl View for Memory {
    type V = MemoryView;

    open spec fn view(&self) -> MemoryView {
        MemoryView {
            mbc: self.mbc@,
            gpu: self.gpu@,
            keypad: self.keypad,
            timer: self.timer,
            interrupt_flags: self.interrupt_flags,
            interrupt_enable: self.interrupt_enable,
            wram: self.wram@,
            hram: self.hram@,
        }
    }
}

impl MemoryView {
    pub open spec fn wf(self) -> bool {
        &&& self.mbc.wf()
        &&& self.gpu.wf()
        &&& self.keypad.wf()
        &&& self.wram.len() == WRAM_SIZE
        &&& self.hram.len() == HRAM_SIZE
    }

    /// The bus at power-on, with an empty 32 KiB image in the cartridge
    /// slot.
    pub open spec fn power_on() -> MemoryView {
        MemoryView {
            mbc: CartridgeView::Plain(NoMbcView::blank()),
            gpu: GpuView::power_on(),
            keypad: Keypad::power_on(),
            timer: Timer::power_on(),
            interrupt_flags: 0,
            interrupt_enable: 0,
            wram: Seq::new(WRAM_SIZE as nat, |i: int| 0u8),
            hram: Seq::new(HRAM_SIZE as nat, |i: int| 0u8),
        }
    }

    /// The byte that a read of an address returns. Echo RAM shows work
    /// RAM; the unusable area, the audio registers and every address that
    /// nothing owns read as `0xFF`.
    #[verifier::opaque]
    pub open spec fn read(self, address: u16) -> u8 {
        if address < 0x8000 {
            self.mbc.read_rom(address)
        } else if address < 0xa000 {
            self.gpu.vram[address - 0x8000]
        } else if address < 0xc000 {
            self.mbc.read_ram(address)
        } else if address < 0xe000 {
            self.wram[address - 0xc000]
        } else if address < 0xfe00 {
            self.wram[address - 0xe000]
        } else if address < 0xfea0 {
            self.gpu.oam[address - 0xfe00]
        } else if address < 0xff00 {
            0xff
        } else if address == 0xff00 {
            self.keypad.data
        } else if 0xff04 <= address <= 0xff07 {
            self.timer.spec_read(address)
        } else if address == 0xff0f {
            self.interrupt_flags
        } else if 0xff40 <= address <= 0xff4b {
            self.gpu.regs.spec_read(address)
        } else if 0xff80 <= address <= 0xfffe {
            self.hram[address - 0xff80]
        } else if address == 0xffff {
            self.interrupt_enable
        } else {
            0xff
        }
    }

    /// The bus after a transfer into OAM: OAM holds the 160 bytes that
    /// were read at `value * 0x100` and onward.
    pub open spec fn dma_transfer(self, value: u8) -> MemoryView {
        MemoryView {
            gpu: GpuView {
                oam: Seq::new(0xa0, |i: int| self.read((value as int * 0x100 + i) as u16)),
                regs: LcdRegisters { dma: value, ..self.gpu.regs },
                ..self.gpu
            },
            ..self
        }
    }

    /// The bus after a write. Writes to echo RAM land in work RAM; writes
    /// to the unusable area, to the audio registers and to every address
    /// that nothing owns are dropped; a write to `FF46` starts a transfer
    /// into OAM.
    #[verifier::opaque]
    pub open spec fn write(self, address: u16, value: u8) -> MemoryView {
        if address < 0x8000 {
            MemoryView { mbc: self.mbc.write_rom(address, value), ..self }
        } else if address < 0xa000 {
            MemoryView { gpu: self.gpu.write_vram((address - 0x8000) as u16, value), ..self }
        } else if address < 0xc000 {
            MemoryView { mbc: self.mbc.write_ram(address, value), ..self }
        } else if address < 0xe000 {
            MemoryView { wram: self.wram.update(address - 0xc000, value), ..self }
        } else if address < 0xfe00 {
            MemoryView { wram: self.wram.update(address - 0xe000, value), ..self }
        } else if address < 0xfea0 {
            MemoryView { gpu: self.gpu.write_oam((address - 0xfe00) as u16, value), ..self }
        } else if address < 0xff00 {
            self
        } else if address == 0xff00 {
            MemoryView { keypad: self.keypad.spec_write(value), ..self }
        } else if 0xff04 <= address <= 0xff07 {
            MemoryView { timer: self.timer.spec_write(address, value), ..self }
        } else if address == 0xff0f {
            MemoryView { interrupt_flags: value, ..self }
        } else if address == 0xff46 {
            self.dma_transfer(value)
        } else if 0xff40 <= address <= 0xff4b {
            MemoryView { gpu: self.gpu.write(address, value), ..self }
        } else if 0xff80 <= address <= 0xfffe {
            MemoryView { hram: self.hram.update(address - 0xff80, value), ..self }
        } else if address == 0xffff {
            MemoryView { interrupt_enable: value, ..self }
        } else {
            self
        }
    }

    /// The little-endian word at an address; the second byte is read at
    /// the next address, modulo 2^16.
    pub open spec fn read_word(self, address: u16) -> u16 {
        word(self.read(wrap16(address + 1)), self.read(address))
    }

    /// The bus after a little-endian word is written: low byte first.
    pub open spec fn write_word(self, address: u16, value: u16) -> MemoryView {
        self.write(address, lo_byte(value)).write(wrap16(address + 1), hi_byte(value))
    }

    /// The bus after the bytes of a block are written one after another,
    /// from `address` upwards.
    pub open spec fn write_block(self, address: u16, data: Seq<u8>) -> MemoryView
        decreases data.len(),
    {
        if data.len() == 0 {
            self
        } else {
            self.write_block(address, data.drop_last()).write(
                (address + data.len() - 1) as u16,
                data.last(),
            )
        }
    }

    /// The bytes that a block of `length` addresses from `address` upwards
    /// reads as.
    pub open spec fn read_block(self, address: u16, length: nat) -> Seq<u8> {
        Seq::new(length, |i: int| self.read((address + i) as u16))
    }

    /// The bus with every device, both RAMs and both interrupt registers
    /// back at power-on; the cartridge stays in the slot as it is.
    pub open spec fn reset(self) -> MemoryView {
        MemoryView { mbc: self.mbc, ..MemoryView::power_on() }
    }

    /// The bus after `cycles` clock cycles: timer and pixel-processing
    /// unit have advanced, and every interrupt request that a device
    /// raised has been moved into `IF`.
    #[verifier::opaque]
    pub open spec fn step(self, cycles: u8) -> MemoryView {
        let gpu = self.gpu.ticks(cycles as nat);
        let timer = self.timer.spec_ticks(cycles as nat);
        MemoryView {
            interrupt_flags: self.interrupt_flags | self.keypad.interrupt | gpu.regs.interrupt
                | timer.interrupt,
            keypad: Keypad { interrupt: 0, ..self.keypad },
            gpu: GpuView { regs: LcdRegisters { interrupt: 0, ..gpu.regs }, ..gpu },
            timer: Timer { interrupt: 0, ..timer },
            ..self
        }
    }
}

impl Memory {
    pub open spec fn wf(&self) -> bool {
        self@.wf()
    }

    pub fn new() -> (memory: Memory)
        ensures
            memory.wf(),
            memory@ == MemoryView::power_on(),
    {
        let wram = vec![0u8; WRAM_SIZE];
        let hram = vec![0u8; HRAM_SIZE];
        assert(wram@ =~= Seq::new(WRAM_SIZE as nat, |i: int| 0u8));
        assert(hram@ =~= Seq::new(HRAM_SIZE as nat, |i: int| 0u8));
        Memory {
            mbc: Cartridge::Plain(NoMBC::blank()),
            gpu: GPU::new(),
            keypad: Keypad::new(),
            timer: Timer::new(),
            interrupt_flags: 0,
            interrupt_enable: 0,
            wram,
            hram,
        }
    }

    pub fn read(&self, address: u16) -> (r: u8)
        requires
            self.wf(),
        ensures
            r == self@.read(address),
    {
        reveal(MemoryView::read);
        if address < 0x8000 {
            self.mbc.read_rom(address)
        } else if address < 0xa000 {
            proof {
                lemma_word_masks((address - 0x8000) as u16);
            }
            self.gpu.read_vram(address - 0x8000)
        } else if address < 0xc000 {
            self.mbc.read_ram(address)
        } else if address < 0xe000 {
            self.wram[address as usize - 0xc000]
        } else if address < 0xfe00 {
            self.wram[address as usize - 0xe000]
        } else if address < 0xfea0 {
            self.gpu.read_oam(address - 0xfe00)
        } else if address < 0xff00 {
            0xff
        } else if address == 0xff00 {
            self.keypad.read()
        } else if 0xff04 <= address && address <= 0xff07 {
            self.timer.read(address)
        } else if address == 0xff0f {
            self.interrupt_flags
        } else if 0xff40 <= address && address <= 0xff4b {
            self.gpu.read(address)
        } else if 0xff80 <= address && address <= 0xfffe {
            self.hram[address as usize - 0xff80]
        } else if address == 0xffff {
            self.interrupt_enable
        } else {
            0xff
        }
    }

    pub fn write(&mut self, address: u16, value: u8)
        requires
            old(self).wf(),
        ensures
            final(self).wf(),
            final(self)@ == old(self)@.write(address, value),
    {
        reveal(MemoryView::write);
        if address < 0x8000 {
            self.mbc.write_rom(address, value);
        } else if address < 0xa000 {
            self.gpu.write_vram(address - 0x8000, value);
        } else if address < 0xc000 {
            self.mbc.write_ram(address, value);
        } else if address < 0xe000 {
            self.wram[address as usize - 0xc000] = value;
        } else if address < 0xfe00 {
            self.wram[address as usize - 0xe000] = value;
        } else if address < 0xfea0 {
            self.gpu.write_oam(address - 0xfe00, value);
        } else if address < 0xff00 {
        } else if address == 0xff00 {
            self.keypad.write(value);
        } else if 0xff04 <= address && address <= 0xff07 {
            self.timer.write(address, value);
        } else if address == 0xff0f {
            self.interrupt_flags = value;
        } else if address == 0xff46 {
            self.dma_transfer(value);
        } else if 0xff40 <= address && address <= 0xff4b {
            self.gpu.write(address, value);
        } else if 0xff80 <= address && address <= 0xfffe {
            self.hram[address as usize - 0xff80] = value;
        } else if address == 0xffff {
            self.interrupt_enable = value;
        }
    }

    pub fn read_word(&self, address: u16) -> (r: u16)
        requires
            self.wf(),
        ensures
            r == self@.read_word(address),
    {
        let low = self.read(address);
        let high = self.read(address.wrapping_add(1));
        proof {
            lemma_word_pack(high, low);
        }
        (high as u16) << 8 | (low as u16)
    }

    pub fn write_word(&mut self, address: u16, value: u16)
        requires
            old(self).wf(),
        ensures
            final(self).wf(),
            final(self)@ == old(self)@.write_word(address, value),
    {
        proof {
            lemma_word_split(value);
        }
        self.write(address, (value & 0x00ff) as u8);
        self.write(address.wrapping_add(1), ((value & 0xff00) >> 8) as u8);
    }

    /// Writes the bytes of a block one after another, from `address`
    /// upwards. The block must end within the address space.
    pub fn write_block(&mut self, address: u16, data: &[u8])
        requires
            old(self).wf(),
            address + data@.len() <= 0x10000,
        ensures
            final(self).wf(),
            final(self)@ == old(self)@.write_block(address, data@),
    {
        let mut i: usize = 0;
        assert(data@.take(0) =~= Seq::empty());
        while i < data.len()
            invariant
                i <= data.len(),
                address + data@.len() <= 0x10000,
                self.wf(),
                self@ == old(self)@.write_block(address, data@.take(i as int)),
            decreases data.len() - i,
        {
            assert(data@.take(i + 1).drop_last() =~= data@.take(i as int));
            self.write((address as usize + i) as u16, data[i]);
            i = i + 1;
        }
        assert(data@.take(data@.len() as int) =~= data@);
    }

    /// Fills a buffer with the bytes that the addresses from `address`
    /// upwards read as. The block must end within the address space.
    pub fn read_block(&self, address: u16, data: &mut [u8])
        requires
            self.wf(),
            address + old(data)@.len() <= 0x10000,
        ensures
            final(data)@ == self@.read_block(address, old(data)@.len()),
    {
        let length = data.len();
        let mut i: usize = 0;
        while i < length
            invariant
                i <= length,
                length == data@.len(),
                address + length <= 0x10000,
                self.wf(),
                forall|j: int|
                    0 <= j < i ==> #[trigger] data@[j] == self@.read((address + j) as u16),
            decreases length - i,
        {
            data[i] = self.read((address as usize + i) as u16);
            i = i + 1;
        }
        assert(data@ =~= self@.read_block(address, length as nat));
    }

    /// Returns every device, both RAMs and both interrupt registers to
    /// power-on. The cartridge stays in the slot as it is.
    pub fn reset(&mut self)
        requires
            old(self).wf(),
        ensures
            final(self).wf(),
            final(self)@ == old(self)@.reset(),
    {
        let wram = vec![0u8; WRAM_SIZE];
        let hram = vec![0u8; HRAM_SIZE];
        assert(wram@ =~= Seq::new(WRAM_SIZE as nat, |i: int| 0u8));
        assert(hram@ =~= Seq::new(HRAM_SIZE as nat, |i: int| 0u8));
        self.gpu = GPU::new();
        self.keypad = Keypad::new();
        self.timer = Timer::new();
        self.interrupt_flags = 0;
        self.interrupt_enable = 0;
        self.wram = wram;
        self.hram = hram;
    }

    /// Puts the cartridge of an image into the slot. An image that cannot
    /// be loaded leaves the bus as it was.
    pub fn load_rom(&mut self, data: &Vec<u8>) -> (result: Result<(), LoadError>)
        requires
            old(self).wf(),
        ensures
            final(self).wf(),
            match result {
                Ok(_) => spec_load_error(data@).is_none() && final(self)@ == (MemoryView {
                    mbc: spec_from_rom(data@),
                    ..old(self)@
                }),
                Err(error) => spec_load_error(data@) == Some(error) && final(self)@ == old(self)@,
            },
    {
        match from_rom(data) {
            Ok(cartridge) => {
                self.mbc = cartridge;
                Ok(())
            },
            Err(error) => Err(error),
        }
    }

    /// Copies 160 bytes from `value * 0x100` and onward into OAM.
    pub fn dma_transfer(&mut self, value: u8)
        requires
            old(self).wf(),
        ensures
            final(self).wf(),
            final(self)@ == old(self)@.dma_transfer(value),
    {
        let start: u16 = value as u16 * 0x100;
        let mut buffer: Vec<u8> = Vec::new();
        let mut i: u16 = 0;
        while i < 0xa0
            invariant
                i <= 0xa0,
                self.wf(),
                start == value as int * 0x100,
                buffer@.len() == i,
                forall|j: int|
                    0 <= j < i ==> #[trigger] buffer@[j] == self@.read((value as int * 0x100 + j) as u16),
            decreases 0xa0 - i,
        {
            buffer.push(self.read(start + i));
            i = i + 1;
        }
        assert(buffer@ =~= Seq::new(0xa0, |i: int| self@.read((value as int * 0x100 + i) as u16)));
        self.gpu.oam = buffer;
        self.gpu.regs.dma = value;
    }

    /// Advances the devices by `cycles` clock cycles and collects their
    /// interrupt requests into `IF`: no bit of `IF` is cleared, and every
    /// device's request line is at rest afterwards.
    pub fn step(&mut self, cycles: u8)
        requires
            old(self).wf(),
        ensures
            final(self).wf(),
            final(self)@ == old(self)@.step(cycles),
            final(self).interrupt_flags & old(self).interrupt_flags == old(self).interrupt_flags,
            final(self).keypad.interrupt == 0,
            final(self).gpu.regs.interrupt == 0,
            final(self).timer.interrupt == 0,
    {
        reveal(MemoryView::step);
        proof {
            crate::cadence::lemma_bus_step(self@, cycles);
        }
        self.interrupt_flags = self.interrupt_flags | self.keypad.interrupt;
        self.keypad.interrupt = 0;
        self.gpu.step(cycles);
        self.interrupt_flags = self.interrupt_flags | self.gpu.regs.interrupt;
        self.gpu.regs.interrupt = 0;
        self.timer.step(cycles);
        self.interrupt_flags = self.interrupt_flags | self.timer.interrupt;
        self.timer.interrupt = 0;
    }
}

/// A write to echo RAM shows at the same offset of work RAM, `0x2000`
/// below.
pub proof fn lemma_echo_write_reaches_wram(m: MemoryView, address: u16, value: u8)
    requires
        m.wf(),
        0xe000 <= address <= 0xfdff,
    ensures
        m.write(address, value).read((address - 0x2000) as u16) == value,
        m.write(address, value).read(address) == value,
        m.write(address, value) == m.write((address - 0x2000) as u16, value),
{
    reveal(MemoryView::read);
    reveal(MemoryView::write);
}

/// A write to the unusable area `FEA0-FEFF` changes nothing, and the area
/// reads as `0xFF`.
pub proof fn lemma_unusable_write_dropped(m: MemoryView, address: u16, value: u8)
    requires
        0xfea0 <= address <= 0xfeff,
    ensures
        m.write(address, value) == m,
        m.read(address) == 0xff,
{
    reveal(MemoryView::read);
    reveal(MemoryView::write);
}

/// After a write of `value` to `FF46`, byte `i` of OAM is what a read of
/// `value * 0x100 + i` returned before the write.
pub proof fn lemma_dma_fills_oam(m: MemoryView, value: u8, i: int)
    requires
        m.wf(),
        0 <= i < 0xa0,
    ensures
        m.write(0xff46, value).gpu.oam[i] == m.read((value as int * 0x100 + i) as u16),
        m.write(0xff46, value).read((0xfe00 + i) as u16) == m.read(
            (value as int * 0x100 + i) as u16,
        ),
        m.write(0xff46, value).wf(),
{
    reveal(MemoryView::read);
    reveal(MemoryView::write);
}

/// What is written to work RAM or high RAM is read back.
pub proof fn lemma_ram_write_read(m: MemoryView, address: u16, value: u8)
    requires
        m.wf(),
        0xc000 <= address <= 0xfdff || 0xff80 <= address <= 0xfffe,
    ensures
        m.write(address, value).read(address) == value,
        m.write(address, value).wf(),
{
    reveal(MemoryView::read);
    reveal(MemoryView::write);
}

} // verus!
