//! The MBC2 controller: up to sixteen ROM banks and a built-in RAM of 512
//! half-bytes.
use vstd::prelude::*;
use crate::mbc::{MBC, whole_banks, spec_bank_byte, bank_byte, copy_bytes,
    spec_type_has_battery, type_has_battery};

verus! {

pub const MBC2_RAM_SIZE: usize = 512;

/// A cartridge with an MBC2.
pub struct MBC2 {
    pub rom: Vec<u8>,
    /// 512 cells, of which only the low nibble exists.
    pub ram: Vec<u8>,
    /// The ROM bank in `4000-7FFF`, from 1 to 15.
    pub rom_bank: u8,
    pub ram_enabled: bool,
    pub has_battery: bool,
}

/// An MBC2 cartridge as mathematics.
pub struct Mbc2View {
    pub rom: Seq<u8>,
    pub ram: Seq<u8>,
    pub rom_bank: u8,
    pub ram_enabled: bool,
    pub has_battery: bool,
}

/// The ranges of a bank number and of a cell's index.
pub proof fn lemma_mbc2_bits(value: u8, address: u16)
    by (bit_vector)
    ensures
        value & 0x0f <= 15,
        address & 0x01ff < 512,
{
}

impl Mbc2View {
    pub open spec fn wf(self) -> bool {
        &&& whole_banks(self.rom)
        &&& 1 <= self.rom_bank <= 15
        &&& self.ram.len() == MBC2_RAM_SIZE
    }

    pub open spec fn power_on(rom: Seq<u8>) -> Mbc2View {
        Mbc2View {
            rom,
            ram: Seq::new(MBC2_RAM_SIZE as nat, |i: int| 0u8),
            rom_bank: 1,
            ram_enabled: false,
            has_battery: spec_type_has_battery(rom[0x147]),
        }
    }

    /// The lower window shows bank 0; the upper window shows the bank of
    /// the bank register, reduced to the banks of the image.
    pub open spec fn read_rom(self, address: u16) -> u8 {
        if address < 0x4000 {
            self.rom[address as int]
        } else {
            spec_bank_byte(self.rom, self.rom_bank as int, address as int - 0x4000)
        }
    }

    /// A write below `4000` sets a register, chosen by bit 8 of the
    /// address: clear, the RAM enable; set, the ROM bank, of which the low
    /// four bits count and zero is taken as one.
    pub open spec fn write_rom(self, address: u16, value: u8) -> Mbc2View {
        if address >= 0x4000 {
            self
        } else if address & 0x0100 == 0 {
            Mbc2View { ram_enabled: value & 0x0f == 0x0a, ..self }
        } else {
            Mbc2View {
                rom_bank: if value & 0x0f == 0 {
                    1
                } else {
                    value & 0x0f
                },
                ..self
            }
        }
    }

    /// The upper nibble of a cell reads as ones; a disabled RAM reads as
    /// `0xFF`.
    pub open spec fn read_ram(self, address: u16) -> u8 {
        if self.ram_enabled {
            0xf0 | (self.ram[(address & 0x01ff) as int] & 0x0f)
        } else {
            0xff
        }
    }

    pub open spec fn write_ram(self, address: u16, value: u8) -> Mbc2View {
        if self.ram_enabled {
            Mbc2View { ram: self.ram.update((address & 0x01ff) as int, value & 0x0f), ..self }
        } else {
            self
        }
    }

    pub open spec fn battery(self) -> Option<Seq<u8>> {
        if self.has_battery {
            Some(self.ram)
        } else {
            None
        }
    }

    pub open spec fn restore(self, data: Seq<u8>) -> Mbc2View {
        if self.has_battery && data.len() == self.ram.len() {
            Mbc2View { ram: data, ..self }
        } else {
            self
        }
    }
}

impl View for MBC2 {
    type V = Mbc2View;

    open spec fn view(&self) -> Mbc2View {
        Mbc2View {
            rom: self.rom@,
            ram: self.ram@,
            rom_bank: self.rom_bank,
            ram_enabled: self.ram_enabled,
            has_battery: self.has_battery,
        }
    }
}

impl MBC2 {
    /// The cartridge for an image of whole banks.
    pub fn new(rom: &Vec<u8>) -> (cartridge: MBC2)
        requires
            whole_banks(rom@),
        ensures
            cartridge@ == Mbc2View::power_on(rom@),
            cartridge.wf(),
    {
        let ram = vec![0u8; MBC2_RAM_SIZE];
        assert(ram@ =~= Seq::new(MBC2_RAM_SIZE as nat, |i: int| 0u8));
        MBC2 {
            rom: copy_bytes(rom),
            ram,
            rom_bank: 1,
            ram_enabled: false,
            has_battery: type_has_battery(rom[0x147]),
        }
    }
}

impl MBC for MBC2 {
    open spec fn wf(&self) -> bool {
        self@.wf()
    }

    open spec fn model_read_rom(model: Mbc2View, address: u16) -> u8 {
        model.read_rom(address)
    }

    open spec fn model_write_rom(model: Mbc2View, address: u16, value: u8) -> Mbc2View {
        model.write_rom(address, value)
    }

    open spec fn model_read_ram(model: Mbc2View, address: u16) -> u8 {
        model.read_ram(address)
    }

    open spec fn model_write_ram(model: Mbc2View, address: u16, value: u8) -> Mbc2View {
        model.write_ram(address, value)
    }

    open spec fn model_battery(model: Mbc2View) -> Option<Seq<u8>> {
        model.battery()
    }

    open spec fn model_restore(model: Mbc2View, data: Seq<u8>) -> Mbc2View {
        model.restore(data)
    }

    fn read_rom(&self, address: u16) -> (r: u8) {
        if address < 0x4000 {
            self.rom[address as usize]
        } else {
            bank_byte(&self.rom, self.rom_bank as usize, address as usize - 0x4000)
        }
    }

    fn write_rom(&mut self, address: u16, value: u8) {
        proof {
            lemma_mbc2_bits(value, address);
        }
        if address >= 0x4000 {
        } else if address & 0x0100 == 0 {
            self.ram_enabled = value & 0x0f == 0x0a;
        } else {
            let bank = value & 0x0f;
            self.rom_bank = if bank == 0 {
                1
            } else {
                bank
            };
        }
    }

    fn read_ram(&self, address: u16) -> (r: u8) {
        if !self.ram_enabled {
            return 0xff;
        }
        proof {
            lemma_mbc2_bits(0, address);
        }
        0xf0 | (self.ram[(address & 0x01ff) as usize] & 0x0f)
    }

    fn write_ram(&mut self, address: u16, value: u8) {
        if !self.ram_enabled {
            return ;
        }
        proof {
            lemma_mbc2_bits(0, address);
        }
        self.ram[(address & 0x01ff) as usize] = value & 0x0f;
    }

    fn has_battery(&self) -> (r: bool) {
        self.has_battery
    }

    fn battery_buffer(&self) -> (r: Option<&Vec<u8>>) {
        if self.has_battery {
            Some(&self.ram)
        } else {
            None
        }
    }

    fn restore_battery(&mut self, data: &Vec<u8>) -> (restored: bool) {
        if self.has_battery && data.len() == self.ram.len() {
            self.ram = copy_bytes(data);
            true
        } else {
            false
        }
    }
}

} // verus!
