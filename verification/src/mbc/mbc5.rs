//! The MBC5 controller: a ROM bank number of nine bits, of which zero is
//! a bank like any other, and sixteen RAM banks.
use vstd::prelude::*;
use crate::mbc::{MBC, whole_banks, spec_bank_byte, bank_byte, byte_at, store_at, copy_bytes,
    spec_byte_at, spec_store_at, spec_ram_bytes, get_ram_bytes, spec_type_has_battery,
    type_has_battery};

verus! {

/// A cartridge with an MBC5.
pub struct MBC5 {
    pub rom: Vec<u8>,
    pub ram: Vec<u8>,
    /// The ROM bank in `4000-7FFF`, from 0 to 511.
    pub rom_bank: u16,
    /// The RAM bank, from 0 to 15.
    pub ram_bank: u8,
    pub ram_enabled: bool,
    pub has_battery: bool,
}

/// An MBC5 cartridge as mathematics.
pub struct Mbc5View {
    pub rom: Seq<u8>,
    pub ram: Seq<u8>,
    pub rom_bank: u16,
    pub ram_bank: u8,
    pub ram_enabled: bool,
    pub has_battery: bool,
}

/// The ranges of the values that the registers keep.
pub proof fn lemma_mbc5_bits(bank: u16, value: u8)
    by (bit_vector)
    requires
        bank <= 511,
    ensures
        (bank & 0x0100) | (value as u16) <= 511,
        (bank & 0x00ff) | (((value & 1) as u16) << 8) <= 511,
        value & 0x0f <= 15,
{
}

impl Mbc5View {
    pub open spec fn wf(self) -> bool {
        &&& whole_banks(self.rom)
        &&& self.rom_bank <= 511
        &&& self.ram_bank <= 15
    }

    pub open spec fn power_on(rom: Seq<u8>) -> Mbc5View {
        Mbc5View {
            rom,
            ram: Seq::new(spec_ram_bytes(rom[0x149]).unwrap() as nat, |i: int| 0u8),
            rom_bank: 1,
            ram_bank: 0,
            ram_enabled: false,
            has_battery: spec_type_has_battery(rom[0x147]),
        }
    }

    /// The lower window shows bank 0; the upper window shows the bank of
    /// the bank register, reduced to the banks of the image.
    pub open spec fn read_rom(self, address: u16) -> u8 {
        if address < 0x4000 {
            self.rom[address as int]
        } else {
            spec_bank_byte(self.rom, self.rom_bank as int, address as int - 0x4000)
        }
    }

    /// `0000-1FFF` enables RAM; `2000-2FFF` sets the low eight bits of the
    /// ROM bank, `3000-3FFF` its ninth bit; `4000-5FFF` sets the RAM bank.
    pub open spec fn write_rom(self, address: u16, value: u8) -> Mbc5View {
        if address < 0x2000 {
            Mbc5View { ram_enabled: value & 0x0f == 0x0a, ..self }
        } else if address < 0x3000 {
            Mbc5View { rom_bank: (self.rom_bank & 0x0100) | (value as u16), ..self }
        } else if address < 0x4000 {
            Mbc5View { rom_bank: (self.rom_bank & 0x00ff) | (((value & 1) as u16) << 8), ..self }
        } else if address < 0x6000 {
            Mbc5View { ram_bank: value & 0x0f, ..self }
        } else {
            self
        }
    }

    pub open spec fn ram_offset(self, address: u16) -> int {
        self.ram_bank as int * 0x2000 + (address & 0x1fff) as int
    }

    pub open spec fn read_ram(self, address: u16) -> u8 {
        if self.ram_enabled {
            spec_byte_at(self.ram, self.ram_offset(address))
        } else {
            0xff
        }
    }

    pub open spec fn write_ram(self, address: u16, value: u8) -> Mbc5View {
        if self.ram_enabled {
            Mbc5View { ram: spec_store_at(self.ram, self.ram_offset(address), value), ..self }
        } else {
            self
        }
    }

    pub open spec fn battery(self) -> Option<Seq<u8>> {
        if self.has_battery {
            Some(self.ram)
        } else {
            None
        }
    }

    pub open spec fn restore(self, data: Seq<u8>) -> Mbc5View {
        if self.has_battery && data.len() == self.ram.len() {
            Mbc5View { ram: data, ..self }
        } else {
            self
        }
    }
}

impl View for MBC5 {
    type V = Mbc5View;

    open spec fn view(&self) -> Mbc5View {
        Mbc5View {
            rom: self.rom@,
            ram: self.ram@,
            rom_bank: self.rom_bank,
            ram_bank: self.ram_bank,
            ram_enabled: self.ram_enabled,
            has_battery: self.has_battery,
        }
    }
}

impl MBC5 {
    /// The cartridge for an image that a loader accepts: whole banks, and
    /// where it has RAM a size code that is known.
    pub fn new(rom: &Vec<u8>) -> (cartridge: MBC5)
        requires
            whole_banks(rom@),
            spec_ram_bytes(rom[0x149]).is_some(),
        ensures
            cartridge@ == Mbc5View::power_on(rom@),
            cartridge.wf(),
    {
        let size = get_ram_bytes(rom[0x149]).unwrap();
        let ram = vec![0u8; size];
        assert(ram@ =~= Seq::new(size as nat, |i: int| 0u8));
        MBC5 {
            rom: copy_bytes(rom),
            ram,
            rom_bank: 1,
            ram_bank: 0,
            ram_enabled: false,
            has_battery: type_has_battery(rom[0x147]),
        }
    }
}

impl MBC for MBC5 {
    open spec fn wf(&self) -> bool {
        self@.wf()
    }

    open spec fn model_read_rom(model: Mbc5View, address: u16) -> u8 {
        model.read_rom(address)
    }

    open spec fn model_write_rom(model: Mbc5View, address: u16, value: u8) -> Mbc5View {
        model.write_rom(address, value)
    }

    open spec fn model_read_ram(model: Mbc5View, address: u16) -> u8 {
        model.read_ram(address)
    }

    open spec fn model_write_ram(model: Mbc5View, address: u16, value: u8) -> Mbc5View {
        model.write_ram(address, value)
    }

    open spec fn model_battery(model: Mbc5View) -> Option<Seq<u8>> {
        model.battery()
    }

    open spec fn model_restore(model: Mbc5View, data: Seq<u8>) -> Mbc5View {
        model.restore(data)
    }

    fn read_rom(&self, address: u16) -> (r: u8) {
        if address < 0x4000 {
            self.rom[address as usize]
        } else {
            bank_byte(&self.rom, self.rom_bank as usize, address as usize - 0x4000)
        }
    }

    fn write_rom(&mut self, address: u16, value: u8) {
        proof {
            lemma_mbc5_bits(self.rom_bank, value);
        }
        if address < 0x2000 {
            self.ram_enabled = value & 0x0f == 0x0a;
        } else if address < 0x3000 {
            self.rom_bank = (self.rom_bank & 0x0100) | (value as u16);
        } else if address < 0x4000 {
            self.rom_bank = (self.rom_bank & 0x00ff) | (((value & 1) as u16) << 8);
        } else if address < 0x6000 {
            self.ram_bank = value & 0x0f;
        }
    }

    fn read_ram(&self, address: u16) -> (r: u8) {
        if !self.ram_enabled {
            return 0xff;
        }
        proof {
            crate::bits::lemma_word_masks(address);
        }
        byte_at(&self.ram, self.ram_bank as usize * 0x2000 + (address & 0x1fff) as usize)
    }

    fn write_ram(&mut self, address: u16, value: u8) {
        if !self.ram_enabled {
            return ;
        }
        proof {
            crate::bits::lemma_word_masks(address);
        }
        store_at(
            &mut self.ram,
            self.ram_bank as usize * 0x2000 + (address & 0x1fff) as usize,
            value,
        );
    }

    fn has_battery(&self) -> (r: bool) {
        self.has_battery
    }

    fn battery_buffer(&self) -> (r: Option<&Vec<u8>>) {
        if self.has_battery {
            Some(&self.ram)
        } else {
            None
        }
    }

    fn restore_battery(&mut self, data: &Vec<u8>) -> (restored: bool) {
        if self.has_battery && data.len() == self.ram.len() {
            self.ram = copy_bytes(data);
            true
        } else {
            false
        }
    }
}

} // verus!
