//! The MBC1 controller: up to 125 usable ROM banks of 16 KiB and up to four
//! RAM banks of 8 KiB.
use vstd::prelude::*;
use crate::mbc::{MBC, byte_at, store_at, copy_bytes, spec_byte_at, spec_store_at,
    spec_ram_bytes, whole_banks, spec_bank_count, spec_reduce, spec_bank_byte, lemma_reduce,
    reduce, bank_byte, get_ram_bytes, spec_type_has_battery, type_has_battery};

verus! {

/// A cartridge with an MBC1.
pub struct MBC1 {
    pub rom: Vec<u8>,
    pub ram: Vec<u8>,
    /// The low five bits of the ROM bank number; never zero.
    pub rom_bank: u8,
    /// The two-bit register that holds the RAM bank number or the upper
    /// bits of the ROM bank number.
    pub ram_bank: u8,
    pub ram_enabled: bool,
    /// `0`: ROM banking; `1`: RAM banking, which also moves the lower ROM
    /// window.
    pub mode: u8,
    pub has_battery: bool,
}

/// An MBC1 cartridge as mathematics.
pub struct Mbc1View {
    pub rom: Seq<u8>,
    pub ram: Seq<u8>,
    pub rom_bank: u8,
    pub ram_bank: u8,
    pub ram_enabled: bool,
    pub mode: u8,
    pub has_battery: bool,
}

/// The value that a write to `2000-3FFF` leaves in the ROM bank register:
/// the low five bits, with zero taken as one.
pub open spec fn spec_low_bank(value: u8) -> u8 {
    if value & 0x1f == 0 {
        1
    } else {
        value & 0x1f
    }
}

/// The ranges of the values that the registers keep.
pub proof fn lemma_bank_bits(value: u8)
    by (bit_vector)
    ensures
        value & 0x1f <= 31,
        value & 0x03 <= 3,
        value & 0x01 <= 1,
{
}

impl Mbc1View {
    pub open spec fn wf(self) -> bool {
        &&& whole_banks(self.rom)
        &&& 1 <= self.rom_bank <= 31
        &&& self.ram_bank <= 3
        &&& self.mode <= 1
    }

    /// The cartridge of an image at power-on: bank 1 in the upper window,
    /// RAM disabled and zeroed.
    pub open spec fn power_on(rom: Seq<u8>) -> Mbc1View {
        Mbc1View {
            rom,
            ram: Seq::new(spec_ram_bytes(rom[0x149]).unwrap() as nat, |i: int| 0u8),
            rom_bank: 1,
            ram_bank: 0,
            ram_enabled: false,
            mode: 0,
            has_battery: spec_type_has_battery(rom[0x147]),
        }
    }

    /// The bank number that the registers hold for `4000-7FFF`: the two
    /// upper bits and the five lower bits.
    pub open spec fn high_bank(self) -> int {
        self.ram_bank as int * 32 + self.rom_bank as int
    }

    /// The bank that shows in `4000-7FFF`: the number that the registers
    /// hold, reduced to the banks of the image, and bank 1 where that
    /// would be bank 0.
    pub open spec fn upper_bank(self) -> int {
        if spec_reduce(self.rom, self.high_bank()) == 0 {
            1
        } else {
            spec_reduce(self.rom, self.high_bank())
        }
    }

    /// The bank number that the registers hold for `0000-3FFF`.
    pub open spec fn low_bank(self) -> int {
        if self.mode == 1 {
            self.ram_bank as int * 32
        } else {
            0
        }
    }

    /// The RAM bank that shows in `A000-BFFF`.
    pub open spec fn active_ram_bank(self) -> int {
        if self.mode == 1 {
            self.ram_bank as int
        } else {
            0
        }
    }

    pub open spec fn ram_offset(self, address: u16) -> int {
        self.active_ram_bank() * 0x2000 + (address & 0x1fff) as int
    }

    /// The lower window shows the bank of `low_bank`, reduced to the
    /// banks of the image; the upper window shows `upper_bank`.
    pub open spec fn read_rom(self, address: u16) -> u8 {
        if address < 0x4000 {
            spec_bank_byte(self.rom, self.low_bank(), address as int)
        } else {
            self.rom[self.upper_bank() * 0x4000 + (address as int - 0x4000)]
        }
    }

    pub open spec fn write_rom(self, address: u16, value: u8) -> Mbc1View {
        if address < 0x2000 {
            Mbc1View { ram_enabled: value & 0x0f == 0x0a, ..self }
        } else if address < 0x4000 {
            Mbc1View { rom_bank: spec_low_bank(value), ..self }
        } else if address < 0x6000 {
            Mbc1View { ram_bank: value & 0x03, ..self }
        } else {
            Mbc1View { mode: value & 0x01, ..self }
        }
    }

    /// A disabled RAM reads as `0xFF`.
    pub open spec fn read_ram(self, address: u16) -> u8 {
        if self.ram_enabled {
            spec_byte_at(self.ram, self.ram_offset(address))
        } else {
            0xff
        }
    }

    /// A disabled RAM ignores writes.
    pub open spec fn write_ram(self, address: u16, value: u8) -> Mbc1View {
        if self.ram_enabled {
            Mbc1View { ram: spec_store_at(self.ram, self.ram_offset(address), value), ..self }
        } else {
            self
        }
    }

    pub open spec fn battery(self) -> Option<Seq<u8>> {
        if self.has_battery {
            Some(self.ram)
        } else {
            None
        }
    }

    pub open spec fn restore(self, data: Seq<u8>) -> Mbc1View {
        if self.has_battery && data.len() == self.ram.len() {
            Mbc1View { ram: data, ..self }
        } else {
            self
        }
    }
}

impl View for MBC1 {
    type V = Mbc1View;

    open spec fn view(&self) -> Mbc1View {
        Mbc1View {
            rom: self.rom@,
            ram: self.ram@,
            rom_bank: self.rom_bank,
            ram_bank: self.ram_bank,
            ram_enabled: self.ram_enabled,
            mode: self.mode,
            has_battery: self.has_battery,
        }
    }
}

impl MBC1 {
    /// The cartridge for an image that a loader accepts: whole banks, and
    /// where it has RAM a size code that is known.
    pub fn new(rom: &Vec<u8>) -> (cartridge: MBC1)
        requires
            whole_banks(rom@),
            spec_ram_bytes(rom[0x149]).is_some(),
        ensures
            cartridge@ == Mbc1View::power_on(rom@),
            cartridge.wf(),
    {
        let size = get_ram_bytes(rom[0x149]).unwrap();
        let ram = vec![0u8; size];
        assert(ram@ =~= Seq::new(size as nat, |i: int| 0u8));
        MBC1 {
            rom: copy_bytes(rom),
            ram,
            rom_bank: 1,
            ram_bank: 0,
            ram_enabled: false,
            mode: 0,
            has_battery: type_has_battery(rom[0x147]),
        }
    }
}

impl MBC for MBC1 {
    open spec fn wf(&self) -> bool {
        self@.wf()
    }

    open spec fn model_read_rom(model: Mbc1View, address: u16) -> u8 {
        model.read_rom(address)
    }

    open spec fn model_write_rom(model: Mbc1View, address: u16, value: u8) -> Mbc1View {
        model.write_rom(address, value)
    }

    open spec fn model_read_ram(model: Mbc1View, address: u16) -> u8 {
        model.read_ram(address)
    }

    open spec fn model_write_ram(model: Mbc1View, address: u16, value: u8) -> Mbc1View {
        model.write_ram(address, value)
    }

    open spec fn model_battery(model: Mbc1View) -> Option<Seq<u8>> {
        model.battery()
    }

    open spec fn model_restore(model: Mbc1View, data: Seq<u8>) -> Mbc1View {
        model.restore(data)
    }

    fn read_rom(&self, address: u16) -> (r: u8) {
        if address < 0x4000 {
            let bank: usize = if self.mode == 1 {
                self.ram_bank as usize * 32
            } else {
                0
            };
            bank_byte(&self.rom, bank, address as usize)
        } else {
            let reduced = reduce(
                &self.rom,
                self.ram_bank as usize * 32 + self.rom_bank as usize,
            );
            let bank: usize = if reduced == 0 {
                1
            } else {
                reduced
            };
            proof {
                lemma_reduce(self.rom@, 1);
            }
            self.rom[bank * 0x4000 + (address as usize - 0x4000)]
        }
    }

    fn write_rom(&mut self, address: u16, value: u8) {
        proof {
            lemma_bank_bits(value);
        }
        if address < 0x2000 {
            self.ram_enabled = value & 0x0f == 0x0a;
        } else if address < 0x4000 {
            let low = value & 0x1f;
            self.rom_bank = if low == 0 {
                1
            } else {
                low
            };
        } else if address < 0x6000 {
            self.ram_bank = value & 0x03;
        } else {
            self.mode = value & 0x01;
        }
    }

    fn read_ram(&self, address: u16) -> (r: u8) {
        if !self.ram_enabled {
            return 0xff;
        }
        proof {
            crate::bits::lemma_word_masks(address);
        }
        let bank: usize = if self.mode == 1 {
            self.ram_bank as usize
        } else {
            0
        };
        byte_at(&self.ram, bank * 0x2000 + (address & 0x1fff) as usize)
    }

    fn write_ram(&mut self, address: u16, value: u8) {
        if !self.ram_enabled {
            return ;
        }
        proof {
            crate::bits::lemma_word_masks(address);
        }
        let bank: usize = if self.mode == 1 {
            self.ram_bank as usize
        } else {
            0
        };
        store_at(&mut self.ram, bank * 0x2000 + (address & 0x1fff) as usize, value);
    }

    fn has_battery(&self) -> (r: bool) {
        self.has_battery
    }

    fn battery_buffer(&self) -> (r: Option<&Vec<u8>>) {
        if self.has_battery {
            Some(&self.ram)
        } else {
            None
        }
    }

    fn restore_battery(&mut self, data: &Vec<u8>) -> (restored: bool) {
        if self.has_battery && data.len() == self.ram.len() {
            self.ram = copy_bytes(data);
            true
        } else {
            false
        }
    }
}

/// In every state that the controller can reach, the upper ROM window
/// shows a bank of the image that is not bank 0, and a read there is the
/// byte of that bank. The bank is the number that the registers hold
/// wherever the image has that bank; the number itself is from 1 to 127
/// with low five bits that are not all zero, so that `0x21`, `0x41` and
/// `0x61` stand where `0x20`, `0x40` and `0x60` were asked for.
pub proof fn lemma_mbc1_upper_window_never_bank_zero(m: Mbc1View, address: u16)
    requires
        m.wf(),
        0x4000 <= address < 0x8000,
    ensures
        1 <= m.upper_bank() < spec_bank_count(m.rom),
        0 <= m.upper_bank() * 0x4000 + (address as int - 0x4000) < m.rom.len(),
        m.read_rom(address) == m.rom[m.upper_bank() * 0x4000 + (address as int - 0x4000)],
        1 <= m.high_bank() <= 127,
        m.high_bank() % 32 != 0,
        m.high_bank() < spec_bank_count(m.rom) ==> m.upper_bank() == m.high_bank(),
{
    lemma_reduce(m.rom, m.high_bank());
}

/// A read of the lower ROM window is a byte of the image: of bank 0 in
/// mode 0, and in mode 1 of the bank that the two upper bits select.
pub proof fn lemma_mbc1_lower_window(m: Mbc1View, address: u16)
    requires
        m.wf(),
        address < 0x4000,
    ensures
        0 <= spec_reduce(m.rom, m.low_bank()) < spec_bank_count(m.rom),
        m.read_rom(address) == m.rom[spec_reduce(m.rom, m.low_bank()) * 0x4000 + address as int],
        0 <= spec_reduce(m.rom, m.low_bank()) * 0x4000 + (address as int) < m.rom.len(),
        m.mode == 0 ==> m.read_rom(address) == m.rom[address as int],
{
    lemma_reduce(m.rom, m.low_bank());
}

/// Whatever is written to the controller's registers, its state stays
/// valid.
pub proof fn lemma_mbc1_writes_keep_valid(m: Mbc1View, address: u16, value: u8)
    requires
        m.wf(),
    ensures
        m.write_rom(address, value).wf(),
        m.write_ram(address, value).wf(),
        m.write_rom(address, value).rom == m.rom,
        m.write_ram(address, value).rom == m.rom,
        0x2000 <= address < 0x4000 && value & 0x1f == 0 ==> m.write_rom(address, value).rom_bank
            == 1,
{
    lemma_bank_bits(value);
}

} // verus!
