//! The MBC3 controller: up to 128 ROM banks, four RAM banks and the
//! registers of a real-time clock behind a latch.
use vstd::prelude::*;
use crate::mbc::{MBC, whole_banks, spec_bank_byte, bank_byte, byte_at, store_at, copy_bytes,
    spec_byte_at, spec_store_at, spec_ram_bytes, get_ram_bytes, spec_type_has_battery,
    type_has_battery};

verus! {

/// The five registers of the clock: seconds, minutes, hours and a day
/// counter of nine bits with its flags.
#[derive(Debug, Copy, Clone)]
pub struct ClockRegisters {
    pub seconds: u8,
    pub minutes: u8,
    pub hours: u8,
    pub day_low: u8,
    pub day_high: u8,
}

impl ClockRegisters {
    /// The register that a selector from `08` to `0C` names.
    pub open spec fn spec_get(self, select: u8) -> u8 {
        if select == 0x08 {
            self.seconds
        } else if select == 0x09 {
            self.minutes
        } else if select == 0x0a {
            self.hours
        } else if select == 0x0b {
            self.day_low
        } else {
            self.day_high
        }
    }

    pub open spec fn spec_set(self, select: u8, value: u8) -> ClockRegisters {
        if select == 0x08 {
            ClockRegisters { seconds: value, ..self }
        } else if select == 0x09 {
            ClockRegisters { minutes: value, ..self }
        } else if select == 0x0a {
            ClockRegisters { hours: value, ..self }
        } else if select == 0x0b {
            ClockRegisters { day_low: value, ..self }
        } else {
            ClockRegisters { day_high: value, ..self }
        }
    }

    /// The clock one second later. Seconds and minutes run to 59, hours
    /// to 23; the day counter has nine bits, eight in `day_low` and the
    /// ninth in bit 0 of `day_high`, and sets bit 7 of `day_high` when it
    /// runs over. While bit 6 of `day_high` is set the clock stands still.
    pub open spec fn spec_tick(self) -> ClockRegisters {
        if self.day_high & 0x40 != 0 {
            self
        } else if self.seconds != 59 {
            ClockRegisters {
                seconds: if self.seconds == 255 {
                    0
                } else {
                    (self.seconds + 1) as u8
                },
                ..self
            }
        } else if self.minutes != 59 {
            ClockRegisters {
                seconds: 0,
                minutes: if self.minutes == 255 {
                    0
                } else {
                    (self.minutes + 1) as u8
                },
                ..self
            }
        } else if self.hours != 23 {
            ClockRegisters {
                seconds: 0,
                minutes: 0,
                hours: if self.hours == 255 {
                    0
                } else {
                    (self.hours + 1) as u8
                },
                ..self
            }
        } else if self.day_low != 255 {
            ClockRegisters {
                seconds: 0,
                minutes: 0,
                hours: 0,
                day_low: (self.day_low + 1) as u8,
                ..self
            }
        } else if self.day_high & 0x01 == 0 {
            ClockRegisters {
                seconds: 0,
                minutes: 0,
                hours: 0,
                day_low: 0,
                day_high: self.day_high | 0x01,
            }
        } else {
            ClockRegisters {
                seconds: 0,
                minutes: 0,
                hours: 0,
                day_low: 0,
                day_high: (self.day_high & 0xfe) | 0x80,
            }
        }
    }

    /// Advances the clock by one second.
    pub fn tick(&mut self)
        ensures
            *final(self) == old(self).spec_tick(),
    {
        if self.day_high & 0x40 != 0 {
            return ;
        }
        if self.seconds != 59 {
            self.seconds = self.seconds.wrapping_add(1);
            return ;
        }
        self.seconds = 0;
        if self.minutes != 59 {
            self.minutes = self.minutes.wrapping_add(1);
            return ;
        }
        self.minutes = 0;
        if self.hours != 23 {
            self.hours = self.hours.wrapping_add(1);
            return ;
        }
        self.hours = 0;
        if self.day_low != 255 {
            self.day_low = self.day_low + 1;
            return ;
        }
        self.day_low = 0;
        if self.day_high & 0x01 == 0 {
            self.day_high = self.day_high | 0x01;
        } else {
            self.day_high = (self.day_high & 0xfe) | 0x80;
        }
    }

    pub fn get(&self, select: u8) -> (r: u8)
        ensures
            r == self.spec_get(select),
    {
        match select {
            0x08 => self.seconds,
            0x09 => self.minutes,
            0x0a => self.hours,
            0x0b => self.day_low,
            _ => self.day_high,
        }
    }

    pub fn set(&mut self, select: u8, value: u8)
        ensures
            *final(self) == old(self).spec_set(select, value),
    {
        match select {
            0x08 => self.seconds = value,
            0x09 => self.minutes = value,
            0x0a => self.hours = value,
            0x0b => self.day_low = value,
            _ => self.day_high = value,
        }
    }
}

/// A cartridge with an MBC3.
pub struct MBC3 {
    pub rom: Vec<u8>,
    pub ram: Vec<u8>,
    /// The ROM bank in `4000-7FFF`, from 1 to 127.
    pub rom_bank: u8,
    /// What shows in `A000-BFFF`: a RAM bank from 0 to 3, or a register of
    /// the clock from `08` to `0C`.
    pub select: u8,
    pub ram_enabled: bool,
    /// The clock as it runs.
    pub clock: ClockRegisters,
    /// The clock as it was when last latched; reads show this copy.
    pub latched: ClockRegisters,
    /// The last write to the latch register was zero.
    pub latch_armed: bool,
    pub has_battery: bool,
}

/// An MBC3 cartridge as mathematics.
pub struct Mbc3View {
    pub rom: Seq<u8>,
    pub ram: Seq<u8>,
    pub rom_bank: u8,
    pub select: u8,
    pub ram_enabled: bool,
    pub clock: ClockRegisters,
    pub latched: ClockRegisters,
    pub latch_armed: bool,
    pub has_battery: bool,
}

/// The ranges of the values that the registers keep.
pub proof fn lemma_mbc3_bits(value: u8)
    by (bit_vector)
    ensures
        value & 0x7f <= 127,
        value & 0x0f <= 15,
{
}

impl Mbc3View {
    pub open spec fn wf(self) -> bool {
        &&& whole_banks(self.rom)
        &&& 1 <= self.rom_bank <= 127
        &&& self.select <= 15
    }

    pub open spec fn power_on(rom: Seq<u8>) -> Mbc3View {
        let zero = ClockRegisters { seconds: 0, minutes: 0, hours: 0, day_low: 0, day_high: 0 };
        Mbc3View {
            rom,
            ram: Seq::new(spec_ram_bytes(rom[0x149]).unwrap() as nat, |i: int| 0u8),
            rom_bank: 1,
            select: 0,
            ram_enabled: false,
            clock: zero,
            latched: zero,
            latch_armed: false,
            has_battery: spec_type_has_battery(rom[0x147]),
        }
    }

    /// The lower window shows bank 0; the upper window shows the bank of
    /// the bank register, reduced to the banks of the image.
    pub open spec fn read_rom(self, address: u16) -> u8 {
        if address < 0x4000 {
            self.rom[address as int]
        } else {
            spec_bank_byte(self.rom, self.rom_bank as int, address as int - 0x4000)
        }
    }

    /// `0000-1FFF` enables RAM and clock; `2000-3FFF` sets the ROM bank,
    /// seven bits with zero taken as one; `4000-5FFF` selects a RAM bank
    /// or a clock register; in `6000-7FFF` a one written after a zero
    /// latches the clock.
    pub open spec fn write_rom(self, address: u16, value: u8) -> Mbc3View {
        if address < 0x2000 {
            Mbc3View { ram_enabled: value & 0x0f == 0x0a, ..self }
        } else if address < 0x4000 {
            Mbc3View {
                rom_bank: if value & 0x7f == 0 {
                    1
                } else {
                    value & 0x7f
                },
                ..self
            }
        } else if address < 0x6000 {
            Mbc3View { select: value & 0x0f, ..self }
        } else if value == 0 {
            Mbc3View { latch_armed: true, ..self }
        } else if value == 1 && self.latch_armed {
            Mbc3View { latched: self.clock, latch_armed: false, ..self }
        } else {
            Mbc3View { latch_armed: false, ..self }
        }
    }

    pub open spec fn ram_offset(self, address: u16) -> int {
        self.select as int * 0x2000 + (address & 0x1fff) as int
    }

    pub open spec fn read_ram(self, address: u16) -> u8 {
        if !self.ram_enabled {
            0xff
        } else if self.select <= 3 {
            spec_byte_at(self.ram, self.ram_offset(address))
        } else if 0x08 <= self.select <= 0x0c {
            self.latched.spec_get(self.select)
        } else {
            0xff
        }
    }

    pub open spec fn write_ram(self, address: u16, value: u8) -> Mbc3View {
        if !self.ram_enabled {
            self
        } else if self.select <= 3 {
            Mbc3View { ram: spec_store_at(self.ram, self.ram_offset(address), value), ..self }
        } else if 0x08 <= self.select <= 0x0c {
            Mbc3View { clock: self.clock.spec_set(self.select, value), ..self }
        } else {
            self
        }
    }

    pub open spec fn battery(self) -> Option<Seq<u8>> {
        if self.has_battery {
            Some(self.ram)
        } else {
            None
        }
    }

    pub open spec fn restore(self, data: Seq<u8>) -> Mbc3View {
        if self.has_battery && data.len() == self.ram.len() {
            Mbc3View { ram: data, ..self }
        } else {
            self
        }
    }
}

impl View for MBC3 {
    type V = Mbc3View;

    open spec fn view(&self) -> Mbc3View {
        Mbc3View {
            rom: self.rom@,
            ram: self.ram@,
            rom_bank: self.rom_bank,
            select: self.select,
            ram_enabled: self.ram_enabled,
            clock: self.clock,
            latched: self.latched,
            latch_armed: self.latch_armed,
            has_battery: self.has_battery,
        }
    }
}

impl MBC3 {
    /// The cartridge for an image that a loader accepts: whole banks, and
    /// where it has RAM a size code that is known.
    pub fn new(rom: &Vec<u8>) -> (cartridge: MBC3)
        requires
            whole_banks(rom@),
            spec_ram_bytes(rom[0x149]).is_some(),
        ensures
            cartridge@ == Mbc3View::power_on(rom@),
            cartridge.wf(),
    {
        let size = get_ram_bytes(rom[0x149]).unwrap();
        let ram = vec![0u8; size];
        assert(ram@ =~= Seq::new(size as nat, |i: int| 0u8));
        let zero = ClockRegisters { seconds: 0, minutes: 0, hours: 0, day_low: 0, day_high: 0 };
        MBC3 {
            rom: copy_bytes(rom),
            ram,
            rom_bank: 1,
            select: 0,
            ram_enabled: false,
            clock: zero,
            latched: zero,
            latch_armed: false,
            has_battery: type_has_battery(rom[0x147]),
        }
    }
}

impl MBC3 {
    /// Advances the clock by one second. The latched copy, which reads
    /// show, stays as it is.
    pub fn tick_second(&mut self)
        ensures
            final(self)@ == (Mbc3View { clock: old(self)@.clock.spec_tick(), ..old(self)@ }),
            old(self).wf() ==> final(self).wf(),
    {
        self.clock.tick();
    }
}

impl MBC for MBC3 {
    open spec fn wf(&self) -> bool {
        self@.wf()
    }

    open spec fn model_read_rom(model: Mbc3View, address: u16) -> u8 {
        model.read_rom(address)
    }

    open spec fn model_write_rom(model: Mbc3View, address: u16, value: u8) -> Mbc3View {
        model.write_rom(address, value)
    }

    open spec fn model_read_ram(model: Mbc3View, address: u16) -> u8 {
        model.read_ram(address)
    }

    open spec fn model_write_ram(model: Mbc3View, address: u16, value: u8) -> Mbc3View {
        model.write_ram(address, value)
    }

    open spec fn model_battery(model: Mbc3View) -> Option<Seq<u8>> {
        model.battery()
    }

    open spec fn model_restore(model: Mbc3View, data: Seq<u8>) -> Mbc3View {
        model.restore(data)
    }

    fn read_rom(&self, address: u16) -> (r: u8) {
        if address < 0x4000 {
            self.rom[address as usize]
        } else {
            bank_byte(&self.rom, self.rom_bank as usize, address as usize - 0x4000)
        }
    }

    fn write_rom(&mut self, address: u16, value: u8) {
        proof {
            lemma_mbc3_bits(value);
        }
        if address < 0x2000 {
            self.ram_enabled = value & 0x0f == 0x0a;
        } else if address < 0x4000 {
            let bank = value & 0x7f;
            self.rom_bank = if bank == 0 {
                1
            } else {
                bank
            };
        } else if address < 0x6000 {
            self.select = value & 0x0f;
        } else if value == 0 {
            self.latch_armed = true;
        } else if value == 1 && self.latch_armed {
            self.latched = self.clock;
            self.latch_armed = false;
        } else {
            self.latch_armed = false;
        }
    }

    fn read_ram(&self, address: u16) -> (r: u8) {
        if !self.ram_enabled {
            return 0xff;
        }
        proof {
            crate::bits::lemma_word_masks(address);
        }
        if self.select <= 3 {
            byte_at(&self.ram, self.select as usize * 0x2000 + (address & 0x1fff) as usize)
        } else if 0x08 <= self.select && self.select <= 0x0c {
            self.latched.get(self.select)
        } else {
            0xff
        }
    }

    fn write_ram(&mut self, address: u16, value: u8) {
        if !self.ram_enabled {
            return ;
        }
        proof {
            crate::bits::lemma_word_masks(address);
        }
        if self.select <= 3 {
            store_at(
                &mut self.ram,
                self.select as usize * 0x2000 + (address & 0x1fff) as usize,
                value,
            );
        } else if 0x08 <= self.select && self.select <= 0x0c {
            self.clock.set(self.select, value);
        }
    }

    fn has_battery(&self) -> (r: bool) {
        self.has_battery
    }

    fn battery_buffer(&self) -> (r: Option<&Vec<u8>>) {
        if self.has_battery {
            Some(&self.ram)
        } else {
            None
        }
    }

    fn restore_battery(&mut self, data: &Vec<u8>) -> (restored: bool) {
        if self.has_battery && data.len() == self.ram.len() {
            self.ram = copy_bytes(data);
            true
        } else {
            false
        }
    }
}

} // verus!
