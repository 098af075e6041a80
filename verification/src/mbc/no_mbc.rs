//! A cartridge without a controller: a flat 32 KiB ROM, and at most one
//! fixed 8 KiB bank of RAM.
use vstd::prelude::*;
use crate::mbc::{MBC, byte_at, store_at, copy_bytes, spec_byte_at, spec_store_at,
    spec_ram_bytes, whole_banks, get_ram_bytes, spec_type_has_battery, type_has_battery};

verus! {

/// A cartridge without a controller.
pub struct NoMBC {
    pub rom: Vec<u8>,
    pub ram: Vec<u8>,
    pub has_battery: bool,
}

/// A cartridge without a controller as mathematics.
pub struct NoMbcView {
    pub rom: Seq<u8>,
    pub ram: Seq<u8>,
    pub has_battery: bool,
}

impl NoMbcView {
    /// The cartridge of an image at power-on: its RAM holds zeros.
    pub open spec fn power_on(rom: Seq<u8>) -> NoMbcView {
        NoMbcView {
            rom,
            ram: Seq::new(spec_ram_bytes(rom[0x149]).unwrap() as nat, |i: int| 0u8),
            has_battery: spec_type_has_battery(rom[0x147]),
        }
    }

    /// An empty 32 KiB image with no RAM.
    pub open spec fn blank() -> NoMbcView {
        NoMbcView { rom: Seq::new(0x8000, |i: int| 0u8), ram: Seq::empty(), has_battery: false }
    }

    /// The image holds whole banks, so that every address of the ROM
    /// area is a byte of it.
    pub open spec fn wf(self) -> bool {
        whole_banks(self.rom)
    }

    pub open spec fn read_rom(self, address: u16) -> u8 {
        self.rom[address as int]
    }

    pub open spec fn read_ram(self, address: u16) -> u8 {
        spec_byte_at(self.ram, (address & 0x1fff) as int)
    }

    pub open spec fn write_ram(self, address: u16, value: u8) -> NoMbcView {
        NoMbcView { ram: spec_store_at(self.ram, (address & 0x1fff) as int, value), ..self }
    }

    pub open spec fn battery(self) -> Option<Seq<u8>> {
        if self.has_battery {
            Some(self.ram)
        } else {
            None
        }
    }

    pub open spec fn restore(self, data: Seq<u8>) -> NoMbcView {
        if self.has_battery && data.len() == self.ram.len() {
            NoMbcView { ram: data, ..self }
        } else {
            self
        }
    }
}

impl View for NoMBC {
    type V = NoMbcView;

    open spec fn view(&self) -> NoMbcView {
        NoMbcView { rom: self.rom@, ram: self.ram@, has_battery: self.has_battery }
    }
}

impl NoMBC {
    /// The cartridge for an image that a loader accepts: whole banks, and
    /// where it has RAM a size code that is known.
    pub fn new(rom: &Vec<u8>) -> (cartridge: NoMBC)
        requires
            whole_banks(rom@),
            spec_ram_bytes(rom[0x149]).is_some(),
        ensures
            cartridge@ == NoMbcView::power_on(rom@),
            cartridge.wf(),
    {
        let size = get_ram_bytes(rom[0x149]).unwrap();
        let ram = vec![0u8; size];
        assert(ram@ =~= Seq::new(size as nat, |i: int| 0u8));
        NoMBC { rom: copy_bytes(rom), ram, has_battery: type_has_battery(rom[0x147]) }
    }

    /// An empty 32 KiB image with no RAM, for a machine with no cartridge
    /// loaded.
    pub fn blank() -> (cartridge: NoMBC)
        ensures
            cartridge@ == NoMbcView::blank(),
            cartridge.wf(),
    {
        let rom = vec![0u8; 0x8000];
        let ram: Vec<u8> = Vec::new();
        assert(rom@ =~= Seq::new(0x8000, |i: int| 0u8));
        assert(ram@ =~= Seq::empty());
        NoMBC { rom, ram, has_battery: false }
    }
}

impl MBC for NoMBC {
    open spec fn wf(&self) -> bool {
        self@.wf()
    }

    open spec fn model_read_rom(model: NoMbcView, address: u16) -> u8 {
        model.read_rom(address)
    }

    /// Writes to the ROM area are ignored.
    open spec fn model_write_rom(model: NoMbcView, address: u16, value: u8) -> NoMbcView {
        model
    }

    open spec fn model_read_ram(model: NoMbcView, address: u16) -> u8 {
        model.read_ram(address)
    }

    open spec fn model_write_ram(model: NoMbcView, address: u16, value: u8) -> NoMbcView {
        model.write_ram(address, value)
    }

    open spec fn model_battery(model: NoMbcView) -> Option<Seq<u8>> {
        model.battery()
    }

    open spec fn model_restore(model: NoMbcView, data: Seq<u8>) -> NoMbcView {
        model.restore(data)
    }

    fn read_rom(&self, address: u16) -> (r: u8) {
        self.rom[address as usize]
    }

    fn write_rom(&mut self, address: u16, value: u8) {
    }

    fn read_ram(&self, address: u16) -> (r: u8) {
        byte_at(&self.ram, (address & 0x1fff) as usize)
    }

    fn write_ram(&mut self, address: u16, value: u8) {
        store_at(&mut self.ram, (address & 0x1fff) as usize, value);
    }

    fn has_battery(&self) -> (r: bool) {
        self.has_battery
    }

    fn battery_buffer(&self) -> (r: Option<&Vec<u8>>) {
        if self.has_battery {
            Some(&self.ram)
        } else {
            None
        }
    }

    fn restore_battery(&mut self, data: &Vec<u8>) -> (restored: bool) {
        if self.has_battery && data.len() == self.ram.len() {
            self.ram = copy_bytes(data);
            true
        } else {
            false
        }
    }
}

} // verus!
