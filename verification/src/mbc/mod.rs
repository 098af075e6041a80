//! Cartridge bank controllers: what the bus sees in `0000-7FFF` and
//! `A000-BFFF`.
use vstd::prelude::*;
use crate::error::LoadError;
use crate::mbc::no_mbc::{NoMBC, NoMbcView};
use crate::mbc::mbc1::{MBC1, Mbc1View};
use crate::mbc::mbc2::{MBC2, Mbc2View};
use crate::mbc::mbc3::{MBC3, Mbc3View};
use crate::mbc::mbc5::{MBC5, Mbc5View};

pub mod no_mbc;
pub mod mbc1;
pub mod mbc2;
pub mod mbc3;
pub mod mbc5;

verus! {

/// The byte of an image at an offset; `0xFF` beyond its end.
pub open spec fn spec_byte_at(data: Seq<u8>, offset: int) -> u8 {
    if 0 <= offset < data.len() {
        data[offset]
    } else {
        0xff
    }
}

pub fn byte_at(data: &Vec<u8>, offset: usize) -> (r: u8)
    ensures
        r == spec_byte_at(data@, offset as int),
{
    if offset < data.len() {
        data[offset]
    } else {
        0xff
    }
}

/// Whether an image consists of whole banks of 16 KiB, at least two of
/// them: the shape of every image that a loader accepts.
pub open spec fn whole_banks(rom: Seq<u8>) -> bool {
    rom.len() >= 0x8000 && rom.len() % 0x4000 == 0
}

/// The number of 16 KiB banks that an image holds.
pub open spec fn spec_bank_count(rom: Seq<u8>) -> int {
    rom.len() as int / 0x4000
}

/// A bank number reduced to the banks that an image holds: the controller
/// has only as many address lines as the image needs, so a number beyond
/// the image selects the bank of its remainder.
pub open spec fn spec_reduce(rom: Seq<u8>, bank: int) -> int {
    bank % spec_bank_count(rom)
}

/// The byte at `offset` of the bank that a bank number selects in an
/// image.
pub open spec fn spec_bank_byte(rom: Seq<u8>, bank: int, offset: int) -> u8 {
    rom[spec_reduce(rom, bank) * 0x4000 + offset]
}

/// A reduced bank number names a bank of the image.
pub proof fn lemma_reduce(rom: Seq<u8>, bank: int)
    requires
        whole_banks(rom),
        0 <= bank,
    ensures
        spec_bank_count(rom) >= 2,
        spec_bank_count(rom) * 0x4000 == rom.len(),
        0 <= spec_reduce(rom, bank) < spec_bank_count(rom),
        bank < spec_bank_count(rom) ==> spec_reduce(rom, bank) == bank,
        0 <= spec_reduce(rom, bank) * 0x4000 <= rom.len() - 0x4000,
{
    let banks = spec_bank_count(rom);
    assert(0 <= bank % banks < banks) by (nonlinear_arith)
        requires
            banks > 0,
    ;
    assert(bank < banks ==> bank % banks == bank) by (nonlinear_arith)
        requires
            banks > 0,
            0 <= bank,
    ;
}

/// Reduces a bank number to the banks that an image holds.
pub fn reduce(rom: &Vec<u8>, bank: usize) -> (reduced: usize)
    requires
        whole_banks(rom@),
    ensures
        reduced == spec_reduce(rom@, bank as int),
        reduced < spec_bank_count(rom@),
        reduced * 0x4000 + 0x4000 <= rom.len(),
{
    proof {
        lemma_reduce(rom@, bank as int);
    }
    bank % (rom.len() / 0x4000)
}

/// Reads the byte at `offset` of the bank that a bank number selects.
pub fn bank_byte(rom: &Vec<u8>, bank: usize, offset: usize) -> (r: u8)
    requires
        whole_banks(rom@),
        offset < 0x4000,
    ensures
        r == spec_bank_byte(rom@, bank as int, offset as int),
{
    let reduced = reduce(rom, bank);
    rom[reduced * 0x4000 + offset]
}

/// An image with one byte replaced; unchanged when the offset lies beyond
/// its end.
pub open spec fn spec_store_at(data: Seq<u8>, offset: int, value: u8) -> Seq<u8> {
    if 0 <= offset < data.len() {
        data.update(offset, value)
    } else {
        data
    }
}

pub fn store_at(data: &mut Vec<u8>, offset: usize, value: u8)
    ensures
        final(data)@ == spec_store_at(old(data)@, offset as int, value),
{
    if offset < data.len() {
        data[offset] = value;
    }
}

/// A fresh copy of a byte buffer.
pub fn copy_bytes(source: &Vec<u8>) -> (copy: Vec<u8>)
    ensures
        copy@ == source@,
{
    let mut copy: Vec<u8> = Vec::new();
    let mut i: usize = 0;
    while i < source.len()
        invariant
            i <= source.len(),
            copy@ == source@.subrange(0, i as int),
        decreases source.len() - i,
    {
        copy.push(source[i]);
        assert(copy@ =~= source@.subrange(0, i + 1));
        i = i + 1;
    }
    assert(source@.subrange(0, source.len() as int) =~= source@);
    copy
}

/// The number of 16 KiB ROM banks that a header's ROM-size code declares.
pub open spec fn spec_number_rom_banks(code: u8) -> Option<usize> {
    if code == 0 {
        Some(2usize)
    } else if code == 1 {
        Some(4usize)
    } else if code == 2 {
        Some(8usize)
    } else if code == 3 {
        Some(16usize)
    } else if code == 4 {
        Some(32usize)
    } else if code == 5 {
        Some(64usize)
    } else if code == 6 {
        Some(128usize)
    } else if code == 7 {
        Some(256usize)
    } else if code == 8 {
        Some(512usize)
    } else {
        None
    }
}

/// The number of bytes of cartridge RAM that a header's RAM-size code
/// declares.
pub open spec fn spec_ram_bytes(code: u8) -> Option<usize> {
    if code == 0 {
        Some(0usize)
    } else if code == 1 {
        Some(0x800usize)
    } else if code == 2 {
        Some(0x2000usize)
    } else if code == 3 {
        Some(0x8000usize)
    } else if code == 4 {
        Some(0x20000usize)
    } else if code == 5 {
        Some(0x10000usize)
    } else {
        None
    }
}

#[verifier::when_used_as_spec(spec_number_rom_banks)]
pub fn get_number_rom_banks(code: u8) -> (banks: Option<usize>)
    ensures
        banks == spec_number_rom_banks(code),
{
    match code {
        0x00 => Some(2),
        0x01 => Some(4),
        0x02 => Some(8),
        0x03 => Some(16),
        0x04 => Some(32),
        0x05 => Some(64),
        0x06 => Some(128),
        0x07 => Some(256),
        0x08 => Some(512),
        _ => None,
    }
}

#[verifier::when_used_as_spec(spec_ram_bytes)]
pub fn get_ram_bytes(code: u8) -> (bytes: Option<usize>)
    ensures
        bytes == spec_ram_bytes(code),
{
    match code {
        0x00 => Some(0),
        0x01 => Some(0x800),
        0x02 => Some(0x2000),
        0x03 => Some(0x8000),
        0x04 => Some(0x20000),
        0x05 => Some(0x10000),
        _ => None,
    }
}

/// The number of 8 KiB banks that hold the declared cartridge RAM (a 2 KiB
/// RAM takes one bank).
pub open spec fn spec_number_ram_banks(code: u8) -> Option<usize> {
    match spec_ram_bytes(code) {
        Some(bytes) => Some(((bytes + 0x1fff) / 0x2000) as usize),
        None => None,
    }
}

#[verifier::when_used_as_spec(spec_number_ram_banks)]
pub fn get_number_ram_banks(code: u8) -> (banks: Option<usize>)
    ensures
        banks == spec_number_ram_banks(code),
{
    match get_ram_bytes(code) {
        Some(bytes) => Some((bytes + 0x1fff) / 0x2000),
        None => None,
    }
}

/// What every bank controller offers the bus. Each controller names a
/// mathematical model of itself (its view) and says, as functions on that
/// model, what a read returns and what a write changes; the methods are
/// held to those functions.
pub trait MBC: View + Sized {
    /// The controller's registers are within their ranges.
    spec fn wf(&self) -> bool;

    spec fn model_read_rom(model: Self::V, address: u16) -> u8;

    spec fn model_write_rom(model: Self::V, address: u16, value: u8) -> Self::V;

    spec fn model_read_ram(model: Self::V, address: u16) -> u8;

    spec fn model_write_ram(model: Self::V, address: u16, value: u8) -> Self::V;

    /// The RAM that outlives power-off, if the cartridge has a battery.
    spec fn model_battery(model: Self::V) -> Option<Seq<u8>>;

    /// The cartridge after its battery-backed RAM is restored from a saved
    /// image: the image replaces the RAM if the cartridge has a battery
    /// and the image has the RAM's length; otherwise nothing changes.
    spec fn model_restore(model: Self::V, data: Seq<u8>) -> Self::V;

    /// Reads a byte of the ROM area, `0000-7FFF`.
    fn read_rom(&self, address: u16) -> (r: u8)
        requires
            self.wf(),
            address < 0x8000,
        ensures
            r == Self::model_read_rom(self@, address),
    ;

    /// Writes to the ROM area, which sets the controller's registers.
    fn write_rom(&mut self, address: u16, value: u8)
        requires
            old(self).wf(),
            address < 0x8000,
        ensures
            final(self).wf(),
            final(self)@ == Self::model_write_rom(old(self)@, address, value),
    ;

    /// Reads a byte of the cartridge RAM area; only the low 13 bits of the
    /// address count.
    fn read_ram(&self, address: u16) -> (r: u8)
        requires
            self.wf(),
        ensures
            r == Self::model_read_ram(self@, address),
    ;

    /// Writes a byte of the cartridge RAM area.
    fn write_ram(&mut self, address: u16, value: u8)
        requires
            old(self).wf(),
        ensures
            final(self).wf(),
            final(self)@ == Self::model_write_ram(old(self)@, address, value),
    ;

    fn has_battery(&self) -> (r: bool)
        ensures
            r == Self::model_battery(self@).is_some(),
    ;

    /// The battery-backed RAM, to be saved by the host.
    fn battery_buffer(&self) -> (r: Option<&Vec<u8>>)
        ensures
            match r {
                Some(buffer) => Self::model_battery(self@) == Some(buffer@),
                None => Self::model_battery(self@).is_none(),
            },
    ;

    /// Restores the battery-backed RAM from a saved image. Returns whether
    /// the image was taken.
    fn restore_battery(&mut self, data: &Vec<u8>) -> (restored: bool)
        requires
            old(self).wf(),
        ensures
            final(self).wf(),
            final(self)@ == Self::model_restore(old(self)@, data@),
            restored == (match Self::model_battery(old(self)@) {
                Some(ram) => ram.len() == data@.len(),
                None => false,
            }),
    ;
}

/// A cartridge with whichever controller its header names.
pub enum Cartridge {
    Plain(NoMBC),
    Mbc1(MBC1),
    Mbc2(MBC2),
    Mbc3(MBC3),
    Mbc5(MBC5),
}

/// A cartridge as mathematics.
pub enum CartridgeView {
    Plain(NoMbcView),
    Mbc1(Mbc1View),
    Mbc2(Mbc2View),
    Mbc3(Mbc3View),
    Mbc5(Mbc5View),
}

impl CartridgeView {
    /// The controller's registers are within their ranges.
    pub open spec fn wf(self) -> bool {
        match self {
            CartridgeView::Plain(m) => m.wf(),
            CartridgeView::Mbc1(m) => m.wf(),
            CartridgeView::Mbc2(m) => m.wf(),
            CartridgeView::Mbc3(m) => m.wf(),
            CartridgeView::Mbc5(m) => m.wf(),
        }
    }

    pub open spec fn read_rom(self, address: u16) -> u8 {
        match self {
            CartridgeView::Plain(m) => m.read_rom(address),
            CartridgeView::Mbc1(m) => m.read_rom(address),
            CartridgeView::Mbc2(m) => m.read_rom(address),
            CartridgeView::Mbc3(m) => m.read_rom(address),
            CartridgeView::Mbc5(m) => m.read_rom(address),
        }
    }

    pub open spec fn write_rom(self, address: u16, value: u8) -> CartridgeView {
        match self {
            CartridgeView::Plain(m) => CartridgeView::Plain(m),
            CartridgeView::Mbc1(m) => CartridgeView::Mbc1(m.write_rom(address, value)),
            CartridgeView::Mbc2(m) => CartridgeView::Mbc2(m.write_rom(address, value)),
            CartridgeView::Mbc3(m) => CartridgeView::Mbc3(m.write_rom(address, value)),
            CartridgeView::Mbc5(m) => CartridgeView::Mbc5(m.write_rom(address, value)),
        }
    }

    pub open spec fn read_ram(self, address: u16) -> u8 {
        match self {
            CartridgeView::Plain(m) => m.read_ram(address),
            CartridgeView::Mbc1(m) => m.read_ram(address),
            CartridgeView::Mbc2(m) => m.read_ram(address),
            CartridgeView::Mbc3(m) => m.read_ram(address),
            CartridgeView::Mbc5(m) => m.read_ram(address),
        }
    }

    pub open spec fn write_ram(self, address: u16, value: u8) -> CartridgeView {
        match self {
            CartridgeView::Plain(m) => CartridgeView::Plain(m.write_ram(address, value)),
            CartridgeView::Mbc1(m) => CartridgeView::Mbc1(m.write_ram(address, value)),
            CartridgeView::Mbc2(m) => CartridgeView::Mbc2(m.write_ram(address, value)),
            CartridgeView::Mbc3(m) => CartridgeView::Mbc3(m.write_ram(address, value)),
            CartridgeView::Mbc5(m) => CartridgeView::Mbc5(m.write_ram(address, value)),
        }
    }

    pub open spec fn battery(self) -> Option<Seq<u8>> {
        match self {
            CartridgeView::Plain(m) => m.battery(),
            CartridgeView::Mbc1(m) => m.battery(),
            CartridgeView::Mbc2(m) => m.battery(),
            CartridgeView::Mbc3(m) => m.battery(),
            CartridgeView::Mbc5(m) => m.battery(),
        }
    }

    pub open spec fn restore(self, data: Seq<u8>) -> CartridgeView {
        match self {
            CartridgeView::Plain(m) => CartridgeView::Plain(m.restore(data)),
            CartridgeView::Mbc1(m) => CartridgeView::Mbc1(m.restore(data)),
            CartridgeView::Mbc2(m) => CartridgeView::Mbc2(m.restore(data)),
            CartridgeView::Mbc3(m) => CartridgeView::Mbc3(m.restore(data)),
            CartridgeView::Mbc5(m) => CartridgeView::Mbc5(m.restore(data)),
        }
    }

    /// The cartridge one second later: a real-time clock, if the
    /// cartridge has one, has advanced.
    pub open spec fn tick_second(self) -> CartridgeView {
        match self {
            CartridgeView::Mbc3(m) => CartridgeView::Mbc3(
                Mbc3View { clock: m.clock.spec_tick(), ..m },
            ),
            _ => self,
        }
    }

    /// The cartridge's ROM image.
    pub open spec fn rom(self) -> Seq<u8> {
        match self {
            CartridgeView::Plain(m) => m.rom,
            CartridgeView::Mbc1(m) => m.rom,
            CartridgeView::Mbc2(m) => m.rom,
            CartridgeView::Mbc3(m) => m.rom,
            CartridgeView::Mbc5(m) => m.rom,
        }
    }
}

impl View for Cartridge {
    type V = CartridgeView;

    open spec fn view(&self) -> CartridgeView {
        match self {
            Cartridge::Plain(c) => CartridgeView::Plain(c@),
            Cartridge::Mbc1(c) => CartridgeView::Mbc1(c@),
            Cartridge::Mbc2(c) => CartridgeView::Mbc2(c@),
            Cartridge::Mbc3(c) => CartridgeView::Mbc3(c@),
            Cartridge::Mbc5(c) => CartridgeView::Mbc5(c@),
        }
    }
}

impl Cartridge {
    /// Tells the cartridge that a second has passed.
    pub fn tick_second(&mut self)
        ensures
            final(self)@ == old(self)@.tick_second(),
            old(self).wf() ==> final(self).wf(),
    {
        match self {
            Cartridge::Mbc3(c) => c.tick_second(),
            _ => {},
        }
    }
}

impl MBC for Cartridge {
    open spec fn wf(&self) -> bool {
        self@.wf()
    }

    open spec fn model_read_rom(model: CartridgeView, address: u16) -> u8 {
        model.read_rom(address)
    }

    open spec fn model_write_rom(model: CartridgeView, address: u16, value: u8) -> CartridgeView {
        model.write_rom(address, value)
    }

    open spec fn model_read_ram(model: CartridgeView, address: u16) -> u8 {
        model.read_ram(address)
    }

    open spec fn model_write_ram(model: CartridgeView, address: u16, value: u8) -> CartridgeView {
        model.write_ram(address, value)
    }

    open spec fn model_battery(model: CartridgeView) -> Option<Seq<u8>> {
        model.battery()
    }

    open spec fn model_restore(model: CartridgeView, data: Seq<u8>) -> CartridgeView {
        model.restore(data)
    }

    fn read_rom(&self, address: u16) -> (r: u8) {
        match self {
            Cartridge::Plain(c) => c.read_rom(address),
            Cartridge::Mbc1(c) => c.read_rom(address),
            Cartridge::Mbc2(c) => c.read_rom(address),
            Cartridge::Mbc3(c) => c.read_rom(address),
            Cartridge::Mbc5(c) => c.read_rom(address),
        }
    }

    fn write_rom(&mut self, address: u16, value: u8) {
        match self {
            Cartridge::Plain(c) => c.write_rom(address, value),
            Cartridge::Mbc1(c) => c.write_rom(address, value),
            Cartridge::Mbc2(c) => c.write_rom(address, value),
            Cartridge::Mbc3(c) => c.write_rom(address, value),
            Cartridge::Mbc5(c) => c.write_rom(address, value),
        }
    }

    fn read_ram(&self, address: u16) -> (r: u8) {
        match self {
            Cartridge::Plain(c) => c.read_ram(address),
            Cartridge::Mbc1(c) => c.read_ram(address),
            Cartridge::Mbc2(c) => c.read_ram(address),
            Cartridge::Mbc3(c) => c.read_ram(address),
            Cartridge::Mbc5(c) => c.read_ram(address),
        }
    }

    fn write_ram(&mut self, address: u16, value: u8) {
        match self {
            Cartridge::Plain(c) => c.write_ram(address, value),
            Cartridge::Mbc1(c) => c.write_ram(address, value),
            Cartridge::Mbc2(c) => c.write_ram(address, value),
            Cartridge::Mbc3(c) => c.write_ram(address, value),
            Cartridge::Mbc5(c) => c.write_ram(address, value),
        }
    }

    fn has_battery(&self) -> (r: bool) {
        match self {
            Cartridge::Plain(c) => c.has_battery(),
            Cartridge::Mbc1(c) => c.has_battery(),
            Cartridge::Mbc2(c) => c.has_battery(),
            Cartridge::Mbc3(c) => c.has_battery(),
            Cartridge::Mbc5(c) => c.has_battery(),
        }
    }

    fn battery_buffer(&self) -> (r: Option<&Vec<u8>>) {
        match self {
            Cartridge::Plain(c) => c.battery_buffer(),
            Cartridge::Mbc1(c) => c.battery_buffer(),
            Cartridge::Mbc2(c) => c.battery_buffer(),
            Cartridge::Mbc3(c) => c.battery_buffer(),
            Cartridge::Mbc5(c) => c.battery_buffer(),
        }
    }

    fn restore_battery(&mut self, data: &Vec<u8>) -> (restored: bool) {
        match self {
            Cartridge::Plain(c) => c.restore_battery(data),
            Cartridge::Mbc1(c) => c.restore_battery(data),
            Cartridge::Mbc2(c) => c.restore_battery(data),
            Cartridge::Mbc3(c) => c.restore_battery(data),
            Cartridge::Mbc5(c) => c.restore_battery(data),
        }
    }
}

/// Which controller a cartridge-type byte names, if this library has it.
#[derive(Debug, Copy, Clone, PartialEq, Eq)]
pub enum MbcKind {
    Plain,
    Mbc1,
    Mbc2,
    Mbc3,
    Mbc5,
}

pub open spec fn spec_mbc_kind(cartridge_type: u8) -> Option<MbcKind> {
    if cartridge_type == 0x00 || cartridge_type == 0x08 || cartridge_type == 0x09 {
        Some(MbcKind::Plain)
    } else if 0x01 <= cartridge_type <= 0x03 {
        Some(MbcKind::Mbc1)
    } else if 0x05 <= cartridge_type <= 0x06 {
        Some(MbcKind::Mbc2)
    } else if 0x0f <= cartridge_type <= 0x13 {
        Some(MbcKind::Mbc3)
    } else if 0x19 <= cartridge_type <= 0x1e {
        Some(MbcKind::Mbc5)
    } else {
        None
    }
}

#[verifier::when_used_as_spec(spec_mbc_kind)]
pub fn mbc_kind(cartridge_type: u8) -> (kind: Option<MbcKind>)
    ensures
        kind == spec_mbc_kind(cartridge_type),
{
    match cartridge_type {
        0x00 | 0x08 | 0x09 => Some(MbcKind::Plain),
        0x01..=0x03 => Some(MbcKind::Mbc1),
        0x05..=0x06 => Some(MbcKind::Mbc2),
        0x0f..=0x13 => Some(MbcKind::Mbc3),
        0x19..=0x1e => Some(MbcKind::Mbc5),
        _ => None,
    }
}

/// Whether the cartridge type carries a battery behind its RAM.
pub open spec fn spec_type_has_battery(cartridge_type: u8) -> bool {
    cartridge_type == 0x03 || cartridge_type == 0x06 || cartridge_type == 0x09 || cartridge_type
        == 0x0f || cartridge_type == 0x10 || cartridge_type == 0x13 || cartridge_type == 0x1b
        || cartridge_type == 0x1e
}

#[verifier::when_used_as_spec(spec_type_has_battery)]
pub fn type_has_battery(cartridge_type: u8) -> (r: bool)
    ensures
        r == spec_type_has_battery(cartridge_type),
{
    cartridge_type == 0x03 || cartridge_type == 0x06 || cartridge_type == 0x09 || cartridge_type
        == 0x0f || cartridge_type == 0x10 || cartridge_type == 0x13 || cartridge_type == 0x1b
        || cartridge_type == 0x1e
}

/// The error, if any, that keeps an image from being loaded: it is shorter
/// than its header, its size codes are unknown, its length is not what the
/// ROM-size code declares, or its controller is not one of this library's.
pub open spec fn spec_load_error(rom: Seq<u8>) -> Option<LoadError> {
    if rom.len() < 0x150 {
        Some(LoadError::InvalidRomSize)
    } else {
        match (spec_number_rom_banks(rom[0x148]), spec_ram_bytes(rom[0x149])) {
            (Some(banks), Some(_)) => if rom.len() != banks * 0x4000 {
                Some(LoadError::InvalidRomSize)
            } else if spec_mbc_kind(rom[0x147]).is_none() {
                Some(LoadError::UnsupportedMbc)
            } else {
                None
            },
            _ => Some(LoadError::InvalidRomSize),
        }
    }
}

/// The cartridge that a loadable image describes, freshly powered on.
pub open spec fn spec_from_rom(rom: Seq<u8>) -> CartridgeView {
    match spec_mbc_kind(rom[0x147]) {
        Some(MbcKind::Mbc1) => CartridgeView::Mbc1(Mbc1View::power_on(rom)),
        Some(MbcKind::Mbc2) => CartridgeView::Mbc2(Mbc2View::power_on(rom)),
        Some(MbcKind::Mbc3) => CartridgeView::Mbc3(Mbc3View::power_on(rom)),
        Some(MbcKind::Mbc5) => CartridgeView::Mbc5(Mbc5View::power_on(rom)),
        _ => CartridgeView::Plain(NoMbcView::power_on(rom)),
    }
}

/// Builds the cartridge for an image, by the controller that byte `0x147`
/// of its header names.
pub fn from_rom(rom: &Vec<u8>) -> (result: Result<Cartridge, LoadError>)
    ensures
        match result {
            Ok(cartridge) => spec_load_error(rom@).is_none() && cartridge.wf() && cartridge@
                == spec_from_rom(rom@),
            Err(error) => spec_load_error(rom@) == Some(error),
        },
{
    if rom.len() < 0x150 {
        return Err(LoadError::InvalidRomSize);
    }
    let banks = match get_number_rom_banks(rom[0x148]) {
        Some(banks) => banks,
        None => {
            return Err(LoadError::InvalidRomSize);
        },
    };
    if get_ram_bytes(rom[0x149]).is_none() {
        return Err(LoadError::InvalidRomSize);
    }
    if rom.len() != banks * 0x4000 {
        return Err(LoadError::InvalidRomSize);
    }
    assert(whole_banks(rom@));
    match mbc_kind(rom[0x147]) {
        Some(MbcKind::Plain) => Ok(Cartridge::Plain(NoMBC::new(rom))),
        Some(MbcKind::Mbc1) => Ok(Cartridge::Mbc1(MBC1::new(rom))),
        Some(MbcKind::Mbc2) => Ok(Cartridge::Mbc2(MBC2::new(rom))),
        Some(MbcKind::Mbc3) => Ok(Cartridge::Mbc3(MBC3::new(rom))),
        Some(MbcKind::Mbc5) => Ok(Cartridge::Mbc5(MBC5::new(rom))),
        None => Err(LoadError::UnsupportedMbc),
    }
}

} // verus!
