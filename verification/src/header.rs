//! The cartridge header at `0100-014F`.
use vstd::prelude::*;
use crate::bits::{wrap8, lemma_wrap8};
use crate::error::LoadError;

verus! {

/// The length of an image that holds a whole header.
pub const HEADER_END: usize = 0x150;

/// The index of the first zero byte of `bytes` at or after `from`, or the
/// length of `bytes` if there is none.
pub open spec fn nul_position(bytes: Seq<u8>, from: int) -> int
    decreases bytes.len() - from,
{
    if from < 0 || from >= bytes.len() {
        bytes.len() as int
    } else if bytes[from] == 0 {
        from
    } else {
        nul_position(bytes, from + 1)
    }
}

/// The text of a field that is padded with zero bytes: one character for
/// each byte before the first zero.
pub open spec fn field_text(bytes: Seq<u8>) -> Seq<char> {
    Seq::new(nul_position(bytes, 0) as nat, |i: int| bytes[i] as char)
}

/// The header checksum over the bytes from `0134` up to, not including,
/// index `end`: starting from zero, each byte and one more are
/// subtracted, modulo 256.
pub open spec fn checksum_upto(rom: Seq<u8>, end: int) -> u8
    decreases end,
{
    if end <= 0x134 {
        0
    } else {
        wrap8(checksum_upto(rom, end - 1) - rom[end - 1] - 1)
    }
}

/// The checksum that byte `014D` of a valid header holds: that of the
/// bytes `0134-014C`.
pub open spec fn header_checksum(rom: Seq<u8>) -> u8 {
    checksum_upto(rom, 0x14d)
}

/// Appends a character to a string by `String::push` of the standard
/// library. Taken on trust, not proved: the string afterwards is the
/// string before with `c` as one more character at its end.
#[verifier::external_body]
fn push_char(text: &mut String, c: char)
    ensures
        final(text)@ == old(text)@.push(c),
{
    text.push(c);
}

/// Reads a field that is padded with zero bytes.
fn read_field(rom: &Vec<u8>, start: usize, end: usize) -> (text: String)
    requires
        start <= end <= rom.len(),
    ensures
        text@ == field_text(rom@.subrange(start as int, end as int)),
{
    let ghost bytes = rom@.subrange(start as int, end as int);
    let mut text = String::new();
    let mut i: usize = start;
    while i < end && rom[i] != 0
        invariant
            start <= i <= end <= rom.len(),
            bytes == rom@.subrange(start as int, end as int),
            nul_position(bytes, 0) == nul_position(bytes, i - start),
            text@ == Seq::new((i - start) as nat, |j: int| bytes[j] as char),
        decreases end - i,
    {
        push_char(&mut text, rom[i] as char);
        assert(text@ =~= Seq::new((i + 1 - start) as nat, |j: int| bytes[j] as char));
        i = i + 1;
    }
    text
}

/// Copies the bytes of an image from `start` up to, not including, `end`.
fn copy_range(rom: &Vec<u8>, start: usize, end: usize) -> (bytes: Vec<u8>)
    requires
        start <= end <= rom.len(),
    ensures
        bytes@ == rom@.subrange(start as int, end as int),
{
    let mut bytes: Vec<u8> = Vec::new();
    let mut i: usize = start;
    while i < end
        invariant
            start <= i <= end <= rom.len(),
            bytes@ == rom@.subrange(start as int, i as int),
        decreases end - i,
    {
        bytes.push(rom[i]);
        assert(bytes@ =~= rom@.subrange(start as int, i + 1));
        i = i + 1;
    }
    bytes
}

/// What the header of a cartridge image declares.
pub struct Header {
    /// The four bytes of code at `0100` that the boot program jumps to.
    pub entry_point: Vec<u8>,
    /// The 48 bytes of the logo that the boot program compares.
    pub nintendo_logo: Vec<u8>,
    pub title: String,
    pub manufacturer_code: String,
    pub cgb_flag: u8,
    pub new_licensee_code: u16,
    pub sgb_flag: u8,
    pub cartridge_type: u8,
    pub rom_size: u8,
    pub ram_size: u8,
    pub destination_code: u8,
    pub old_licensee_code: u8,
    pub mask_rom_version_number: u8,
    pub header_checksum: u8,
    pub global_checksum: u16,
}

impl Header {
    /// The header holds what the image holds at the header's addresses.
    /// The title is the text of the sixteen bytes at `0134`, the
    /// manufacturer code the text at `013F-0142`; the new licensee code
    /// and the global checksum are big-endian.
    pub open spec fn describes(&self, rom: Seq<u8>) -> bool {
        &&& self.entry_point@ == rom.subrange(0x100, 0x104)
        &&& self.nintendo_logo@ == rom.subrange(0x104, 0x134)
        &&& self.title@ == field_text(rom.subrange(0x134, 0x144))
        &&& self.manufacturer_code@ == field_text(rom.subrange(0x13f, 0x143))
        &&& self.cgb_flag == rom[0x143]
        &&& self.new_licensee_code == crate::bits::word(rom[0x144], rom[0x145])
        &&& self.sgb_flag == rom[0x146]
        &&& self.cartridge_type == rom[0x147]
        &&& self.rom_size == rom[0x148]
        &&& self.ram_size == rom[0x149]
        &&& self.destination_code == rom[0x14a]
        &&& self.old_licensee_code == rom[0x14b]
        &&& self.mask_rom_version_number == rom[0x14c]
        &&& self.header_checksum == rom[0x14d]
        &&& self.global_checksum == crate::bits::word(rom[0x14e], rom[0x14f])
    }

    /// Reads the header of an image. An image that ends before `0150` has
    /// no header.
    pub fn load_rom(rom: &Vec<u8>) -> (result: Result<Header, LoadError>)
        ensures
            match result {
                Ok(header) => rom.len() >= HEADER_END && header.describes(rom@),
                Err(error) => rom.len() < HEADER_END && error == LoadError::InvalidRomSize,
            },
    {
        if rom.len() < HEADER_END {
            return Err(LoadError::InvalidRomSize);
        }
        proof {
            crate::bits::lemma_word_pack(rom[0x14e], rom[0x14f]);
            crate::bits::lemma_word_pack(rom[0x144], rom[0x145]);
        }
        Ok(
            Header {
                entry_point: copy_range(rom, 0x100, 0x104),
                nintendo_logo: copy_range(rom, 0x104, 0x134),
                title: read_field(rom, 0x134, 0x144),
                manufacturer_code: read_field(rom, 0x13f, 0x143),
                cgb_flag: rom[0x143],
                new_licensee_code: (rom[0x144] as u16) << 8 | rom[0x145] as u16,
                sgb_flag: rom[0x146],
                cartridge_type: rom[0x147],
                rom_size: rom[0x148],
                ram_size: rom[0x149],
                destination_code: rom[0x14a],
                old_licensee_code: rom[0x14b],
                mask_rom_version_number: rom[0x14c],
                header_checksum: rom[0x14d],
                global_checksum: (rom[0x14e] as u16) << 8 | rom[0x14f] as u16,
            },
        )
    }

    pub fn title(&self) -> (title: &str)
        ensures
            title@ == self.title@,
    {
        self.title.as_str()
    }

    pub fn manufacturer_code(&self) -> (code: &str)
        ensures
            code@ == self.manufacturer_code@,
    {
        self.manufacturer_code.as_str()
    }

    pub fn cgb_flag(&self) -> (flag: u8)
        ensures
            flag == self.cgb_flag,
    {
        self.cgb_flag
    }

    pub fn cartridge_type(&self) -> (kind: u8)
        ensures
            kind == self.cartridge_type,
    {
        self.cartridge_type
    }

    /// Whether the header checksum that the header holds is the checksum
    /// of the image's header bytes.
    pub fn is_valid(&self, rom: &Vec<u8>) -> (valid: bool)
        requires
            rom.len() >= HEADER_END,
        ensures
            valid == (header_checksum(rom@) == self.header_checksum),
    {
        compute_checksum(rom) == self.header_checksum
    }
}

/// Computes the header checksum of an image.
pub fn compute_checksum(rom: &Vec<u8>) -> (sum: u8)
    requires
        rom.len() >= HEADER_END,
    ensures
        sum == header_checksum(rom@),
{
    let mut sum: u8 = 0;
    let mut i: usize = 0x134;
    while i < 0x14d
        invariant
            0x134 <= i <= 0x14d,
            rom.len() >= HEADER_END,
            sum == checksum_upto(rom@, i as int),
        decreases 0x14d - i,
    {
        proof {
            lemma_wrap8(sum - rom[i as int]);
            lemma_wrap8(wrap8(sum - rom[i as int]) - 1);
            assert(wrap8(wrap8(sum - rom[i as int]) - 1) == wrap8(sum - rom[i as int] - 1)) by {
                crate::bits::lemma_wrap8_twice(sum - rom[i as int], 1);
            }
        }
        sum = sum.wrapping_sub(rom[i]).wrapping_sub(1);
        i = i + 1;
    }
    sum
}

} // verus!
