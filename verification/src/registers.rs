//! The register file of the LR35902 and its flag byte.
use vstd::prelude::*;
use crate::bits::{word, hi_byte, lo_byte, wrap16, lemma_word_pack, lemma_word_split,
    lemma_nibbles};

verus! {

/// One of the four condition flags kept in the upper nibble of `F`.
#[derive(Debug, Copy, Clone, PartialEq, Eq)]
pub enum Flag {
    Zero,
    Sub,
    HalfCarry,
    Carry,
}

impl Flag {
    /// The bit of `F` that holds this flag.
    pub open spec fn spec_mask(self) -> u8 {
        match self {
            Flag::Zero => 0x80,
            Flag::Sub => 0x40,
            Flag::HalfCarry => 0x20,
            Flag::Carry => 0x10,
        }
    }

    #[verifier::when_used_as_spec(spec_mask)]
    pub fn mask(self) -> (m: u8)
        ensures
            m == self.spec_mask(),
    {
        match self {
            Flag::Zero => 0x80,
            Flag::Sub => 0x40,
            Flag::HalfCarry => 0x20,
            Flag::Carry => 0x10,
        }
    }
}

/// The flag byte that holds exactly the given four flags.
pub open spec fn spec_pack_flags(z: bool, n: bool, h: bool, c: bool) -> u8 {
    (if z {
        0x80u8
    } else {
        0u8
    }) | (if n {
        0x40u8
    } else {
        0u8
    }) | (if h {
        0x20u8
    } else {
        0u8
    }) | (if c {
        0x10u8
    } else {
        0u8
    })
}

#[verifier::when_used_as_spec(spec_pack_flags)]
pub fn pack_flags(z: bool, n: bool, h: bool, c: bool) -> (f: u8)
    ensures
        f == spec_pack_flags(z, n, h, c),
{
    (if z {
        0x80u8
    } else {
        0u8
    }) | (if n {
        0x40u8
    } else {
        0u8
    }) | (if h {
        0x20u8
    } else {
        0u8
    }) | (if c {
        0x10u8
    } else {
        0u8
    })
}

/// Each flag can be read back from a packed flag byte, and the low nibble of
/// a packed flag byte is zero.
pub proof fn lemma_pack_flags(z: bool, n: bool, h: bool, c: bool)
    by (bit_vector)
    ensures
        (spec_pack_flags(z, n, h, c) & 0x80 != 0) == z,
        (spec_pack_flags(z, n, h, c) & 0x40 != 0) == n,
        (spec_pack_flags(z, n, h, c) & 0x20 != 0) == h,
        (spec_pack_flags(z, n, h, c) & 0x10 != 0) == c,
        spec_pack_flags(z, n, h, c) & 0x0f == 0,
{
}

/// Raising or lowering one flag bit leaves the other bits of the byte alone
/// and keeps the low nibble clear.
pub proof fn lemma_flag_update(f: u8, m: u8, k: u8)
    by (bit_vector)
    requires
        m == 0x80 || m == 0x40 || m == 0x20 || m == 0x10,
        k == 0x80 || k == 0x40 || k == 0x20 || k == 0x10,
    ensures
        ((f | m) & k != 0) == (m == k || f & k != 0),
        ((f & !m) & k != 0) == (m != k && f & k != 0),
        f & 0x0f == 0 ==> (f | m) & 0x0f == 0,
        f & 0x0f == 0 ==> (f & !m) & 0x0f == 0,
{
}

/// The eight 8-bit registers, the stack pointer and the program counter.
#[derive(Debug, Copy, Clone)]
pub struct Registers {
    pub a: u8,
    pub b: u8,
    pub c: u8,
    pub d: u8,
    pub e: u8,
    pub h: u8,
    pub l: u8,
    pub f: u8,
    pub sp: u16,
    pub pc: u16,
}

impl Registers {
    /// The low nibble of `F` is zero.
    pub open spec fn wf(&self) -> bool {
        self.f & 0x0f == 0
    }

    /// The register values that the boot program leaves behind.
    pub open spec fn post_boot() -> Registers {
        Registers {
            a: 0x01,
            f: 0xb0,
            b: 0x00,
            c: 0x13,
            d: 0x00,
            e: 0xd8,
            h: 0x01,
            l: 0x4d,
            sp: 0xfffe,
            pc: 0x0100,
        }
    }

    pub fn new() -> (r: Registers)
        ensures
            r == Registers::post_boot(),
            r.wf(),
            r.af() == 0x01B0,
            r.bc() == 0x0013,
            r.de() == 0x00D8,
            r.hl() == 0x014D,
    {
        assert(0xb0u8 & 0x0f == 0) by (bit_vector);
        Registers {
            a: 0x01,
            f: 0xb0,
            b: 0x00,
            c: 0x13,
            d: 0x00,
            e: 0xd8,
            h: 0x01,
            l: 0x4d,
            sp: 0xfffe,
            pc: 0x0100,
        }
    }

    pub open spec fn spec_bc(&self) -> u16 {
        word(self.b, self.c)
    }

    pub open spec fn spec_de(&self) -> u16 {
        word(self.d, self.e)
    }

    pub open spec fn spec_hl(&self) -> u16 {
        word(self.h, self.l)
    }

    pub open spec fn spec_af(&self) -> u16 {
        word(self.a, self.f)
    }

    /// The registers with `BC` replaced.
    pub open spec fn with_bc(self, value: u16) -> Registers {
        Registers { b: hi_byte(value), c: lo_byte(value), ..self }
    }

    /// The registers with `DE` replaced.
    pub open spec fn with_de(self, value: u16) -> Registers {
        Registers { d: hi_byte(value), e: lo_byte(value), ..self }
    }

    /// The registers with `HL` replaced.
    pub open spec fn with_hl(self, value: u16) -> Registers {
        Registers { h: hi_byte(value), l: lo_byte(value), ..self }
    }

    /// The registers with `AF` replaced; the low nibble of `F` is cleared.
    pub open spec fn with_af(self, value: u16) -> Registers {
        Registers { a: hi_byte(value), f: lo_byte(value) & 0xf0, ..self }
    }

    /// The registers with the flag byte replaced by the packing of four flags.
    pub open spec fn with_flags(self, z: bool, n: bool, h: bool, c: bool) -> Registers {
        Registers { f: spec_pack_flags(z, n, h, c), ..self }
    }

    pub open spec fn spec_get_flag(&self, flag: Flag) -> bool {
        self.f & flag.spec_mask() != 0
    }

    #[verifier::when_used_as_spec(spec_bc)]
    pub fn bc(&self) -> (r: u16)
        ensures
            r == self.spec_bc(),
    {
        proof {
            lemma_word_pack(self.b, self.c);
        }
        (self.b as u16) << 8 | self.c as u16
    }

    #[verifier::when_used_as_spec(spec_de)]
    pub fn de(&self) -> (r: u16)
        ensures
            r == self.spec_de(),
    {
        proof {
            lemma_word_pack(self.d, self.e);
        }
        (self.d as u16) << 8 | self.e as u16
    }

    #[verifier::when_used_as_spec(spec_hl)]
    pub fn hl(&self) -> (r: u16)
        ensures
            r == self.spec_hl(),
    {
        proof {
            lemma_word_pack(self.h, self.l);
        }
        (self.h as u16) << 8 | self.l as u16
    }

    #[verifier::when_used_as_spec(spec_af)]
    pub fn af(&self) -> (r: u16)
        ensures
            r == self.spec_af(),
    {
        proof {
            lemma_word_pack(self.a, self.f);
        }
        (self.a as u16) << 8 | self.f as u16
    }

    /// Returns `HL`, then increments it.
    pub fn hli(&mut self) -> (r: u16)
        ensures
            r == old(self).hl(),
            *final(self) == old(self).with_hl(wrap16(old(self).hl() + 1)),
    {
        let value = self.hl();
        self.set_hl(value.wrapping_add(1));
        value
    }

    /// Returns `HL`, then decrements it.
    pub fn hld(&mut self) -> (r: u16)
        ensures
            r == old(self).hl(),
            *final(self) == old(self).with_hl(wrap16(old(self).hl() - 1)),
    {
        let value = self.hl();
        self.set_hl(value.wrapping_sub(1));
        value
    }

    pub fn set_bc(&mut self, value: u16)
        ensures
            *final(self) == old(self).with_bc(value),
            final(self).bc() == value,
    {
        proof {
            lemma_word_split(value);
        }
        self.b = ((value & 0xff00) >> 8) as u8;
        self.c = (value & 0x00ff) as u8;
    }

    pub fn set_de(&mut self, value: u16)
        ensures
            *final(self) == old(self).with_de(value),
            final(self).de() == value,
    {
        proof {
            lemma_word_split(value);
        }
        self.d = ((value & 0xff00) >> 8) as u8;
        self.e = (value & 0x00ff) as u8;
    }

    pub fn set_hl(&mut self, value: u16)
        ensures
            *final(self) == old(self).with_hl(value),
            final(self).hl() == value,
    {
        proof {
            lemma_word_split(value);
        }
        self.h = ((value & 0xff00) >> 8) as u8;
        self.l = (value & 0x00ff) as u8;
    }

    /// Writes `AF`; the low nibble of `F` always reads as zero.
    pub fn set_af(&mut self, value: u16)
        ensures
            *final(self) == old(self).with_af(value),
            final(self).wf(),
            final(self).a == hi_byte(value),
    {
        proof {
            lemma_word_split(value);
            lemma_nibbles(lo_byte(value));
        }
        self.a = ((value & 0xff00) >> 8) as u8;
        self.f = (value & 0x00f0) as u8;
    }

    pub fn up_flag(&mut self, flag: Flag)
        ensures
            *final(self) == (Registers { f: old(self).f | flag.mask(), ..*old(self) }),
            old(self).wf() ==> final(self).wf(),
            forall|g: Flag|
                #[trigger] final(self).get_flag(g) == (if g == flag {
                    true
                } else {
                    old(self).get_flag(g)
                }),
    {
        proof {
            let f = self.f;
            assert forall|g: Flag|
                (#[trigger] ((f | flag.mask()) & g.mask()) != 0) == (if g == flag {
                    true
                } else {
                    f & g.mask() != 0
                }) by {
                lemma_flag_update(f, flag.mask(), g.mask());
            }
            lemma_flag_update(f, flag.mask(), flag.mask());
        }
        self.f |= flag.mask();
    }

    pub fn down_flag(&mut self, flag: Flag)
        ensures
            *final(self) == (Registers { f: old(self).f & !flag.mask(), ..*old(self) }),
            old(self).wf() ==> final(self).wf(),
            forall|g: Flag|
                #[trigger] final(self).get_flag(g) == (if g == flag {
                    false
                } else {
                    old(self).get_flag(g)
                }),
    {
        proof {
            let f = self.f;
            assert forall|g: Flag|
                (#[trigger] ((f & !flag.mask()) & g.mask()) != 0) == (if g == flag {
                    false
                } else {
                    f & g.mask() != 0
                }) by {
                lemma_flag_update(f, flag.mask(), g.mask());
            }
            lemma_flag_update(f, flag.mask(), flag.mask());
        }
        self.f &= !flag.mask();
    }

    /// Raises the flag when `value` holds and lowers it otherwise.
    pub fn set_flag(&mut self, flag: Flag, value: bool)
        ensures
            *final(self) == (Registers {
                f: if value {
                    old(self).f | flag.mask()
                } else {
                    old(self).f & !flag.mask()
                },
                ..*old(self)
            }),
            old(self).wf() ==> final(self).wf(),
            forall|g: Flag|
                #[trigger] final(self).get_flag(g) == (if g == flag {
                    value
                } else {
                    old(self).get_flag(g)
                }),
    {
        if value {
            self.up_flag(flag);
        } else {
            self.down_flag(flag);
        }
    }

    #[verifier::when_used_as_spec(spec_get_flag)]
    pub fn get_flag(&self, flag: Flag) -> (r: bool)
        ensures
            r == self.spec_get_flag(flag),
    {
        self.f & flag.mask() != 0
    }
}

} // verus!
