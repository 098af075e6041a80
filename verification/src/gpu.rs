//! The pixel-processing unit: video memory, the scanline state machine and
//! the scanline renderer.
use vstd::prelude::*;
use crate::bits::lemma_word_masks;

verus! {

pub const SCREEN_WIDTH: usize = 160;

pub const SCREEN_HEIGHT: usize = 144;

pub const VRAM_SIZE: usize = 0x2000;

pub const OAM_SIZE: usize = 0xA0;

/// One palette index for each pixel of the screen.
pub const SCREEN_SIZE: usize = 23040;

/// Three colour components for each pixel of the screen.
pub const SCREEN_SIZE_RGB: usize = 69120;

/// The dots of one scanline.
pub const LINE_DOTS: u16 = 456;

/// The four phases that a scanline passes through.
#[derive(Debug, Copy, Clone, PartialEq, Eq)]
pub enum Mode {
    /// Mode 0: the rest of a visible line, 204 dots.
    HBlank,
    /// Mode 1: lines 144 to 153.
    VBlank,
    /// Mode 2: the first 80 dots of a visible line.
    OAM,
    /// Mode 3: the next 172 dots of a visible line.
    DRAWING,
}

impl Mode {
    /// The mode's number, as bits 0-1 of `STAT` show it.
    pub open spec fn spec_bits(self) -> u8 {
        match self {
            Mode::HBlank => 0,
            Mode::VBlank => 1,
            Mode::OAM => 2,
            Mode::DRAWING => 3,
        }
    }

    #[verifier::when_used_as_spec(spec_bits)]
    pub fn bits(self) -> (r: u8)
        ensures
            r == self.spec_bits(),
            r <= 3,
    {
        match self {
            Mode::HBlank => 0,
            Mode::VBlank => 1,
            Mode::OAM => 2,
            Mode::DRAWING => 3,
        }
    }
}

/// The interrupt requests of a line that begins: VBlank on line 144, and
/// LCD STAT where the condition that holds of the new line is enabled.
pub open spec fn spec_line_requests(ly: u8, lyc: u8, stat: u8) -> u8 {
    (if ly == 144 {
        1u8
    } else {
        0u8
    }) | (if (ly == 144 && stat & 0x10 != 0) || (ly < 144 && stat & 0x20 != 0) || (ly == lyc && stat
        & 0x40 != 0) {
        2u8
    } else {
        0u8
    })
}

#[verifier::when_used_as_spec(spec_line_requests)]
pub fn line_requests(ly: u8, lyc: u8, stat: u8) -> (r: u8)
    ensures
        r == spec_line_requests(ly, lyc, stat),
{
    (if ly == 144 {
        1u8
    } else {
        0u8
    }) | (if (ly == 144 && stat & 0x10 != 0) || (ly < 144 && stat & 0x20 != 0) || (ly == lyc && stat
        & 0x40 != 0) {
        2u8
    } else {
        0u8
    })
}

/// The registers of the LCD controller and its position within the frame.
#[derive(Debug, Copy, Clone)]
pub struct LcdRegisters {
    /// Dots elapsed on the current line.
    pub clock: u16,
    /// Interrupt request bits raised since the bus last collected them.
    pub interrupt: u8,
    pub lcdc: u8,
    /// Bits 3-6 of `STAT`, the interrupt selection; the rest is computed
    /// when read.
    pub stat: u8,
    pub scy: u8,
    pub scx: u8,
    pub ly: u8,
    pub lyc: u8,
    pub dma: u8,
    pub bgp: u8,
    pub obp0: u8,
    pub obp1: u8,
    pub wy: u8,
    pub wx: u8,
    /// The line of the window that is drawn next; it advances only on
    /// lines that show the window.
    pub window_line: u8,
}

impl LcdRegisters {
    pub open spec fn wf(self) -> bool {
        &&& self.ly <= 153
        &&& self.clock < LINE_DOTS
        &&& self.lcdc & 0x80 == 0 ==> self.ly == 0 && self.clock == 0
    }

    /// The registers after the boot program: the display is on and a frame
    /// begins.
    pub open spec fn power_on() -> LcdRegisters {
        LcdRegisters {
            clock: 0,
            interrupt: 0,
            lcdc: 0x91,
            stat: 0,
            scy: 0,
            scx: 0,
            ly: 0,
            lyc: 0,
            dma: 0,
            bgp: 0xfc,
            obp0: 0xff,
            obp1: 0xff,
            wy: 0,
            wx: 0,
            window_line: 0,
        }
    }

    pub open spec fn lcd_on(self) -> bool {
        self.lcdc & 0x80 != 0
    }

    pub open spec fn spec_mode(self) -> Mode {
        if self.lcdc & 0x80 == 0 {
            Mode::HBlank
        } else if self.ly >= 144 {
            Mode::VBlank
        } else if self.clock < 80 {
            Mode::OAM
        } else if self.clock < 252 {
            Mode::DRAWING
        } else {
            Mode::HBlank
        }
    }

    #[verifier::when_used_as_spec(spec_mode)]
    pub fn mode(self) -> (m: Mode)
        ensures
            m == self.spec_mode(),
    {
        if self.lcdc & 0x80 == 0 {
            Mode::HBlank
        } else if self.ly >= 144 {
            Mode::VBlank
        } else if self.clock < 80 {
            Mode::OAM
        } else if self.clock < 252 {
            Mode::DRAWING
        } else {
            Mode::HBlank
        }
    }

    /// Whether the current line shows the window.
    pub open spec fn spec_window_on_line(self) -> bool {
        self.lcdc & 0x20 != 0 && self.ly >= self.wy && self.wx <= 166
    }

    #[verifier::when_used_as_spec(spec_window_on_line)]
    pub fn window_on_line(self) -> (r: bool)
        ensures
            r == self.spec_window_on_line(),
    {
        self.lcdc & 0x20 != 0 && self.ly >= self.wy && self.wx <= 166
    }

    /// Whether the next dot ends the drawing of a visible line, which is
    /// when the line is rendered.
    pub open spec fn enters_hblank(self) -> bool {
        self.lcd_on() && self.ly < 144 && self.clock == 251
    }

    /// Whether the next dot begins line 144, which requests the VBlank
    /// interrupt.
    pub open spec fn enters_vblank(self) -> bool {
        self.lcd_on() && self.ly == 143 && self.clock == 455
    }

    /// The registers after one dot. With the display off nothing moves.
    pub open spec fn spec_tick(self) -> LcdRegisters {
        if self.lcdc & 0x80 == 0 {
            self
        } else if self.clock == 455 {
            let ly: u8 = if self.ly >= 153 {
                0
            } else {
                (self.ly + 1) as u8
            };
            LcdRegisters {
                clock: 0,
                ly,
                window_line: if ly == 0 {
                    0
                } else {
                    self.window_line
                },
                interrupt: self.interrupt | spec_line_requests(ly, self.lyc, self.stat),
                ..self
            }
        } else if self.ly < 144 && self.clock == 251 {
            LcdRegisters {
                clock: 252,
                window_line: if self.spec_window_on_line() {
                    if self.window_line == 255 {
                        0u8
                    } else {
                        (self.window_line + 1) as u8
                    }
                } else {
                    self.window_line
                },
                interrupt: if self.stat & 0x08 != 0 {
                    self.interrupt | 2
                } else {
                    self.interrupt
                },
                ..self
            }
        } else {
            LcdRegisters { clock: (self.clock + 1) as u16, ..self }
        }
    }

    /// The byte read at `FF40-FF4B`. `STAT` shows the mode in bits 0-1 and
    /// whether `LY` equals `LYC` in bit 2.
    pub open spec fn spec_read(self, address: u16) -> u8 {
        if address == 0xff40 {
            self.lcdc
        } else if address == 0xff41 {
            0x80 | (self.stat & 0x78) | (if self.ly == self.lyc {
                4u8
            } else {
                0u8
            }) | self.spec_mode().spec_bits()
        } else if address == 0xff42 {
            self.scy
        } else if address == 0xff43 {
            self.scx
        } else if address == 0xff44 {
            self.ly
        } else if address == 0xff45 {
            self.lyc
        } else if address == 0xff46 {
            self.dma
        } else if address == 0xff47 {
            self.bgp
        } else if address == 0xff48 {
            self.obp0
        } else if address == 0xff49 {
            self.obp1
        } else if address == 0xff4a {
            self.wy
        } else {
            self.wx
        }
    }

    /// The registers after a write to `FF40-FF4B`. Switching the display
    /// off or on restarts the frame; a write to `LY` resets it to zero; a
    /// write that makes `LYC` equal to `LY` requests LCD STAT if that is
    /// enabled.
    pub open spec fn spec_write(self, address: u16, value: u8) -> LcdRegisters {
        if address == 0xff40 {
            if value & 0x80 == 0 || self.lcdc & 0x80 == 0 {
                LcdRegisters { lcdc: value, ly: 0, clock: 0, window_line: 0, ..self }
            } else {
                LcdRegisters { lcdc: value, ..self }
            }
        } else if address == 0xff41 {
            LcdRegisters { stat: value & 0x78, ..self }
        } else if address == 0xff42 {
            LcdRegisters { scy: value, ..self }
        } else if address == 0xff43 {
            LcdRegisters { scx: value, ..self }
        } else if address == 0xff44 {
            LcdRegisters { ly: 0, ..self }
        } else if address == 0xff45 {
            LcdRegisters {
                lyc: value,
                interrupt: if self.lcdc & 0x80 != 0 && value == self.ly && self.lyc != self.ly
                    && self.stat & 0x40 != 0 {
                    self.interrupt | 2
                } else {
                    self.interrupt
                },
                ..self
            }
        } else if address == 0xff46 {
            LcdRegisters { dma: value, ..self }
        } else if address == 0xff47 {
            LcdRegisters { bgp: value, ..self }
        } else if address == 0xff48 {
            LcdRegisters { obp0: value, ..self }
        } else if address == 0xff49 {
            LcdRegisters { obp1: value, ..self }
        } else if address == 0xff4a {
            LcdRegisters { wy: value, ..self }
        } else {
            LcdRegisters { wx: value, ..self }
        }
    }
}

/// The shade that a palette byte gives a colour index: two bits of the
/// palette for each of the four indices.
pub open spec fn spec_shade(palette: u8, color_id: u8) -> u8 {
    if color_id == 0 {
        palette & 0x03
    } else if color_id == 1 {
        (palette >> 2) & 0x03
    } else if color_id == 2 {
        (palette >> 4) & 0x03
    } else if color_id == 3 {
        (palette >> 6) & 0x03
    } else {
        0
    }
}

/// The brightness of a shade on a screen of four greys, from white for
/// shade 0 to black for shade 3.
pub open spec fn spec_gray(shade: u8) -> u8 {
    if shade == 0 {
        255
    } else if shade == 1 {
        192
    } else if shade == 2 {
        96
    } else {
        0
    }
}

#[verifier::when_used_as_spec(spec_gray)]
pub fn gray(shade: u8) -> (level: u8)
    ensures
        level == spec_gray(shade),
{
    match shade {
        0 => 255,
        1 => 192,
        2 => 96,
        _ => 0,
    }
}

/// The colour index that bit `bit` of the two bytes of a tile row holds:
/// the high byte gives the upper bit.
pub open spec fn spec_color_id(high: u8, low: u8, bit: u8) -> u8 {
    ((high >> bit) & 0x1) << 1 | ((low >> bit) & 0x1)
}

/// A colour index and a shade are at most 3.
pub proof fn lemma_color_ranges(high: u8, low: u8, bit: u8, palette: u8)
    by (bit_vector)
    requires
        bit < 8,
    ensures
        ((high >> bit) & 0x1) << 1 | ((low >> bit) & 0x1) <= 3,
        palette & 0x03 <= 3,
        (palette >> 2) & 0x03 <= 3,
        (palette >> 4) & 0x03 <= 3,
        (palette >> 6) & 0x03 <= 3,
{
}

/// The address of the sixteen bytes of a background or window tile. With
/// bit 4 of `LCDC` set, tiles count up from `8000`; otherwise the tile
/// number is signed and counts from `9000`.
pub open spec fn spec_tile_address(lcdc: u8, tile: u8) -> u16 {
    if lcdc & 0x10 != 0 {
        (0x8000 + tile as int * 16) as u16
    } else if tile < 128 {
        (0x9000 + tile as int * 16) as u16
    } else {
        (0x8800 + (tile as int - 128) * 16) as u16
    }
}

#[verifier::when_used_as_spec(spec_tile_address)]
pub fn tile_address(lcdc: u8, tile: u8) -> (address: u16)
    ensures
        address == spec_tile_address(lcdc, tile),
        0x8000 <= address <= 0x97f0,
{
    if lcdc & 0x10 != 0 {
        0x8000 + tile as u16 * 16
    } else if tile < 128 {
        0x9000 + tile as u16 * 16
    } else {
        0x8800 + (tile as u16 - 128) * 16
    }
}

/// The pixel-processing unit: its registers, video memory, the sprite
/// table and the framebuffer.
pub struct GPU {
    pub regs: LcdRegisters,
    pub vram: Vec<u8>,
    pub oam: Vec<u8>,
    /// The framebuffer: 160 by 144 shades from 0 to 3, row by row from the
    /// top left.
    pub screen_data: Vec<u8>,
}

/// The pixel-processing unit as mathematics.
pub struct GpuView {
    pub regs: LcdRegisters,
    pub vram: Seq<u8>,
    pub oam: Seq<u8>,
    pub screen: Seq<u8>,
}

impl View for GPU {
    type V = GpuView;

    open spec fn view(&self) -> GpuView {
        GpuView {
            regs: self.regs,
            vram: self.vram@,
            oam: self.oam@,
            screen: self.screen_data@,
        }
    }
}

impl GpuView {
    pub open spec fn wf(self) -> bool {
        &&& self.regs.wf()
        &&& self.vram.len() == VRAM_SIZE
        &&& self.oam.len() == OAM_SIZE
        &&& self.screen.len() == SCREEN_SIZE
        &&& forall|i: int| 0 <= i < self.screen.len() ==> #[trigger] self.screen[i] <= 3
    }

    pub open spec fn power_on() -> GpuView {
        GpuView {
            regs: LcdRegisters::power_on(),
            vram: Seq::new(VRAM_SIZE as nat, |i: int| 0u8),
            oam: Seq::new(OAM_SIZE as nat, |i: int| 0u8),
            screen: Seq::new(SCREEN_SIZE as nat, |i: int| 0u8),
        }
    }

    /// The byte of video memory at a bus address; the address wraps within
    /// the 8 KiB.
    pub open spec fn read_vram(self, address: u16) -> u8 {
        self.vram[(address & 0x1fff) as int]
    }

    pub open spec fn write_vram(self, address: u16, value: u8) -> GpuView {
        GpuView { vram: self.vram.update(address as int, value), ..self }
    }

    pub open spec fn write_oam(self, address: u16, value: u8) -> GpuView {
        GpuView { oam: self.oam.update(address as int, value), ..self }
    }

    pub open spec fn write(self, address: u16, value: u8) -> GpuView {
        GpuView { regs: self.regs.spec_write(address, value), ..self }
    }

    /// The index into the framebuffer of the first pixel of the current
    /// line.
    pub open spec fn row_start(self) -> int {
        self.regs.ly as int * 160
    }

    /// The colour index of one pixel of a tile: `row` counts from the top
    /// of the tile at `address`, `col` from its left.
    pub open spec fn tile_pixel(self, address: u16, row: int, col: int) -> u8 {
        spec_color_id(
            self.read_vram((address + row * 2 + 1) as u16),
            self.read_vram((address + row * 2) as u16),
            (7 - col) as u8,
        )
    }

    /// The colour index at a point of one of the two 256 by 256 tile maps.
    pub open spec fn map_pixel(self, map: u16, px: int, py: int) -> u8 {
        let tile = self.read_vram((map + (py / 8) * 32 + px / 8) as u16);
        self.tile_pixel(spec_tile_address(self.regs.lcdc, tile), py % 8, px % 8)
    }

    /// Whether the window covers column `x` of the current line.
    pub open spec fn window_covers(self, x: int) -> bool {
        self.regs.spec_window_on_line() && x + 7 >= self.regs.wx
    }

    /// The colour index of the background layer (background or window) at
    /// column `x` of the current line, before the palette; zero when the
    /// layer is switched off.
    pub open spec fn bg_index(self, x: int) -> u8 {
        if self.regs.lcdc & 0x01 == 0 {
            0
        } else if self.window_covers(x) {
            self.map_pixel(
                if self.regs.lcdc & 0x40 != 0 {
                    0x9c00
                } else {
                    0x9800
                },
                x + 7 - self.regs.wx,
                self.regs.window_line as int,
            )
        } else {
            self.map_pixel(
                if self.regs.lcdc & 0x08 != 0 {
                    0x9c00
                } else {
                    0x9800
                },
                (x + self.regs.scx) % 256,
                (self.regs.ly + self.regs.scy) % 256,
            )
        }
    }

    /// The shade of the background layer at column `x` of the current
    /// line: white when the layer is switched off.
    pub open spec fn bg_shade(self, x: int) -> u8 {
        if self.regs.lcdc & 0x01 == 0 {
            0
        } else {
            spec_shade(self.regs.bgp, self.bg_index(x))
        }
    }

    pub open spec fn sprite_height(self) -> int {
        if self.regs.lcdc & 0x04 != 0 {
            16
        } else {
            8
        }
    }

    /// Whether the vertical span of sprite `i` holds the current line.
    pub open spec fn sprite_on_line(self, i: int) -> bool {
        let y = self.oam[4 * i] as int;
        y <= self.regs.ly + 16 < y + self.sprite_height()
    }

    /// The sprites of the current line among the first `n` entries of OAM,
    /// in OAM order: the first ten whose span holds the line. Later ones
    /// are dropped.
    pub open spec fn visible_sprites(self, n: nat) -> Seq<u8>
        decreases n,
    {
        if n == 0 {
            Seq::empty()
        } else {
            let before = self.visible_sprites((n - 1) as nat);
            if before.len() < 10 && self.sprite_on_line(n - 1) {
                before.push((n - 1) as u8)
            } else {
                before
            }
        }
    }

    /// The colour index that sprite `i` has at column `x` of the current
    /// line; zero, which is transparent, where the sprite does not reach.
    pub open spec fn sprite_index(self, i: int, x: int) -> u8 {
        let col = x + 8 - self.oam[4 * i + 1];
        if 0 <= col < 8 {
            let flags = self.oam[4 * i + 3];
            let line = self.regs.ly + 16 - self.oam[4 * i];
            let row = if flags & 0x40 != 0 {
                self.sprite_height() - 1 - line
            } else {
                line
            };
            let tile = if self.regs.lcdc & 0x04 != 0 {
                self.oam[4 * i + 2] & 0xfe
            } else {
                self.oam[4 * i + 2]
            };
            self.tile_pixel(
                (0x8000 + tile as int * 16) as u16,
                row,
                if flags & 0x20 != 0 {
                    7 - col
                } else {
                    col
                },
            )
        } else {
            0
        }
    }

    /// The sprite that is drawn at column `x` among the first `n` of a
    /// list in OAM order: of those that are opaque there, the one with the
    /// lowest X, and of several with that X the one earliest in the list.
    pub open spec fn top_sprite(self, list: Seq<u8>, n: nat, x: int) -> Option<u8>
        decreases n,
    {
        if n == 0 {
            None
        } else {
            let before = self.top_sprite(list, (n - 1) as nat, x);
            let k = list[n - 1];
            if self.sprite_index(k as int, x) == 0 {
                before
            } else {
                match before {
                    None => Some(k),
                    Some(p) => if self.oam[4 * k + 1] < self.oam[4 * p + 1] {
                        Some(k)
                    } else {
                        before
                    },
                }
            }
        }
    }

    /// The shade at column `x` of the current line once the sprites are
    /// drawn over a pixel of shade `under`. The sprite on top hides behind
    /// the background where its flags say so and the background is not
    /// colour 0.
    pub open spec fn over_sprite(self, x: int, under: u8) -> u8 {
        if self.regs.lcdc & 0x02 == 0 {
            under
        } else {
            let list = self.visible_sprites(40);
            match self.top_sprite(list, list.len(), x) {
                Some(k) => {
                    let flags = self.oam[4 * k + 3];
                    if flags & 0x80 != 0 && self.bg_index(x) != 0 {
                        under
                    } else {
                        spec_shade(
                            if flags & 0x10 != 0 {
                                self.regs.obp1
                            } else {
                                self.regs.obp0
                            },
                            self.sprite_index(k as int, x),
                        )
                    }
                },
                None => under,
            }
        }
    }

    /// The shade of the finished picture at column `x` of the current
    /// line.
    pub open spec fn pixel(self, x: int) -> u8 {
        self.over_sprite(x, self.bg_shade(x))
    }

    /// The framebuffer once the first `upto` pixels of the current line
    /// show the background layer.
    pub open spec fn bg_row(self, upto: int) -> Seq<u8> {
        Seq::new(
            self.screen.len(),
            |i: int|
                if self.row_start() <= i < self.row_start() + upto {
                    self.bg_shade(i - self.row_start())
                } else {
                    self.screen[i]
                },
        )
    }

    /// The framebuffer once the sprites are drawn over the first `upto`
    /// pixels of the current line.
    pub open spec fn sprite_row(self, upto: int) -> Seq<u8> {
        Seq::new(
            self.screen.len(),
            |i: int|
                if self.row_start() <= i < self.row_start() + upto {
                    self.over_sprite(i - self.row_start(), self.screen[i])
                } else {
                    self.screen[i]
                },
        )
    }

    /// The framebuffer once the current line is rendered: the background
    /// layer first, the sprites over it.
    pub open spec fn render_line(self) -> Seq<u8> {
        (GpuView { screen: self.bg_row(160), ..self }).sprite_row(160)
    }

    /// The unit after one dot. The line is rendered at the dot that ends
    /// its drawing.
    pub open spec fn tick(self) -> GpuView {
        if self.regs.enters_hblank() {
            GpuView { regs: self.regs.spec_tick(), screen: self.render_line(), ..self }
        } else {
            GpuView { regs: self.regs.spec_tick(), ..self }
        }
    }

    /// The unit after `n` dots.
    pub open spec fn ticks(self, n: nat) -> GpuView
        decreases n,
    {
        if n == 0 {
            self
        } else {
            self.tick().ticks((n - 1) as nat)
        }
    }
}

/// Which sprite is on top depends on the registers, video memory and OAM
/// alone, not on what the framebuffer holds.
pub proof fn lemma_top_sprite_frame(a: GpuView, b: GpuView, list: Seq<u8>, n: nat, x: int)
    requires
        a.regs == b.regs,
        a.vram == b.vram,
        a.oam == b.oam,
    ensures
        a.top_sprite(list, n, x) == b.top_sprite(list, n, x),
    decreases n,
{
    if n > 0 {
        lemma_top_sprite_frame(a, b, list, (n - 1) as nat, x);
    }
}

/// Which sprites a line shows depends on the registers and OAM alone.
pub proof fn lemma_visible_sprites_frame(a: GpuView, b: GpuView, n: nat)
    requires
        a.regs == b.regs,
        a.oam == b.oam,
    ensures
        a.visible_sprites(n) == b.visible_sprites(n),
    decreases n,
{
    if n > 0 {
        lemma_visible_sprites_frame(a, b, (n - 1) as nat);
    }
}

/// The rendered framebuffer shows `pixel(x)` at each column `x` of the
/// current line and leaves every other line as it was.
pub proof fn lemma_render_line(g: GpuView, i: int)
    requires
        0 <= i < g.screen.len(),
    ensures
        g.render_line().len() == g.screen.len(),
        g.render_line()[i] == if g.row_start() <= i < g.row_start() + 160 {
            g.pixel(i - g.row_start())
        } else {
            g.screen[i]
        },
{
    let under = GpuView { screen: g.bg_row(160), ..g };
    let list = g.visible_sprites(40);
    lemma_visible_sprites_frame(under, g, 40);
    lemma_top_sprite_frame(under, g, list, list.len(), i - g.row_start());
}

/// The sprites of a line are at most ten, each of them holds the line,
/// and they stand in the order of OAM.
pub proof fn lemma_visible_sprites(g: GpuView, n: nat)
    requires
        n <= 40,
    ensures
        g.visible_sprites(n).len() <= 10,
        g.visible_sprites(n).len() <= n,
        forall|j: int|
            0 <= j < g.visible_sprites(n).len() ==> #[trigger] g.visible_sprites(n)[j] < n
                && g.sprite_on_line(g.visible_sprites(n)[j] as int),
        forall|j: int, k: int|
            0 <= j < k < g.visible_sprites(n).len() ==> #[trigger] g.visible_sprites(n)[j]
                < #[trigger] g.visible_sprites(n)[k],
    decreases n,
{
    if n > 0 {
        lemma_visible_sprites(g, (n - 1) as nat);
    }
}

impl GpuView {
    /// Whether the sprite at place `a` of a list is drawn over the one at
    /// place `b`: its X is lower, or the same and it stands earlier.
    pub open spec fn outranks(self, list: Seq<u8>, a: int, b: int) -> bool {
        self.oam[4 * list[a] + 1] < self.oam[4 * list[b] + 1] || (self.oam[4 * list[a] + 1]
            == self.oam[4 * list[b] + 1] && a <= b)
    }

    /// The place in the list of the sprite that `top_sprite` names.
    pub open spec fn top_place(self, list: Seq<u8>, n: nat, x: int) -> Option<int>
        decreases n,
    {
        if n == 0 {
            None
        } else {
            let before = self.top_place(list, (n - 1) as nat, x);
            if self.sprite_index(list[n - 1] as int, x) == 0 {
                before
            } else {
                match before {
                    None => Some(n - 1),
                    Some(p) => if self.oam[4 * list[n - 1] + 1] < self.oam[4 * list[p] + 1] {
                        Some(n - 1)
                    } else {
                        before
                    },
                }
            }
        }
    }
}

/// The sprite on top at a column is opaque there and outranks every other
/// sprite of the list that is opaque there; no sprite is on top exactly
/// when every sprite of the list is transparent there.
pub proof fn lemma_top_sprite(g: GpuView, list: Seq<u8>, n: nat, x: int)
    requires
        n <= list.len(),
    ensures
        match g.top_place(list, n, x) {
            Some(a) => {
                &&& 0 <= a < n
                &&& g.top_sprite(list, n, x) == Some(list[a])
                &&& g.sprite_index(list[a] as int, x) != 0
                &&& forall|b: int|
                    0 <= b < n && #[trigger] g.sprite_index(list[b] as int, x) != 0
                        ==> g.outranks(list, a, b)
            },
            None => {
                &&& g.top_sprite(list, n, x).is_none()
                &&& forall|b: int| 0 <= b < n ==> #[trigger] g.sprite_index(list[b] as int, x) == 0
            },
        },
    decreases n,
{
    if n > 0 {
        lemma_top_sprite(g, list, (n - 1) as nat, x);
    }
}

impl GPU {
    pub open spec fn wf(&self) -> bool {
        self@.wf()
    }

    pub fn new() -> (gpu: GPU)
        ensures
            gpu.wf(),
            gpu@ == GpuView::power_on(),
    {
        let vram = vec![0u8; VRAM_SIZE];
        let oam = vec![0u8; OAM_SIZE];
        let screen_data = vec![0u8; SCREEN_SIZE];
        assert(vram@ =~= Seq::new(VRAM_SIZE as nat, |i: int| 0u8));
        assert(oam@ =~= Seq::new(OAM_SIZE as nat, |i: int| 0u8));
        assert(screen_data@ =~= Seq::new(SCREEN_SIZE as nat, |i: int| 0u8));
        assert(0x91u8 & 0x80 != 0) by (bit_vector);
        GPU {
            regs: LcdRegisters {
                clock: 0,
                interrupt: 0,
                lcdc: 0x91,
                stat: 0,
                scy: 0,
                scx: 0,
                ly: 0,
                lyc: 0,
                dma: 0,
                bgp: 0xfc,
                obp0: 0xff,
                obp1: 0xff,
                wy: 0,
                wx: 0,
                window_line: 0,
            },
            vram,
            oam,
            screen_data,
        }
    }

    /// The framebuffer.
    pub fn screen_data(&self) -> (screen: &Vec<u8>)
        ensures
            screen@ == self@.screen,
    {
        &self.screen_data
    }

    /// The framebuffer as red, green and blue bytes: each pixel three
    /// times its grey.
    pub fn rgb_data(&self) -> (rgb: Vec<u8>)
        requires
            self.wf(),
        ensures
            rgb@.len() == SCREEN_SIZE_RGB,
            forall|i: int| 0 <= i < SCREEN_SIZE_RGB ==> rgb@[i] == spec_gray(self@.screen[i / 3]),
    {
        let mut rgb: Vec<u8> = Vec::new();
        let mut pixel: usize = 0;
        while pixel < SCREEN_SIZE
            invariant
                pixel <= SCREEN_SIZE,
                self.wf(),
                rgb@.len() == pixel * 3,
                forall|i: int| 0 <= i < pixel * 3 ==> rgb@[i] == spec_gray(self@.screen[i / 3]),
            decreases SCREEN_SIZE - pixel,
        {
            let level = gray(self.screen_data[pixel]);
            rgb.push(level);
            rgb.push(level);
            rgb.push(level);
            pixel = pixel + 1;
        }
        rgb
    }

    pub fn read_vram(&self, address: u16) -> (r: u8)
        requires
            self.wf(),
        ensures
            r == self@.read_vram(address),
    {
        proof {
            lemma_word_masks(address);
        }
        self.vram[(address & 0x1fff) as usize]
    }

    pub fn read_oam(&self, address: u16) -> (r: u8)
        requires
            self.wf(),
            address < 0xa0,
        ensures
            r == self@.oam[address as int],
    {
        self.oam[address as usize]
    }

    pub fn write_vram(&mut self, address: u16, value: u8)
        requires
            old(self).wf(),
            address < 0x2000,
        ensures
            final(self).wf(),
            final(self)@ == old(self)@.write_vram(address, value),
    {
        self.vram[address as usize] = value;
    }

    pub fn write_oam(&mut self, address: u16, value: u8)
        requires
            old(self).wf(),
            address < 0xa0,
        ensures
            final(self).wf(),
            final(self)@ == old(self)@.write_oam(address, value),
    {
        self.oam[address as usize] = value;
    }

    /// Reads a register of the LCD controller.
    pub fn read(&self, address: u16) -> (r: u8)
        requires
            0xff40 <= address <= 0xff4b,
        ensures
            r == self@.regs.spec_read(address),
    {
        let regs = &self.regs;
        match address {
            0xff40 => regs.lcdc,
            0xff41 => 0x80 | (regs.stat & 0x78) | (if regs.ly == regs.lyc {
                4u8
            } else {
                0u8
            }) | regs.mode().bits(),
            0xff42 => regs.scy,
            0xff43 => regs.scx,
            0xff44 => regs.ly,
            0xff45 => regs.lyc,
            0xff46 => regs.dma,
            0xff47 => regs.bgp,
            0xff48 => regs.obp0,
            0xff49 => regs.obp1,
            0xff4a => regs.wy,
            _ => regs.wx,
        }
    }

    /// Writes a register of the LCD controller.
    pub fn write(&mut self, address: u16, value: u8)
        requires
            old(self).wf(),
            0xff40 <= address <= 0xff4b,
        ensures
            final(self).wf(),
            final(self)@ == old(self)@.write(address, value),
    {
        match address {
            0xff40 => {
                if value & 0x80 == 0 || self.regs.lcdc & 0x80 == 0 {
                    self.regs.ly = 0;
                    self.regs.clock = 0;
                    self.regs.window_line = 0;
                }
                self.regs.lcdc = value;
            },
            0xff41 => self.regs.stat = value & 0x78,
            0xff42 => self.regs.scy = value,
            0xff43 => self.regs.scx = value,
            0xff44 => self.regs.ly = 0,
            0xff45 => {
                if self.regs.lcdc & 0x80 != 0 && value == self.regs.ly && self.regs.lyc
                    != self.regs.ly && self.regs.stat & 0x40 != 0 {
                    self.regs.interrupt = self.regs.interrupt | 2;
                }
                self.regs.lyc = value;
            },
            0xff46 => self.regs.dma = value,
            0xff47 => self.regs.bgp = value,
            0xff48 => self.regs.obp0 = value,
            0xff49 => self.regs.obp1 = value,
            0xff4a => self.regs.wy = value,
            _ => self.regs.wx = value,
        }
    }

    /// The shade that a palette gives a colour index.
    pub fn get_monochrome_color(&self, color_id: u8, palette: u8) -> (shade: u8)
        ensures
            shade == spec_shade(palette, color_id),
            shade <= 3,
    {
        proof {
            lemma_color_ranges(0, 0, 0, palette);
        }
        match color_id {
            0 => palette & 0x03,
            1 => (palette >> 2) & 0x03,
            2 => (palette >> 4) & 0x03,
            3 => (palette >> 6) & 0x03,
            _ => 0,
        }
    }

    /// Sets the pixel at column `x` of the current line.
    pub fn set_color(&mut self, x: usize, color: u8)
        requires
            old(self).wf(),
            old(self).regs.ly < 144,
            x < 160,
            color < 4,
        ensures
            final(self).wf(),
            final(self)@ == (GpuView {
                screen: old(self)@.screen.update(old(self)@.row_start() + x, color),
                ..old(self)@
            }),
    {
        let index = self.regs.ly as usize * SCREEN_WIDTH + x;
        self.screen_data[index] = color;
    }

    fn tile_pixel(&self, address: u16, row: u8, col: u8) -> (r: u8)
        requires
            self.wf(),
            address <= 0x9ff0,
            row < 16,
            col < 8,
        ensures
            r == self@.tile_pixel(address, row as int, col as int),
            r <= 3,
    {
        let low = self.read_vram(address + row as u16 * 2);
        let high = self.read_vram(address + row as u16 * 2 + 1);
        let bit = 7 - col;
        proof {
            lemma_color_ranges(high, low, bit, 0);
        }
        ((high >> bit) & 0x1) << 1 | ((low >> bit) & 0x1)
    }

    fn map_pixel(&self, map: u16, px: u8, py: u8) -> (r: u8)
        requires
            self.wf(),
            map == 0x9800 || map == 0x9c00,
        ensures
            r == self@.map_pixel(map, px as int, py as int),
            r <= 3,
    {
        let tile = self.read_vram(map + (py as u16 / 8) * 32 + px as u16 / 8);
        self.tile_pixel(tile_address(self.regs.lcdc, tile), py % 8, px % 8)
    }

    /// The colour index of the background layer at column `x` of the
    /// current line.
    pub fn bg_index(&self, x: u8) -> (r: u8)
        requires
            self.wf(),
            x < 160,
        ensures
            r == self@.bg_index(x as int),
            r <= 3,
    {
        let regs = &self.regs;
        if regs.lcdc & 0x01 == 0 {
            return 0;
        }
        let windowed = regs.window_on_line() && x as u16 + 7 >= regs.wx as u16;
        let map_bit: u8 = if windowed {
            0x40
        } else {
            0x08
        };
        let map: u16 = if regs.lcdc & map_bit != 0 {
            0x9c00
        } else {
            0x9800
        };
        let px = if windowed {
            x + 7 - regs.wx
        } else {
            x.wrapping_add(regs.scx)
        };
        let py = if windowed {
            regs.window_line
        } else {
            regs.ly.wrapping_add(regs.scy)
        };
        assert(windowed == self@.window_covers(x as int));
        assert(px as int == if windowed {
            x + 7 - regs.wx
        } else {
            (x + regs.scx) % 256
        });
        assert(py as int == if windowed {
            regs.window_line as int
        } else {
            (regs.ly + regs.scy) % 256
        });
        self.map_pixel(map, px, py)
    }

    /// Draws the background layer of the current line.
    pub fn draw_tiles(&mut self)
        requires
            old(self).wf(),
            old(self).regs.ly < 144,
        ensures
            final(self).wf(),
            final(self)@ == (GpuView { screen: old(self)@.bg_row(160), ..old(self)@ }),
    {
        let ghost pre = self@;
        let mut x: u8 = 0;
        assert(self@.screen =~= pre.bg_row(0));
        while x < 160
            invariant
                x <= 160,
                self.wf(),
                pre.wf(),
                pre.regs.ly < 144,
                self@ == (GpuView { screen: pre.bg_row(x as int), ..pre }),
            decreases 160 - x,
        {
            let shade = if self.regs.lcdc & 0x01 == 0 {
                0
            } else {
                let index = self.bg_index(x);
                self.get_monochrome_color(index, self.regs.bgp)
            };
            assert(self@.bg_index(x as int) == pre.bg_index(x as int));
            self.set_color(x as usize, shade);
            assert(self@.screen =~= pre.bg_row(x + 1));
            x = x + 1;
        }
    }

    /// The sprites that the current line shows, in OAM order.
    fn visible_sprites(&self) -> (list: Vec<u8>)
        requires
            self.wf(),
        ensures
            list@ == self@.visible_sprites(40),
            list@.len() <= 10,
            forall|j: int|
                0 <= j < list@.len() ==> #[trigger] list@[j] < 40 && self@.sprite_on_line(
                    list@[j] as int,
                ),
    {
        let height: u16 = if self.regs.lcdc & 0x04 != 0 {
            16
        } else {
            8
        };
        let mut list: Vec<u8> = Vec::new();
        let mut i: u8 = 0;
        while i < 40
            invariant
                i <= 40,
                self.wf(),
                height == self@.sprite_height(),
                list@ == self@.visible_sprites(i as nat),
                list@.len() <= 10,
                forall|j: int|
                    0 <= j < list@.len() ==> #[trigger] list@[j] < 40 && self@.sprite_on_line(
                        list@[j] as int,
                    ),
            decreases 40 - i,
        {
            let y = self.oam[4 * i as usize] as u16;
            let line = self.regs.ly as u16 + 16;
            if list.len() < 10 && y <= line && line < y + height {
                list.push(i);
            }
            i = i + 1;
        }
        list
    }

    fn sprite_index(&self, i: u8, x: u8) -> (r: u8)
        requires
            self.wf(),
            i < 40,
            x < 160,
            self@.sprite_on_line(i as int),
        ensures
            r == self@.sprite_index(i as int, x as int),
            r <= 3,
    {
        let base = 4 * i as usize;
        let sx = self.oam[base + 1] as u16;
        if x as u16 + 8 < sx || x as u16 + 8 - sx >= 8 {
            return 0;
        }
        let col = (x as u16 + 8 - sx) as u8;
        let flags = self.oam[base + 3];
        let line = (self.regs.ly as u16 + 16 - self.oam[base] as u16) as u8;
        let tall = self.regs.lcdc & 0x04 != 0;
        let height: u8 = if tall {
            16
        } else {
            8
        };
        let row = if flags & 0x40 != 0 {
            height - 1 - line
        } else {
            line
        };
        let tile = if tall {
            self.oam[base + 2] & 0xfe
        } else {
            self.oam[base + 2]
        };
        self.tile_pixel(
            0x8000 + tile as u16 * 16,
            row,
            if flags & 0x20 != 0 {
                7 - col
            } else {
                col
            },
        )
    }

    fn top_sprite(&self, list: &Vec<u8>, x: u8) -> (top: Option<u8>)
        requires
            self.wf(),
            x < 160,
            forall|j: int|
                0 <= j < list@.len() ==> #[trigger] list@[j] < 40 && self@.sprite_on_line(
                    list@[j] as int,
                ),
        ensures
            top == self@.top_sprite(list@, list@.len(), x as int),
            top matches Some(k) ==> k < 40 && self@.sprite_on_line(k as int),
    {
        let mut top: Option<u8> = None;
        let mut j: usize = 0;
        while j < list.len()
            invariant
                j <= list.len(),
                self.wf(),
                x < 160,
                forall|j: int|
                    0 <= j < list@.len() ==> #[trigger] list@[j] < 40 && self@.sprite_on_line(
                        list@[j] as int,
                    ),
                top == self@.top_sprite(list@, j as nat, x as int),
                top matches Some(k) ==> k < 40 && self@.sprite_on_line(k as int),
            decreases list.len() - j,
        {
            let k = list[j];
            if self.sprite_index(k, x) != 0 {
                match top {
                    None => {
                        top = Some(k);
                    },
                    Some(p) => {
                        if self.oam[4 * k as usize + 1] < self.oam[4 * p as usize + 1] {
                            top = Some(k);
                        }
                    },
                }
            }
            j = j + 1;
        }
        top
    }

    /// Draws the sprites of the current line over what the framebuffer
    /// holds.
    pub fn draw_sprites(&mut self)
        requires
            old(self).wf(),
            old(self).regs.ly < 144,
        ensures
            final(self).wf(),
            final(self)@ == (GpuView { screen: old(self)@.sprite_row(160), ..old(self)@ }),
    {
        let ghost pre = self@;
        assert(self@.screen =~= pre.sprite_row(0));
        if self.regs.lcdc & 0x02 == 0 {
            assert(self@.screen =~= pre.sprite_row(160));
            return ;
        }
        let list = self.visible_sprites();
        let mut x: u8 = 0;
        while x < 160
            invariant
                x <= 160,
                self.wf(),
                pre.wf(),
                pre.regs.ly < 144,
                pre.regs.lcdc & 0x02 != 0,
                list@ == pre.visible_sprites(40),
                forall|j: int|
                    0 <= j < list@.len() ==> #[trigger] list@[j] < 40 && pre.sprite_on_line(
                        list@[j] as int,
                    ),
                self@ == (GpuView { screen: pre.sprite_row(x as int), ..pre }),
            decreases 160 - x,
        {
            assert(self@.screen[pre.row_start() + x] == pre.screen[pre.row_start() + x]);
            proof {
                lemma_top_sprite_frame(self@, pre, list@, list@.len(), x as int);
            }
            match self.top_sprite(&list, x) {
                Some(k) => {
                    let flags = self.oam[4 * k as usize + 3];
                    assert(self@.bg_index(x as int) == pre.bg_index(x as int));
                    if !(flags & 0x80 != 0 && self.bg_index(x) != 0) {
                        let index = self.sprite_index(k, x);
                        let palette = if flags & 0x10 != 0 {
                            self.regs.obp1
                        } else {
                            self.regs.obp0
                        };
                        let shade = self.get_monochrome_color(index, palette);
                        self.set_color(x as usize, shade);
                    }
                },
                None => {},
            }
            assert(self@.screen =~= pre.sprite_row(x + 1));
            x = x + 1;
        }
    }

    /// Renders the current line into the framebuffer.
    pub fn render_scanline(&mut self)
        requires
            old(self).wf(),
            old(self).regs.ly < 144,
        ensures
            final(self).wf(),
            final(self)@ == (GpuView { screen: old(self)@.render_line(), ..old(self)@ }),
    {
        self.draw_tiles();
        self.draw_sprites();
    }

    /// Advances the unit by one dot.
    pub fn tick(&mut self)
        requires
            old(self).wf(),
        ensures
            final(self).wf(),
            final(self)@ == old(self)@.tick(),
    {
        if self.regs.lcdc & 0x80 == 0 {
            return ;
        }
        if self.regs.clock == 455 {
            let ly: u8 = if self.regs.ly >= 153 {
                0
            } else {
                self.regs.ly + 1
            };
            self.regs.clock = 0;
            self.regs.ly = ly;
            if ly == 0 {
                self.regs.window_line = 0;
            }
            self.regs.interrupt = self.regs.interrupt | line_requests(
                ly,
                self.regs.lyc,
                self.regs.stat,
            );
        } else if self.regs.ly < 144 && self.regs.clock == 251 {
            self.render_scanline();
            if self.regs.window_on_line() {
                self.regs.window_line = self.regs.window_line.wrapping_add(1);
            }
            if self.regs.stat & 0x08 != 0 {
                self.regs.interrupt = self.regs.interrupt | 2;
            }
            self.regs.clock = 252;
        } else {
            self.regs.clock = self.regs.clock + 1;
        }
    }

    /// Advances the unit by `cycles` dots.
    pub fn step(&mut self, cycles: u8)
        requires
            old(self).wf(),
        ensures
            final(self).wf(),
            final(self)@ == old(self)@.ticks(cycles as nat),
    {
        let mut i: u8 = 0;
        while i < cycles
            invariant
                i <= cycles,
                self.wf(),
                self@.ticks((cycles - i) as nat) == old(self)@.ticks(cycles as nat),
            decreases cycles - i,
        {
            self.tick();
            i = i + 1;
        }
    }
}

} // verus!
