//! The devices on the bus: display, timer, joypad and cartridge
//! controllers.
use rusty_boy::gpu::{Mode, GPU};
use rusty_boy::instruction::{Instruction, InstructionType, JumpCondition, RegisterTarget,
    RegisterTarget16};
use rusty_boy::keypad::{Key, Keypad};
use rusty_boy::mbc::mbc1::MBC1;
use rusty_boy::mbc::mbc2::MBC2;
use rusty_boy::mbc::mbc3::MBC3;
use rusty_boy::mbc::mbc5::MBC5;
use rusty_boy::mbc::{from_rom, get_number_ram_banks, get_number_rom_banks, get_ram_bytes,
    Cartridge, MBC};
use rusty_boy::memory::Memory;
use rusty_boy::timer::Timer;

/// An image of `banks` banks of 16 KiB whose every bank holds its own
/// number at offset 0 and at offset `3FFF`.
fn banked_image(cartridge_type: u8, rom_code: u8, ram_code: u8) -> Vec<u8> {
    let banks = get_number_rom_banks(rom_code).unwrap();
    let mut rom = vec![0u8; banks * 0x4000];
    for bank in 0..banks {
        rom[bank * 0x4000] = bank as u8;
        rom[bank * 0x4000 + 0x3fff] = bank as u8;
    }
    rom[0x147] = cartridge_type;
    rom[0x148] = rom_code;
    rom[0x149] = ram_code;
    rom
}

#[test]
fn display_frame_cadence() {
    let mut gpu = GPU::new();
    assert_eq!(gpu.regs.ly, 0);
    assert_eq!(gpu.regs.clock, 0);
    assert_eq!(gpu.regs.mode(), Mode::OAM);
    let mut requests = 0;
    for _ in 0..70224 {
        gpu.tick();
        assert!(gpu.regs.ly <= 153);
        assert!(gpu.regs.clock < 456);
        assert!(gpu.regs.mode().bits() <= 3);
        if gpu.regs.interrupt & 0x01 != 0 {
            requests += 1;
            assert_eq!(gpu.regs.ly, 144);
            assert_eq!(gpu.regs.clock, 0);
            assert_eq!(gpu.regs.mode(), Mode::VBlank);
            gpu.regs.interrupt = 0;
        }
    }
    assert_eq!(requests, 1);
    assert_eq!(gpu.regs.ly, 0);
    assert_eq!(gpu.regs.clock, 0);
    assert_eq!(gpu.regs.mode(), Mode::OAM);
}

#[test]
fn display_mode_dwell() {
    let mut gpu = GPU::new();
    gpu.step(79);
    assert_eq!(gpu.regs.mode(), Mode::OAM);
    gpu.step(1);
    assert_eq!(gpu.regs.mode(), Mode::DRAWING);
    gpu.step(171);
    assert_eq!(gpu.regs.mode(), Mode::DRAWING);
    gpu.step(1);
    assert_eq!(gpu.regs.mode(), Mode::HBlank);
    assert_eq!(gpu.read(0xff41) & 0x03, 0);
    gpu.step(203);
    assert_eq!(gpu.regs.mode(), Mode::HBlank);
    assert_eq!(gpu.regs.ly, 0);
    gpu.step(1);
    assert_eq!(gpu.regs.mode(), Mode::OAM);
    assert_eq!(gpu.regs.ly, 1);
    assert_eq!(gpu.read(0xff44), 1);
    assert_eq!(gpu.read(0xff41) & 0x03, 2);
}

#[test]
fn display_off_stands_still() {
    let mut gpu = GPU::new();
    gpu.step(200);
    gpu.step(200);
    gpu.step(200);
    assert_eq!(gpu.regs.ly, 1);
    gpu.write(0xff40, 0x11);
    assert_eq!(gpu.regs.ly, 0);
    assert_eq!(gpu.regs.clock, 0);
    assert_eq!(gpu.regs.mode(), Mode::HBlank);
    gpu.step(255);
    assert_eq!(gpu.regs.ly, 0);
    assert_eq!(gpu.regs.clock, 0);
    gpu.write(0xff40, 0x91);
    assert_eq!(gpu.regs.mode(), Mode::OAM);
    gpu.step(80);
    assert_eq!(gpu.regs.mode(), Mode::DRAWING);
}

#[test]
fn writing_ly_resets_it() {
    let mut gpu = GPU::new();
    for _ in 0..5 {
        gpu.step(228);
    }
    assert_eq!(gpu.read(0xff44), 2);
    gpu.write(0xff44, 0x55);
    assert_eq!(gpu.read(0xff44), 0);
}

#[test]
fn stat_interrupt_sources() {
    // LYC coincidence on line 2.
    let mut gpu = GPU::new();
    gpu.write(0xff45, 2);
    gpu.write(0xff41, 0x40);
    for _ in 0..4 {
        gpu.step(228);
    }
    assert_eq!(gpu.regs.ly, 2);
    assert_eq!(gpu.regs.interrupt, 0x02);
    assert_eq!(gpu.read(0xff41) & 0x04, 0x04);
    gpu.step(228);
    gpu.step(228);
    assert_eq!(gpu.read(0xff41) & 0x04, 0x00);
    // HBlank.
    let mut gpu = GPU::new();
    gpu.write(0xff45, 0xff);
    gpu.write(0xff41, 0x08);
    gpu.step(251);
    assert_eq!(gpu.regs.interrupt, 0);
    gpu.step(1);
    assert_eq!(gpu.regs.interrupt, 0x02);
    // OAM scan of the next line.
    let mut gpu = GPU::new();
    gpu.write(0xff45, 0xff);
    gpu.write(0xff41, 0x20);
    gpu.step(228);
    gpu.step(227);
    assert_eq!(gpu.regs.interrupt, 0);
    gpu.step(1);
    assert_eq!(gpu.regs.interrupt, 0x02);
    // Only bits 3 to 6 of STAT can be written.
    gpu.write(0xff41, 0xff);
    assert_eq!(gpu.regs.stat, 0x78);
}

/// A display with tile 1 of solid colour 3 and tile 2 of solid colour 1
/// in the table at `8000`.
fn display_with_tiles() -> GPU {
    let mut gpu = GPU::new();
    for row in 0..8 {
        gpu.write_vram(16 + row * 2, 0xff);
        gpu.write_vram(16 + row * 2 + 1, 0xff);
        gpu.write_vram(32 + row * 2, 0xff);
        gpu.write_vram(32 + row * 2 + 1, 0x00);
    }
    gpu
}

#[test]
fn background_tiles_and_palette() {
    let mut gpu = display_with_tiles();
    // Map entry (0, 1) shows tile 1; BGP maps colour 3 to shade 2 and
    // colour 0 to shade 1.
    gpu.write_vram(0x1800 + 1, 1);
    gpu.write(0xff47, 0b10_00_00_01);
    gpu.render_scanline();
    let screen = gpu.screen_data();
    for x in 0..8 {
        assert_eq!(screen[x], 1);
    }
    for x in 8..16 {
        assert_eq!(screen[x], 2);
    }
    assert_eq!(screen[16], 1);
    assert_eq!(screen[160], 0);
}

#[test]
fn background_scrolls() {
    let mut gpu = display_with_tiles();
    gpu.write_vram(0x1800 + 1, 1);
    gpu.write(0xff47, 0xe4);
    gpu.write(0xff43, 4);
    gpu.render_scanline();
    let screen = gpu.screen_data();
    assert_eq!(screen[3], 0);
    assert_eq!(screen[4], 3);
    assert_eq!(screen[11], 3);
    assert_eq!(screen[12], 0);
    // Scrolled down by eight lines, the first row of the map is gone.
    gpu.write(0xff42, 8);
    gpu.render_scanline();
    assert_eq!(gpu.screen_data()[4], 0);
}

#[test]
fn signed_tile_numbers() {
    let mut gpu = GPU::new();
    // With LCDC bit 4 clear, tile 0x80 lies at 8800 and tile 0 at 9000.
    gpu.write(0xff40, 0x81);
    gpu.write(0xff47, 0xe4);
    for row in 0..8 {
        gpu.write_vram(0x0800 + row * 2, 0xff);
        gpu.write_vram(0x1000 + row * 2 + 1, 0xff);
    }
    gpu.write_vram(0x1800, 0x80);
    gpu.write_vram(0x1801, 0x00);
    gpu.render_scanline();
    let screen = gpu.screen_data();
    assert_eq!(screen[0], 1);
    assert_eq!(screen[8], 2);
}

#[test]
fn background_switched_off_is_white() {
    let mut gpu = display_with_tiles();
    gpu.write_vram(0x1800, 1);
    gpu.write(0xff47, 0xff);
    gpu.write(0xff40, 0x90);
    gpu.render_scanline();
    assert_eq!(gpu.screen_data()[0], 0);
}

#[test]
fn window_covers_the_background() {
    let mut gpu = display_with_tiles();
    gpu.write(0xff47, 0xe4);
    // The window map at 9C00 shows tile 2 everywhere in its first row.
    for x in 0..32 {
        gpu.write_vram(0x1c00 + x, 2);
    }
    gpu.write(0xff40, 0x91 | 0x20 | 0x40);
    gpu.write(0xff4a, 0);
    gpu.write(0xff4b, 7 + 80);
    gpu.render_scanline();
    let screen = gpu.screen_data();
    assert_eq!(screen[79], 0);
    assert_eq!(screen[80], 1);
    assert_eq!(screen[159], 1);
    // Below WY the window is not drawn.
    gpu.write(0xff4a, 1);
    gpu.render_scanline();
    assert_eq!(gpu.screen_data()[80], 0);
}

#[test]
fn window_line_counts_drawn_lines() {
    let mut gpu = display_with_tiles();
    gpu.write(0xff40, 0x91 | 0x20);
    gpu.write(0xff4a, 1);
    gpu.write(0xff4b, 7);
    gpu.step(228);
    gpu.step(228);
    assert_eq!(gpu.regs.window_line, 0);
    gpu.step(228);
    gpu.step(228);
    assert_eq!(gpu.regs.ly, 2);
    assert_eq!(gpu.regs.window_line, 1);
}

fn put_sprite(gpu: &mut GPU, index: u16, y: u8, x: u8, tile: u8, flags: u8) {
    gpu.write_oam(index * 4, y);
    gpu.write_oam(index * 4 + 1, x);
    gpu.write_oam(index * 4 + 2, tile);
    gpu.write_oam(index * 4 + 3, flags);
}

/// A display whose every sprite lies off screen.
fn display_for_sprites() -> GPU {
    let mut gpu = display_with_tiles();
    for index in 0..40 {
        put_sprite(&mut gpu, index, 0, 0, 0, 0);
    }
    gpu.write(0xff40, 0x93);
    gpu.write(0xff47, 0xe4);
    gpu.write(0xff48, 0xe4);
    gpu.write(0xff49, 0x1b);
    gpu
}

#[test]
fn sprite_is_drawn_over_the_background() {
    let mut gpu = display_for_sprites();
    put_sprite(&mut gpu, 0, 16, 8 + 10, 1, 0x00);
    gpu.render_scanline();
    let screen = gpu.screen_data();
    assert_eq!(screen[9], 0);
    for x in 10..18 {
        assert_eq!(screen[x], 3);
    }
    assert_eq!(screen[18], 0);
    // The second palette.
    put_sprite(&mut gpu, 0, 16, 8 + 10, 1, 0x10);
    gpu.render_scanline();
    assert_eq!(gpu.screen_data()[10], 0);
    put_sprite(&mut gpu, 0, 16, 8 + 10, 2, 0x10);
    gpu.render_scanline();
    assert_eq!(gpu.screen_data()[10], 2);
}

#[test]
fn sprite_priority_is_by_x_then_by_index() {
    let mut gpu = display_for_sprites();
    // Sprite 0 (colour 3) at X 12 and sprite 1 (colour 1) at X 10: the
    // lower X wins where they overlap.
    put_sprite(&mut gpu, 0, 16, 8 + 12, 1, 0x00);
    put_sprite(&mut gpu, 1, 16, 8 + 10, 2, 0x00);
    gpu.render_scanline();
    let screen = gpu.screen_data();
    assert_eq!(screen[10], 1);
    assert_eq!(screen[17], 1);
    assert_eq!(screen[18], 3);
    assert_eq!(screen[19], 3);
    // With equal X the earlier entry of OAM wins.
    put_sprite(&mut gpu, 1, 16, 8 + 12, 2, 0x00);
    gpu.render_scanline();
    assert_eq!(gpu.screen_data()[12], 3);
}

#[test]
fn sprite_behind_the_background() {
    let mut gpu = display_for_sprites();
    gpu.write_vram(0x1800, 2);
    put_sprite(&mut gpu, 0, 16, 8 + 4, 1, 0x80);
    gpu.render_scanline();
    let screen = gpu.screen_data();
    // Over background colour 1 the sprite hides; over colour 0 it shows.
    assert_eq!(screen[4], 1);
    assert_eq!(screen[7], 1);
    assert_eq!(screen[8], 3);
    assert_eq!(screen[11], 3);
}

#[test]
fn sprite_flips() {
    let mut gpu = display_for_sprites();
    // Tile 3: the left half of its first row is colour 1, its last row is
    // solid colour 2.
    gpu.write_vram(48, 0xf0);
    gpu.write_vram(48 + 15, 0xff);
    put_sprite(&mut gpu, 0, 16, 8, 3, 0x00);
    gpu.render_scanline();
    assert_eq!(gpu.screen_data()[0], 1);
    assert_eq!(gpu.screen_data()[7], 0);
    put_sprite(&mut gpu, 0, 16, 8, 3, 0x20);
    gpu.render_scanline();
    assert_eq!(gpu.screen_data()[0], 0);
    assert_eq!(gpu.screen_data()[7], 1);
    put_sprite(&mut gpu, 0, 16, 8, 3, 0x40);
    gpu.render_scanline();
    assert_eq!(gpu.screen_data()[0], 2);
}

#[test]
fn tall_sprites() {
    let mut gpu = display_for_sprites();
    gpu.write(0xff40, 0x97);
    // A sprite of tiles 2 and 3 whose top is eight lines above the screen:
    // line 0 shows the first row of tile 3.
    gpu.write_vram(48, 0xff);
    gpu.write_vram(49, 0xff);
    put_sprite(&mut gpu, 0, 8, 8, 3, 0x00);
    gpu.render_scanline();
    assert_eq!(gpu.screen_data()[0], 3);
    // With the small size the same sprite does not reach line 0.
    gpu.write(0xff40, 0x93);
    gpu.render_scanline();
    assert_eq!(gpu.screen_data()[0], 0);
}

#[test]
fn at_most_ten_sprites_on_a_line() {
    let mut gpu = display_for_sprites();
    for index in 0..11 {
        put_sprite(&mut gpu, index, 16, 8 + 8 * index as u8, 1, 0x00);
    }
    gpu.render_scanline();
    let screen = gpu.screen_data();
    assert_eq!(screen[8 * 9], 3);
    assert_eq!(screen[8 * 9 + 7], 3);
    assert_eq!(screen[8 * 10], 0);
}

#[test]
fn sprites_switched_off() {
    let mut gpu = display_for_sprites();
    put_sprite(&mut gpu, 0, 16, 8, 1, 0x00);
    gpu.write(0xff40, 0x91);
    gpu.render_scanline();
    assert_eq!(gpu.screen_data()[0], 0);
}

#[test]
fn line_is_rendered_when_drawing_ends() {
    let mut gpu = display_with_tiles();
    gpu.write(0xff47, 0xe4);
    gpu.write_vram(0x1800, 1);
    gpu.step(251);
    assert_eq!(gpu.screen_data()[0], 0);
    gpu.step(1);
    assert_eq!(gpu.screen_data()[0], 3);
    assert_eq!(gpu.screen_data()[160], 0);
    gpu.step(228);
    gpu.step(228);
    assert_eq!(gpu.screen_data()[160], 3);
}

#[test]
fn timer_counts_at_the_selected_rate() {
    for (tac, period) in [(0x04u8, 1024u32), (0x05, 16), (0x06, 64), (0x07, 256)] {
        let mut timer = Timer::new();
        timer.write(0xff07, tac);
        for _ in 0..period - 1 {
            timer.step(1);
        }
        assert_eq!(timer.read(0xff05), 0);
        timer.step(1);
        assert_eq!(timer.read(0xff05), 1);
        for _ in 0..period {
            timer.step(1);
        }
        assert_eq!(timer.read(0xff05), 2);
        assert_eq!(timer.read(0xff07), 0xf8 | tac);
    }
}

#[test]
fn disabled_timer_keeps_tima() {
    let mut timer = Timer::new();
    timer.write(0xff05, 0x42);
    timer.write(0xff07, 0x01);
    for _ in 0..1000 {
        timer.step(255);
    }
    assert_eq!(timer.read(0xff05), 0x42);
    assert_eq!(timer.interrupt, 0);
}

#[test]
fn divider_counts_and_resets() {
    let mut timer = Timer::new();
    timer.step(255);
    assert_eq!(timer.read(0xff04), 0);
    timer.step(1);
    assert_eq!(timer.read(0xff04), 1);
    timer.step(200);
    timer.write(0xff04, 0x99);
    assert_eq!(timer.read(0xff04), 0);
    assert_eq!(timer.sys, 0);
    timer.step(255);
    assert_eq!(timer.read(0xff04), 0);
}

#[test]
fn timer_overflow_reloads_one_cycle_later() {
    let mut timer = Timer::new();
    timer.write(0xff06, 0xab);
    timer.write(0xff05, 0xff);
    timer.write(0xff07, 0x05);
    timer.step(16);
    assert_eq!(timer.read(0xff05), 0x00);
    assert_eq!(timer.interrupt, 0x00);
    timer.step(1);
    assert_eq!(timer.read(0xff05), 0xab);
    assert_eq!(timer.interrupt, 0x04);
}

#[test]
fn writing_tima_cancels_the_reload() {
    let mut timer = Timer::new();
    timer.write(0xff06, 0xab);
    timer.write(0xff05, 0xff);
    timer.write(0xff07, 0x05);
    timer.step(16);
    timer.write(0xff05, 0x10);
    timer.step(1);
    assert_eq!(timer.read(0xff05), 0x10);
    assert_eq!(timer.interrupt, 0x00);
}

#[test]
fn divider_write_can_advance_tima() {
    let mut timer = Timer::new();
    timer.write(0xff07, 0x05);
    timer.step(8);
    assert_eq!(timer.read(0xff05), 0);
    // Bit 3 of the counter is set: clearing the counter is a falling edge.
    timer.write(0xff04, 0);
    assert_eq!(timer.read(0xff05), 1);
}

#[test]
fn vblank_rises_once_a_frame_on_the_bus() {
    // Steps of uneven length that add up to one frame.
    let lengths = [4u8, 24, 12, 8, 20, 16, 255, 1, 13];
    let mut memory = Memory::new();
    memory.write(0xff0f, 0x1e);
    let mut passed: u32 = 0;
    let mut rises = 0;
    let mut next = 0;
    while passed < 70224 {
        let left = 70224 - passed;
        let cycles = if (lengths[next] as u32) < left { lengths[next] } else { left as u8 };
        next = (next + 1) % lengths.len();
        let before = memory.interrupt_flags;
        let line = memory.read(0xff44);
        memory.step(cycles);
        passed += cycles as u32;
        // No bit is cleared; the devices' lines are at rest.
        assert_eq!(memory.interrupt_flags & before, before);
        assert_eq!(memory.gpu.regs.interrupt, 0);
        assert_eq!(memory.timer.interrupt, 0);
        assert_eq!(memory.keypad.interrupt, 0);
        if memory.interrupt_flags & 0x01 != 0 {
            rises += 1;
            assert_eq!(line, 143);
            assert_eq!(memory.read(0xff44), 144);
            assert_eq!(memory.read(0xff41) & 0x03, 1);
            memory.interrupt_flags &= 0xfe;
        } else {
            assert!(!(line == 143 && memory.read(0xff44) == 144));
        }
    }
    assert_eq!(passed, 70224);
    assert_eq!(rises, 1);
    assert_eq!(memory.read(0xff44), 0);
}

#[test]
fn timer_interrupt_reaches_the_bus() {
    let mut memory = Memory::new();
    memory.write(0xff06, 0x80);
    memory.write(0xff05, 0xff);
    memory.write(0xff07, 0x05);
    memory.step(16);
    assert_eq!(memory.read(0xff0f) & 0x04, 0);
    memory.step(4);
    assert_eq!(memory.read(0xff0f) & 0x04, 0x04);
    assert_eq!(memory.read(0xff05), 0x80);
    assert_eq!(memory.timer.interrupt, 0);
}

#[test]
fn joypad_rows() {
    let mut keypad = Keypad::new();
    assert_eq!(keypad.read(), 0xff);
    keypad.press(Key::A);
    keypad.press(Key::Down);
    assert!(keypad.is_pressed(Key::A));
    assert!(keypad.is_pressed(Key::Down));
    assert!(!keypad.is_pressed(Key::B));
    // No row selected: the lines read high and nothing is requested.
    assert_eq!(keypad.read() & 0x0f, 0x0f);
    assert_eq!(keypad.interrupt, 0);
    // The direction row.
    keypad.write(0x20);
    assert_eq!(keypad.read(), 0xe7);
    assert_eq!(keypad.interrupt, 0x10);
    keypad.interrupt = 0;
    // The action row.
    keypad.write(0x10);
    assert_eq!(keypad.read(), 0xde);
    // Both rows.
    keypad.write(0x00);
    assert_eq!(keypad.read(), 0xc6);
    keypad.release(Key::A);
    assert!(!keypad.is_pressed(Key::A));
    assert_eq!(keypad.read(), 0xc7);
}

#[test]
fn joypad_requests_on_every_falling_line() {
    let mut keypad = Keypad::new();
    keypad.write(0x20);
    keypad.press(Key::Right);
    assert_eq!(keypad.interrupt, 0x10);
    keypad.interrupt = 0;
    // A second key of the row falls while the first is still held.
    keypad.press(Key::Up);
    assert_eq!(keypad.interrupt, 0x10);
    keypad.interrupt = 0;
    keypad.release(Key::Up);
    assert_eq!(keypad.interrupt, 0);
    // A key of the row that is not selected requests nothing.
    keypad.press(Key::Start);
    assert_eq!(keypad.interrupt, 0);
}

#[test]
fn joypad_latch_shows_the_lines() {
    let keys = [Key::A, Key::B, Key::Select, Key::Start, Key::Right, Key::Left, Key::Up,
        Key::Down];
    for select in [0x00u8, 0x10, 0x20, 0x30] {
        let mut keypad = Keypad::new();
        keypad.write(select);
        for key in keys {
            let before = keypad;
            keypad.press(key);
            let direction = matches!(key, Key::Right | Key::Left | Key::Up | Key::Down);
            let selected = if direction { select & 0x10 == 0 } else { select & 0x20 == 0 };
            // The press requests the interrupt exactly where it makes a
            // line fall.
            assert_eq!(keypad.interrupt != 0, selected && before.data & keypad.data & 0x0f
                != before.data & 0x0f);
            assert_eq!(keypad.interrupt != 0, selected);
            let request = keypad.interrupt;
            keypad.release(key);
            assert_eq!(keypad.data, before.data);
            assert_eq!(keypad.row0, before.row0);
            assert_eq!(keypad.row1, before.row1);
            assert_eq!(keypad.interrupt, request);
            keypad.interrupt = 0;
        }
    }
    // With both rows selected, a line that one row holds low does not
    // fall again through the other.
    let mut keypad = Keypad::new();
    keypad.write(0x00);
    keypad.press(Key::Right);
    keypad.interrupt = 0;
    keypad.press(Key::A);
    assert_eq!(keypad.interrupt, 0);
    assert_eq!(keypad.read() & 0x0f, 0x0e);
}

#[test]
fn block_copy() {
    let mut memory = Memory::new();
    memory.write_block(0xc0fe, &[1, 2, 3, 4]);
    assert_eq!(memory.read(0xc0fe), 1);
    assert_eq!(memory.read(0xc101), 4);
    let mut buffer = [0u8; 6];
    memory.read_block(0xc0fd, &mut buffer);
    assert_eq!(buffer, [0, 1, 2, 3, 4, 0]);
    // Up to the last address.
    memory.write_block(0xfffe, &[0x11, 0x1f]);
    let mut top = [0u8; 2];
    memory.read_block(0xfffe, &mut top);
    assert_eq!(top, [0x11, 0x1f]);
    assert_eq!(memory.interrupt_enable, 0x1f);
    // Writes go through the bus one by one: the last starts the transfer.
    memory.write_block(0xff45, &[0x07, 0xc0]);
    assert_eq!(memory.read(0xff45), 0x07);
    assert_eq!(memory.read(0xfe00), memory.read(0xc000));
    assert_eq!(memory.read(0xfe9f), memory.read(0xc09f));
    let mut none: [u8; 0] = [];
    memory.read_block(0xffff, &mut none);
    memory.write_block(0xffff, &none);
}

#[test]
fn bus_reset_keeps_the_cartridge() {
    let mut memory = Memory::new();
    assert!(memory.load_rom(&banked_image(0x01, 0x02, 0x00)).is_ok());
    memory.write(0x2000, 5);
    memory.write(0xc000, 0x12);
    memory.write(0xff80, 0x34);
    memory.write(0xffff, 0x1f);
    memory.write(0xff0f, 0x01);
    memory.write(0xff06, 0x77);
    memory.write(0xff42, 0x09);
    memory.write(0x8000, 0x56);
    memory.step(200);
    memory.reset();
    assert_eq!(memory.read(0xc000), 0);
    assert_eq!(memory.read(0xff80), 0);
    assert_eq!(memory.read(0xffff), 0);
    assert_eq!(memory.read(0xff0f), 0);
    assert_eq!(memory.read(0xff06), 0);
    assert_eq!(memory.read(0xff42), 0);
    assert_eq!(memory.read(0xff40), 0x91);
    assert_eq!(memory.read(0x8000), 0);
    assert_eq!(memory.gpu.regs.clock, 0);
    assert_eq!(memory.read(0x4000), 5);
}

#[test]
fn unusable_and_unmapped_addresses() {
    let mut memory = Memory::new();
    for address in [0xfea0u16, 0xfeff, 0xff01, 0xff02, 0xff10, 0xff3f, 0xff4c, 0xff7f] {
        memory.write(address, 0x12);
        assert_eq!(memory.read(address), 0xff);
    }
}

#[test]
fn echo_ram_mirrors_both_ways() {
    let mut memory = Memory::new();
    memory.write(0xfdff, 0x34);
    assert_eq!(memory.read(0xddff), 0x34);
    memory.write(0xc123, 0x56);
    assert_eq!(memory.read(0xe123), 0x56);
}

#[test]
fn dma_copies_from_work_ram_and_keeps_its_register() {
    let mut memory = Memory::new();
    for i in 0..0xa0u16 {
        memory.write(0xc100 + i, i as u8 ^ 0x5a);
    }
    memory.write(0xc1a0, 0xee);
    memory.write(0xff46, 0xc1);
    for i in 0..0xa0u16 {
        assert_eq!(memory.read(0xfe00 + i), i as u8 ^ 0x5a);
    }
    assert_eq!(memory.read(0xff46), 0xc1);
}

#[test]
fn word_access_wraps_at_the_top() {
    let mut memory = Memory::new();
    memory.write_word(0xffff, 0x1234);
    assert_eq!(memory.interrupt_enable, 0x34);
    assert_eq!(memory.read_word(0xfffe), 0x3400 | memory.read(0xfffe) as u16);
}

#[test]
fn size_codes() {
    let banks: Vec<Option<usize>> = (0..10).map(get_number_rom_banks).collect();
    assert_eq!(banks, [Some(2), Some(4), Some(8), Some(16), Some(32), Some(64), Some(128),
        Some(256), Some(512), None]);
    let bytes: Vec<Option<usize>> = (0..7).map(get_ram_bytes).collect();
    assert_eq!(bytes, [Some(0), Some(0x800), Some(0x2000), Some(0x8000), Some(0x20000),
        Some(0x10000), None]);
    let ram_banks: Vec<Option<usize>> = (0..7).map(get_number_ram_banks).collect();
    assert_eq!(ram_banks, [Some(0), Some(1), Some(1), Some(4), Some(16), Some(8), None]);
}

#[test]
fn plain_cartridge() {
    let mut rom = banked_image(0x09, 0x00, 0x02);
    rom[0x1234] = 0x56;
    let mut cartridge = from_rom(&rom).ok().unwrap();
    assert!(matches!(cartridge, Cartridge::Plain(_)));
    assert_eq!(cartridge.read_rom(0x1234), 0x56);
    assert_eq!(cartridge.read_rom(0x4000), 1);
    cartridge.write_rom(0x2000, 0x00);
    cartridge.write_rom(0x1234, 0x99);
    assert_eq!(cartridge.read_rom(0x1234), 0x56);
    assert_eq!(cartridge.read_ram(0xa000), 0x00);
    cartridge.write_ram(0xbfff, 0x77);
    assert_eq!(cartridge.read_ram(0xbfff), 0x77);
    assert!(cartridge.has_battery());
    assert_eq!(cartridge.battery_buffer().unwrap().len(), 0x2000);
    assert_eq!(cartridge.battery_buffer().unwrap()[0x1fff], 0x77);
    // Without RAM, the RAM area reads as FF.
    let mut cartridge = from_rom(&banked_image(0x00, 0x00, 0x00)).ok().unwrap();
    cartridge.write_ram(0xa000, 0x12);
    assert_eq!(cartridge.read_ram(0xa000), 0xff);
    assert!(!cartridge.has_battery());
    assert!(cartridge.battery_buffer().is_none());
}

#[test]
fn mbc1_rom_banking() {
    let rom = banked_image(0x01, 0x06, 0x00);
    let mut mbc = MBC1::new(&rom);
    assert_eq!(mbc.read_rom(0x0000), 0);
    assert_eq!(mbc.read_rom(0x4000), 1);
    assert_eq!(mbc.read_rom(0x7fff), 1);
    mbc.write_rom(0x2000, 0x05);
    assert_eq!(mbc.read_rom(0x4000), 5);
    // Only five bits count.
    mbc.write_rom(0x3fff, 0xe7);
    assert_eq!(mbc.read_rom(0x4000), 7);
    // Bank zero cannot be selected: it reads as bank one.
    mbc.write_rom(0x2000, 0x00);
    assert_eq!(mbc.read_rom(0x4000), 1);
    // With upper bits, 20, 40 and 60 read as 21, 41 and 61.
    for upper in 1..4u8 {
        mbc.write_rom(0x4000, upper);
        mbc.write_rom(0x2000, 0x00);
        assert_eq!(mbc.read_rom(0x4000), upper * 0x20 + 1);
        mbc.write_rom(0x2000, 0x12);
        assert_eq!(mbc.read_rom(0x7fff), upper * 0x20 + 0x12);
    }
    // The lower window follows the upper bits in mode 1 only.
    assert_eq!(mbc.read_rom(0x0000), 0);
    mbc.write_rom(0x6000, 0x01);
    assert_eq!(mbc.read_rom(0x0000), 0x60);
    assert_eq!(mbc.read_rom(0x3fff), 0x60);
    mbc.write_rom(0x6000, 0x00);
    assert_eq!(mbc.read_rom(0x3fff), 0);
}

#[test]
fn mbc1_never_shows_bank_zero_in_the_upper_window() {
    let rom = banked_image(0x01, 0x06, 0x00);
    let mut mbc = MBC1::new(&rom);
    for mode in 0..2u8 {
        mbc.write_rom(0x6000, mode);
        for upper in 0..4u8 {
            mbc.write_rom(0x4000, upper);
            for low in 0..32u8 {
                mbc.write_rom(0x2000, low);
                let bank = mbc.read_rom(0x4000);
                assert!(bank != 0);
                assert_eq!(bank, upper * 32 + if low == 0 { 1 } else { low });
            }
        }
    }
}

#[test]
fn mbc1_bank_number_is_reduced_to_the_image() {
    // Four banks: the bank number counts modulo 4, and bank 0 never shows
    // in the upper window.
    let rom = banked_image(0x01, 0x01, 0x00);
    let mut mbc = MBC1::new(&rom);
    for (written, shown) in [(1u8, 1u8), (2, 2), (3, 3), (4, 1), (5, 1), (6, 2), (7, 3), (8, 1),
        (0x1f, 3), (0x00, 1)] {
        mbc.write_rom(0x2000, written);
        assert_eq!(mbc.read_rom(0x4000), shown);
        assert_eq!(mbc.read_rom(0x7fff), shown);
    }
    // The upper bits count modulo 4 as well.
    mbc.write_rom(0x4000, 3);
    mbc.write_rom(0x2000, 2);
    assert_eq!(mbc.read_rom(0x4000), 2);
    // The lower window in mode 1: bank 0x60 modulo 4 is bank 0.
    mbc.write_rom(0x6000, 1);
    assert_eq!(mbc.read_rom(0x0000), 0);
    // Two banks of zeros but for one byte: bank 3 is bank 1.
    let mut rom = vec![0u8; 0x8000];
    rom[0x147] = 0x01;
    rom[0x4000] = 0x5a;
    let mut mbc = MBC1::new(&rom);
    mbc.write_rom(0x2000, 3);
    assert_eq!(mbc.read_rom(0x4000), 0x5a);
    // The same through the bus.
    let mut memory = Memory::new();
    assert!(memory.load_rom(&rom).is_ok());
    memory.write(0x2000, 3);
    assert_eq!(memory.read(0x4000), 0x5a);
    memory.write(0x2000, 2);
    assert_eq!(memory.read(0x4000), 0x5a);
}

#[test]
fn other_controllers_reduce_the_bank_number() {
    // MBC2 with four banks.
    let mut mbc = MBC2::new(&banked_image(0x05, 0x01, 0x00));
    mbc.write_rom(0x2100, 0x07);
    assert_eq!(mbc.read_rom(0x4000), 3);
    mbc.write_rom(0x2100, 0x04);
    assert_eq!(mbc.read_rom(0x7fff), 0);
    // MBC3 with eight banks.
    let mut mbc = MBC3::new(&banked_image(0x11, 0x02, 0x00));
    mbc.write_rom(0x2000, 0x7d);
    assert_eq!(mbc.read_rom(0x4000), 5);
    // MBC5 with two banks.
    let mut mbc = MBC5::new(&banked_image(0x19, 0x00, 0x00));
    mbc.write_rom(0x2000, 0xff);
    mbc.write_rom(0x3000, 0x01);
    assert_eq!(mbc.read_rom(0x4000), 1);
    mbc.write_rom(0x2000, 0xfe);
    assert_eq!(mbc.read_rom(0x4000), 0);
}

#[test]
fn mbc1_ram() {
    let rom = banked_image(0x03, 0x01, 0x03);
    let mut mbc = MBC1::new(&rom);
    assert!(mbc.has_battery());
    // Disabled RAM reads FF and ignores writes.
    mbc.write_ram(0xa000, 0x11);
    assert_eq!(mbc.read_ram(0xa000), 0xff);
    mbc.write_rom(0x0000, 0x0a);
    assert_eq!(mbc.read_ram(0xa000), 0x00);
    mbc.write_ram(0xa000, 0x11);
    assert_eq!(mbc.read_ram(0xa000), 0x11);
    // RAM banks show in mode 1.
    mbc.write_rom(0x6000, 1);
    mbc.write_rom(0x4000, 2);
    assert_eq!(mbc.read_ram(0xa000), 0x00);
    mbc.write_ram(0xa000, 0x22);
    assert_eq!(mbc.battery_buffer().unwrap()[0x4000], 0x22);
    mbc.write_rom(0x6000, 0);
    assert_eq!(mbc.read_ram(0xa000), 0x11);
    // Any value whose low nibble is not A disables.
    mbc.write_rom(0x1fff, 0x1b);
    assert_eq!(mbc.read_ram(0xa000), 0xff);
    mbc.write_rom(0x1fff, 0xfa);
    assert_eq!(mbc.read_ram(0xa000), 0x11);
}

#[test]
fn battery_ram_is_saved_and_restored() {
    let rom = banked_image(0x03, 0x01, 0x02);
    let mut first = from_rom(&rom).ok().unwrap();
    first.write_rom(0x0000, 0x0a);
    first.write_ram(0xa123, 0x45);
    let saved = first.battery_buffer().unwrap().clone();
    let mut second = from_rom(&rom).ok().unwrap();
    assert!(second.restore_battery(&saved));
    second.write_rom(0x0000, 0x0a);
    assert_eq!(second.read_ram(0xa123), 0x45);
    // An image of another length is refused.
    assert!(!second.restore_battery(&vec![0u8; 16]));
    assert_eq!(second.read_ram(0xa123), 0x45);
    // A cartridge without a battery takes nothing.
    let mut plain = from_rom(&banked_image(0x02, 0x01, 0x02)).ok().unwrap();
    assert!(!plain.restore_battery(&saved));
}

#[test]
fn mbc2_registers_and_ram() {
    let rom = banked_image(0x06, 0x03, 0x00);
    let mut mbc = MBC2::new(&rom);
    assert_eq!(mbc.read_rom(0x4000), 1);
    // Bit 8 of the address set: ROM bank.
    mbc.write_rom(0x2100, 0x0f);
    assert_eq!(mbc.read_rom(0x4000), 15);
    mbc.write_rom(0x0100, 0x10);
    assert_eq!(mbc.read_rom(0x4000), 1);
    // Bit 8 of the address clear: RAM enable.
    assert_eq!(mbc.read_ram(0xa000), 0xff);
    mbc.write_rom(0x0000, 0x0a);
    assert_eq!(mbc.read_rom(0x4000), 1);
    mbc.write_ram(0xa000, 0xab);
    assert_eq!(mbc.read_ram(0xa000), 0xfb);
    // The 512 cells repeat.
    assert_eq!(mbc.read_ram(0xa200), 0xfb);
    mbc.write_rom(0x4000, 0x05);
    assert_eq!(mbc.read_rom(0x4000), 1);
    assert!(mbc.has_battery());
}

#[test]
fn mbc3_banks_and_clock() {
    let rom = banked_image(0x10, 0x06, 0x03);
    let mut mbc = MBC3::new(&rom);
    mbc.write_rom(0x2000, 0x7f);
    assert_eq!(mbc.read_rom(0x4000), 0x7f);
    mbc.write_rom(0x2000, 0x80);
    assert_eq!(mbc.read_rom(0x4000), 1);
    mbc.write_rom(0x0000, 0x0a);
    mbc.write_rom(0x4000, 3);
    mbc.write_ram(0xa000, 0x33);
    mbc.write_rom(0x4000, 0);
    assert_eq!(mbc.read_ram(0xa000), 0x00);
    mbc.write_rom(0x4000, 3);
    assert_eq!(mbc.read_ram(0xa000), 0x33);
    // The clock registers are read through the latch.
    mbc.write_rom(0x4000, 0x08);
    mbc.write_ram(0xa000, 59);
    assert_eq!(mbc.read_ram(0xa000), 0);
    mbc.write_rom(0x6000, 0);
    mbc.write_rom(0x6000, 1);
    assert_eq!(mbc.read_ram(0xa000), 59);
    mbc.write_ram(0xa000, 12);
    // A one without a zero before it does not latch.
    mbc.write_rom(0x6000, 1);
    assert_eq!(mbc.read_ram(0xa000), 59);
    mbc.write_rom(0x4000, 0x0c);
    assert_eq!(mbc.read_ram(0xa000), 0);
    mbc.write_rom(0x4000, 0x05);
    assert_eq!(mbc.read_ram(0xa000), 0xff);
}

#[test]
fn mbc3_clock_runs() {
    let rom = banked_image(0x10, 0x06, 0x03);
    let mut mbc = MBC3::new(&rom);
    for _ in 0..59 {
        mbc.tick_second();
    }
    assert_eq!((mbc.clock.seconds, mbc.clock.minutes), (59, 0));
    mbc.tick_second();
    assert_eq!((mbc.clock.seconds, mbc.clock.minutes), (0, 1));
    mbc.clock.seconds = 59;
    mbc.clock.minutes = 59;
    mbc.clock.hours = 23;
    mbc.clock.day_low = 255;
    mbc.tick_second();
    assert_eq!((mbc.clock.seconds, mbc.clock.minutes, mbc.clock.hours), (0, 0, 0));
    assert_eq!((mbc.clock.day_low, mbc.clock.day_high), (0, 0x01));
    mbc.clock.seconds = 59;
    mbc.clock.minutes = 59;
    mbc.clock.hours = 23;
    mbc.clock.day_low = 255;
    mbc.tick_second();
    assert_eq!((mbc.clock.day_low, mbc.clock.day_high), (0, 0x80));
    // Halted, the clock stands still.
    mbc.clock.day_high = 0x40;
    mbc.tick_second();
    assert_eq!(mbc.clock.seconds, 0);
    // Reads show the latched copy only.
    mbc.write_rom(0x0000, 0x0a);
    mbc.write_rom(0x4000, 0x0b);
    assert_eq!(mbc.read_ram(0xa000), 0);
    // Through the cartridge.
    let mut cartridge = from_rom(&rom).ok().unwrap();
    cartridge.tick_second();
    match &cartridge {
        Cartridge::Mbc3(mbc) => assert_eq!(mbc.clock.seconds, 1),
        _ => panic!("type 10 is an MBC3"),
    }
}

#[test]
fn mbc5_banks() {
    let rom = banked_image(0x1b, 0x08, 0x04);
    let mut mbc = MBC5::new(&rom);
    assert_eq!(mbc.read_rom(0x4000), 1);
    // Bank zero is a bank like any other.
    mbc.write_rom(0x2000, 0x00);
    assert_eq!(mbc.read_rom(0x4000), 0);
    mbc.write_rom(0x2000, 0xff);
    assert_eq!(mbc.read_rom(0x4000), 0xff);
    // The ninth bit.
    mbc.write_rom(0x3000, 0x01);
    assert_eq!(mbc.rom_bank, 0x1ff);
    assert_eq!(mbc.read_rom(0x4000), 0xff);
    mbc.write_rom(0x2000, 0x02);
    assert_eq!(mbc.rom_bank, 0x102);
    assert_eq!(mbc.read_rom(0x7fff), 0x02);
    mbc.write_rom(0x3000, 0x00);
    assert_eq!(mbc.rom_bank, 0x002);
    mbc.write_rom(0x0000, 0x0a);
    mbc.write_rom(0x4000, 0x0f);
    mbc.write_ram(0xbfff, 0x5f);
    assert_eq!(mbc.battery_buffer().unwrap()[0x1ffff], 0x5f);
    assert_eq!(mbc.read_ram(0xbfff), 0x5f);
}

#[test]
fn controller_by_cartridge_type() {
    for (kind, expected) in [(0x00u8, 0u8), (0x08, 0), (0x01, 1), (0x02, 1), (0x03, 1),
        (0x05, 2), (0x06, 2), (0x0f, 3), (0x11, 3), (0x13, 3), (0x19, 5), (0x1e, 5)] {
        let cartridge = from_rom(&banked_image(kind, 0x01, 0x02)).ok().unwrap();
        let found = match cartridge {
            Cartridge::Plain(_) => 0,
            Cartridge::Mbc1(_) => 1,
            Cartridge::Mbc2(_) => 2,
            Cartridge::Mbc3(_) => 3,
            Cartridge::Mbc5(_) => 5,
        };
        assert_eq!(found, expected);
    }
    for kind in [0x04u8, 0x07, 0x0b, 0x14, 0x18, 0x1f, 0x20, 0xfe, 0xff] {
        assert!(from_rom(&banked_image(kind, 0x01, 0x02)).is_err());
    }
}

#[test]
fn bus_routes_to_the_cartridge() {
    let mut memory = Memory::new();
    let rom = banked_image(0x03, 0x02, 0x02);
    assert!(memory.load_rom(&rom).is_ok());
    assert_eq!(memory.read(0x4000), 1);
    memory.write(0x2000, 6);
    assert_eq!(memory.read(0x4000), 6);
    memory.write(0x0000, 0x0a);
    memory.write(0xa010, 0x66);
    assert_eq!(memory.read(0xa010), 0x66);
    // An image that cannot be loaded leaves the cartridge in place.
    assert!(memory.load_rom(&vec![0u8; 16]).is_err());
    assert_eq!(memory.read(0x4000), 6);
}

#[test]
fn opcode_tables() {
    let add = Instruction::from(0xc6);
    assert_eq!(add.itype, InstructionType::ADD(RegisterTarget::INSTANT));
    assert_eq!(add.ticks, 8);
    let jr = Instruction::from(0x20);
    assert_eq!(jr.itype, InstructionType::JR(JumpCondition::NZ));
    assert_eq!((jr.ticks, jr.ticks_taken), (8, 12));
    let ret = Instruction::from(0xd8);
    assert_eq!(ret.itype, InstructionType::RET(JumpCondition::C));
    assert_eq!((ret.ticks, ret.ticks_taken), (8, 20));
    assert_eq!(Instruction::from(0x76).itype, InstructionType::HALT);
    assert_eq!(Instruction::from(0x70).itype,
        InstructionType::LOAD11(RegisterTarget::_HL, RegisterTarget::B));
    assert_eq!(Instruction::from(0x70).ticks, 8);
    assert_eq!(Instruction::from(0x36).ticks, 12);
    assert_eq!(Instruction::from(0xf1).itype, InstructionType::POP(RegisterTarget16::AF));
    assert_eq!(Instruction::from(0x31).itype,
        InstructionType::LOAD22(RegisterTarget16::SP, RegisterTarget16::INSTANT2));
    assert_eq!(Instruction::from(0xff).itype, InstructionType::RST(0x38));
    let illegal = (0..=255u8)
        .filter(|opcode| Instruction::from(*opcode).itype == InstructionType::ILLEGAL)
        .count();
    assert_eq!(illegal, 11);
    assert_eq!(Instruction::from_cb(0x7e).itype, InstructionType::BIT(7, RegisterTarget::_HL));
    assert_eq!(Instruction::from_cb(0x7e).ticks, 12);
    assert_eq!(Instruction::from_cb(0x86).ticks, 16);
    assert_eq!(Instruction::from_cb(0x37).itype, InstructionType::SWAP(RegisterTarget::A));
    for opcode in 0..=255u8 {
        let ticks = Instruction::from(opcode).ticks;
        assert!(ticks % 4 == 0 && ticks >= 4 && ticks <= 24);
        let ticks = Instruction::from_cb(opcode).ticks;
        assert!(ticks == 8 || ticks == 12 || ticks == 16);
    }
}
