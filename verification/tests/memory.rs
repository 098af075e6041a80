//! Reads and writes through the bus.
use rusty_boy::mbc::Cartridge;
use rusty_boy::memory::Memory;


#[test]
fn test_memory_read_write() {
    let mut memory = Memory::new();
    memory.write(0x8000, 0x12);
    assert_eq!(memory.read(0x8000), 0x12);
}

#[test]
fn test_memory_read_write_word() {
    let mut memory = Memory::new();
    memory.write_word(0x8000, 0x1234);
    assert_eq!(memory.read(0x8000), 0x34);
    assert_eq!(memory.read(0x8001), 0x12);
}

#[test]
fn test_memory_read_rom() {
    let mut memory = Memory::new();
    match &mut memory.mbc {
        Cartridge::Plain(cartridge) => cartridge.rom[0x0000] = 0x12,
        _ => panic!("a new bus holds a plain cartridge"),
    }
    assert_eq!(memory.read(0x0000), 0x12);
}

#[test]
fn test_memory_write_rom() {
    let mut memory = Memory::new();
    memory.write(0x0000, 0x12);
    match &memory.mbc {
        Cartridge::Plain(cartridge) => assert_ne!(cartridge.rom[0x0000], 0x12),
        _ => panic!("a new bus holds a plain cartridge"),
    }
}

#[test]
fn test_memory_read_write_vram() {
    let mut memory = Memory::new();
    memory.write(0x8000, 0x12);
    memory.write(0x8001, 0x34);
    assert_eq!(memory.read(0x8000), 0x12);
    assert_eq!(memory.read(0x8001), 0x34);
}

#[test]
fn test_memory_read_write_wram() {
    let mut memory = Memory::new();
    memory.write(0xC000, 0x12);
    assert_eq!(memory.read(0xC000), 0x12);
}

#[test]
fn test_memory_read_write_echo() {
    let mut memory = Memory::new();
    memory.write(0xE000, 0x12);
    assert_eq!(memory.read(0xC000), 0x12);
}

#[test]
fn test_memory_read_write_oam() {
    let mut memory = Memory::new();
    memory.write(0xFE00, 0x12);
    assert_eq!(memory.read(0xFE00), 0x12);
}

#[test]
fn test_memory_read_write_hram() {
    let mut memory = Memory::new();
    memory.write(0xFF80, 0x12);
    assert_eq!(memory.read(0xFF80), 0x12);
}

#[test]
fn test_memory_read_interrupt_flags() {
    let mut memory = Memory::new();
    memory.interrupt_flags = 0x12;
    assert_eq!(memory.read(0xFF0F), 0x12);
}

#[test]
fn test_memory_read_interrupt_enable() {
    let mut memory = Memory::new();
    memory.interrupt_enable = 0x12;
    assert_eq!(memory.read(0xFFFF), 0x12);
}

#[test]
fn test_memory_write_interrupt_flags() {
    let mut memory = Memory::new();
    memory.write(0xFF0F, 0x12);
    assert_eq!(memory.interrupt_flags, 0x12);
}

#[test]
fn test_memory_write_interrupt_enable() {
    let mut memory = Memory::new();
    memory.write(0xFFFF, 0x12);
    assert_eq!(memory.interrupt_enable, 0x12);
}

#[test]
fn test_memory_dma_transfer() {
    let mut memory = Memory::new();
    memory.write(0x8001, 0x34);
    memory.write(0xFF46, 0x80);
    assert_eq!(memory.read(0xFE01), 0x34);
}
