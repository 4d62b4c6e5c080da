use boyohboy::error::GbError;
use boyohboy::memory::Memory;

fn fresh_memory() -> Memory {
    let mut rom = vec![0u8; 0x8000];
    rom[0x0000] = 0xAA;
    rom[0x7FFF] = 0xBB;
    Memory::new(rom)
}

#[test]
fn test_rom_reads_and_ignores_writes() {
    let mut memory = fresh_memory();
    assert_eq!(memory.read(0x0000), 0xAA);
    assert_eq!(memory.read(0x7FFF), 0xBB);
    memory.write(0x0000, 0x11).unwrap();
    assert_eq!(memory.read(0x0000), 0xAA);
}

#[test]
fn test_work_ram_echo_reads() {
    let mut memory = fresh_memory();
    memory.write(0xC123, 0x77).unwrap();
    assert_eq!(memory.read(0xC123), 0x77);
    assert_eq!(memory.read(0xE123), 0x77);
}

#[test]
fn test_mirror_write_is_rejected() {
    let mut memory = fresh_memory();
    let r = memory.write(0xE000, 0x01);
    assert_eq!(r, Err(GbError::MirrorRamWrite { addr: 0xE000 }));
    assert_eq!(memory.read(0xC000), 0x00);
}

#[test]
fn test_unusable_gap_is_open_bus() {
    let mut memory = fresh_memory();
    assert_eq!(memory.read(0xFEA0), 0xFF);
    assert_eq!(memory.read(0xFEFF), 0xFF);
    memory.write(0xFEA5, 0x12).unwrap();
    assert_eq!(memory.read(0xFEA5), 0xFF);
}

#[test]
fn test_high_ram_and_interrupt_enable() {
    let mut memory = fresh_memory();
    memory.write(0xFF80, 0x42).unwrap();
    memory.write(0xFFFF, 0x1F).unwrap();
    assert_eq!(memory.read(0xFF80), 0x42);
    assert_eq!(memory.read(0xFFFF), 0x1F);
}

#[test]
fn test_dma_copies_oam_through_the_bus() {
    let mut memory = fresh_memory();
    for i in 0..160u16 {
        memory.write(0xC100 + i, i as u8).unwrap();
    }
    memory.write(0xFF46, 0xC1).unwrap();
    for i in 0..160u16 {
        assert_eq!(memory.read(0xFE00 + i), i as u8);
    }
}
