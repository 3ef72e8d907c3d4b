use nes::memory::Memory;
use nes::memory_map::{APU_IO_START, CARTRIDGE_SIZE, CARTRIDGE_START, PPU_START, RAM_START};

#[test]
fn constants() {
    assert_eq!(0, RAM_START);
    assert!(RAM_START < PPU_START);
    assert!(PPU_START < APU_IO_START);
    assert!(APU_IO_START < CARTRIDGE_START);
    assert_eq!(0, CARTRIDGE_START.wrapping_add(CARTRIDGE_SIZE));
}

#[test]
fn memory_mirrors_every_2k() {
    let mut m = Memory::new();
    m.write(0x1801, 7);
    assert_eq!(7, m.read(0x0001));
    assert_eq!(7, m.read(0x0801));
    assert_eq!(7, m.read(0x1001));
    assert_eq!(0, m.read(0x0002));
}
