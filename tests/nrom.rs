use nes::cartridge::{Cartridge, MirrorMode};
use nes::nrom::NRom;

#[test]
fn nrom_unmapped() {
    let mut a = NRom::new(vec![0; 16 * 1024], vec![0; 8 * 1024], 0, MirrorMode::HorizontalMirroring);
    a.write_cpu(0x5000, 123);
    assert_eq!(0, a.read_cpu(0x5000));
}

#[test]
fn nrom_ram() {
    let mut a = NRom::new(vec![0; 16 * 1024], vec![0; 8 * 1024], 0, MirrorMode::HorizontalMirroring);
    a.write_cpu(0x6001, 123);
    assert_eq!(0, a.read_cpu(0x6001));

    a = NRom::new(vec![0; 16 * 1024], vec![0; 8 * 1024], 0x800, MirrorMode::HorizontalMirroring);
    a.write_cpu(0x6001, 123);
    assert_eq!(123, a.read_cpu(0x6001));
    assert_eq!(123, a.read_cpu(0x6801));
    assert_eq!(123, a.read_cpu(0x7001));
    assert_eq!(123, a.read_cpu(0x6801));

    a = NRom::new(vec![0; 16 * 1024], vec![0; 8 * 1024], 0x1000, MirrorMode::HorizontalMirroring);
    a.write_cpu(0x6001, 123);
    assert_eq!(123, a.read_cpu(0x6001));
    assert_eq!(0, a.read_cpu(0x6801));
    assert_eq!(123, a.read_cpu(0x7001));
    assert_eq!(0, a.read_cpu(0x6801));

    a = NRom::new(vec![0; 16 * 1024], vec![0; 8 * 1024], 0x2000, MirrorMode::HorizontalMirroring);
    a.write_cpu(0x6001, 123);
    assert_eq!(123, a.read_cpu(0x6001));
    assert_eq!(0, a.read_cpu(0x6801));
    assert_eq!(0, a.read_cpu(0x7001));
    assert_eq!(0, a.read_cpu(0x6801));
}

#[test]
fn nrom_rom() {
    let mut rom = vec![123; 16 * 1024];
    rom[1] = 0;
    let mut a = NRom::new(rom, vec![0; 8 * 1024], 0, MirrorMode::HorizontalMirroring);
    a.write_cpu(0x8001, 111);
    assert_eq!(0, a.read_cpu(0x8001));
    assert_eq!(123, a.read_cpu(0x8002));
    assert_eq!(0, a.read_cpu(0xC001));
    assert_eq!(123, a.read_cpu(0xC002));

    rom = vec![123; 32 * 1024];
    rom[1] = 0;
    a = NRom::new(rom, vec![0; 8 * 1024], 0, MirrorMode::HorizontalMirroring);
    a.write_cpu(0x8001, 111);
    assert_eq!(0, a.read_cpu(0x8001));
    assert_eq!(123, a.read_cpu(0x8002));
    assert_eq!(123, a.read_cpu(0xC001));
    assert_eq!(123, a.read_cpu(0xC002));
}

#[test]
fn ppu() {
    let mut chr = vec![0; 8 * 1024];
    chr[2] = 123;
    let mut a = NRom::new(vec![123; 16 * 1024], chr, 0, MirrorMode::HorizontalMirroring);

    a.write_ppu(0x0002, 42);
    assert_eq!(123, a.read_ppu(0x0002));

    a.write_ppu(0x2002, 2);
    a.write_ppu(0x3403, 3);
    assert_eq!(2, a.read_ppu(0x2002));
    assert_eq!(0, a.read_ppu(0x2402));
    assert_eq!(2, a.read_ppu(0x2802));
    assert_eq!(0, a.read_ppu(0x2C02));
    assert_eq!(0, a.read_ppu(0x2003));
    assert_eq!(3, a.read_ppu(0x2403));
    assert_eq!(0, a.read_ppu(0x2803));
    assert_eq!(3, a.read_ppu(0x2C03));
    assert_eq!(2, a.read_ppu(0x3002));
    assert_eq!(0, a.read_ppu(0x3402));
    assert_eq!(2, a.read_ppu(0x3802));
    assert_eq!(0, a.read_ppu(0x3C02));
    assert_eq!(0, a.read_ppu(0x3003));
    assert_eq!(3, a.read_ppu(0x3403));
    assert_eq!(0, a.read_ppu(0x3803));
    assert_eq!(3, a.read_ppu(0x3C03));
}

#[test]
fn nrom_vertical_mirroring_pairs_left_and_right() {
    let mut a = NRom::new(vec![0; 16 * 1024], vec![0; 8 * 1024], 0, MirrorMode::VerticalMirroring);
    a.write_ppu(0x2002, 2);
    a.write_ppu(0x3803, 3);
    assert_eq!(2, a.read_ppu(0x2402));
    assert_eq!(0, a.read_ppu(0x2802));
    assert_eq!(3, a.read_ppu(0x2C03));
    assert_eq!(0, a.read_ppu(0x2403));
    assert_eq!(MirrorMode::VerticalMirroring, a.mirror_mode());
}

#[test]
fn nrom_16k_prg_repeats_at_c000() {
    let mut rom = vec![0u8; 16 * 1024];
    for (i, b) in rom.iter_mut().enumerate() {
        *b = (i % 251) as u8;
    }
    let a = NRom::new(rom, vec![0; 8 * 1024], 0, MirrorMode::HorizontalMirroring);
    for addr in [0x8000u16, 0x8001, 0x9234, 0xBFFF] {
        assert_eq!(a.read_cpu(addr), a.read_cpu(addr + 0x4000));
    }
    assert_eq!((0x1234 % 251) as u8, a.read_cpu(0x9234));
}
