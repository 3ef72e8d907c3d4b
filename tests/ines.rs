use nes::cartridge::{Cartridge, MirrorMode};
use nes::ines::{load_rom, AnyCartridge, LoadError, Rom};

fn image(prg_banks: u8, chr_banks: u8, flags6: u8, flags7: u8) -> Vec<u8> {
    let mut d = vec![0x4E, 0x45, 0x53, 0x1A, prg_banks, chr_banks, flags6, flags7, 0, 0, 0, 0, 0, 0, 0, 0];
    for i in 0..(prg_banks as usize * 16384) {
        d.push((i / 16384) as u8 + 1);
    }
    d.extend(std::iter::repeat(0xCC).take(chr_banks as usize * 8192));
    d
}

#[test]
fn loads_nrom_image() {
    let d = image(1, 1, 0x01, 0x00);
    let rom = Rom::load(&d).unwrap();
    assert_eq!(16384, rom.prg_rom.len());
    assert_eq!(8192, rom.chr_rom.len());
    assert_eq!(8192, rom.ram_size);
    assert_eq!(0, rom.mapper);
    assert_eq!(MirrorMode::VerticalMirroring, rom.mirror_mode);
    let c = load_rom(&d).unwrap();
    assert!(matches!(c, AnyCartridge::NRom(_)));
    assert_eq!(1, c.read_cpu(0xC000));
    assert_eq!(0xCC, c.read_ppu(0x0000));
    assert_eq!(MirrorMode::VerticalMirroring, c.mirror_mode());
}

#[test]
fn loads_mmc1_image() {
    let d = image(16, 16, 0x10, 0x00);
    let c = load_rom(&d).unwrap();
    assert!(matches!(c, AnyCartridge::Mmc1(_)));
    assert_eq!(16, c.read_cpu(0xC000));
    assert_eq!(1, c.read_cpu(0x8000));
}

#[test]
fn header_errors() {
    assert_eq!(Some(LoadError::UnknownFormat), load_rom(&[0x4E, 0x45, 0x53, 0x00, 0, 0]).err());
    assert_eq!(Some(LoadError::Truncated), load_rom(&[0x4E, 0x45]).err());
    assert_eq!(Some(LoadError::Truncated), load_rom(&[0x4E, 0x45, 0x53, 0x1A, 1]).err());
    assert_eq!(Some(LoadError::Trainer), load_rom(&image(1, 1, 0x04, 0)).err());
    assert_eq!(Some(LoadError::VsUnisystem), load_rom(&image(1, 1, 0, 0x01)).err());
    assert_eq!(Some(LoadError::FileFormat(2)), load_rom(&image(1, 1, 0, 0x08)).err());
    let mut d = image(1, 1, 0, 0);
    d[9] = 2;
    assert_eq!(Some(LoadError::InvalidByte9), load_rom(&d).err());
    let mut d = image(1, 1, 0, 0);
    d[13] = 1;
    assert_eq!(Some(LoadError::NonZeroPadding(13)), load_rom(&d).err());
    let mut d = image(1, 1, 0, 0);
    d.truncate(100);
    assert_eq!(Some(LoadError::Truncated), load_rom(&d).err());
    assert_eq!(Some(LoadError::UnsupportedMapper(2)), load_rom(&image(1, 1, 0x20, 0)).err());
    assert_eq!(Some(LoadError::UnsupportedMapper(0x10)), load_rom(&image(1, 1, 0x00, 0x10)).err());
    assert_eq!(Some(LoadError::UnsupportedSize), load_rom(&image(1, 0, 0, 0)).err());
    assert_eq!(Some(LoadError::UnsupportedSize), load_rom(&image(2, 1, 0x10, 0)).err());
}
