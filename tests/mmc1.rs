use nes::cartridge::{Cartridge, MirrorMode};
use nes::mmc1::Mmc1;

fn serial_write(a: &mut Mmc1, addr: u16, value: u8) {
    for i in 0..5 {
        a.write_cpu(if i == 4 { addr } else { 0x8000 }, (value >> i) & 1);
    }
}

#[test]
fn mmc1_unmapped() {
    let mut a = Mmc1::new(vec![0; 256 * 1024], vec![0; 128 * 1024], 0x2000);
    a.write_cpu(0x5000, 123);
    assert_eq!(0, a.read_cpu(0x5000));
}

#[test]
fn mmc1_ram() {
    let mut a = Mmc1::new(vec![0; 256 * 1024], vec![0; 128 * 1024], 0x2000);
    a.write_cpu(0x6001, 123);
    assert_eq!(123, a.read_cpu(0x6001));

    // disable RAM
    a.write_cpu(0x8000, 0);
    a.write_cpu(0x8000, 0);
    a.write_cpu(0x8000, 0);
    a.write_cpu(0x8000, 0);
    a.write_cpu(0xE000, 1);
    assert_eq!(0, a.read_cpu(0x6001));
    a.write_cpu(0x6001, 111);

    // enable RAM
    a.write_cpu(0x8000, 0);
    a.write_cpu(0x8000, 0);
    a.write_cpu(0x8000, 0);
    a.write_cpu(0x8000, 0);
    a.write_cpu(0xE000, 0);
    assert_eq!(123, a.read_cpu(0x6001));
}

#[test]
fn mmc1_rom() {
    let mut rom = vec![255; 256 * 1024];
    for i in 0..16 {
        rom[i * 16 * 1024 + 1] = i as u8;
    }
    let mut a = Mmc1::new(rom, vec![0; 128 * 1024], 0x2000);

    // 32 switch mode
    for i in 0..2 {
        a.write_cpu(0x8001, 0);
        a.write_cpu(0x8001, 0);
        a.write_cpu(0x8001, i);
        a.write_cpu(0x8001, 0);
        a.write_cpu(0x8001, 0);
        for j in 0..16 {
            a.write_cpu(0xE000, j);
            a.write_cpu(0xE000, j >> 1);
            a.write_cpu(0xE000, j >> 2);
            a.write_cpu(0xE000, j >> 3);
            a.write_cpu(0xE000, 0);
            assert_eq!((j / 2) * 2, a.read_cpu(0x8001));
            assert_eq!((j / 2) * 2 + 1, a.read_cpu(0xC001));
        }
    }

    // fix first, 16 switch
    a.write_cpu(0x8001, 0);
    a.write_cpu(0x8001, 0);
    a.write_cpu(0x8001, 0);
    a.write_cpu(0x8001, 1);
    a.write_cpu(0x8001, 0);
    for i in 0..16 {
        a.write_cpu(0xE000, i);
        a.write_cpu(0xE000, i >> 1);
        a.write_cpu(0xE000, i >> 2);
        a.write_cpu(0xE000, i >> 3);
        a.write_cpu(0xE000, 0);
        assert_eq!(0, a.read_cpu(0x8001));
        assert_eq!(i, a.read_cpu(0xC001));
    }

    // fix last, 16 switch
    a.write_cpu(0x8001, 0);
    a.write_cpu(0x8001, 0);
    a.write_cpu(0x8001, 1);
    a.write_cpu(0x8001, 1);
    a.write_cpu(0x8001, 0);
    for i in 0..16 {
        a.write_cpu(0xE000, i);
        a.write_cpu(0xE000, i >> 1);
        a.write_cpu(0xE000, i >> 2);
        a.write_cpu(0xE000, i >> 3);
        a.write_cpu(0xE000, 0);
        assert_eq!(i, a.read_cpu(0x8001));
        assert_eq!(15, a.read_cpu(0xC001));
    }
}

#[test]
fn ppu_ram() {
    let mut a = Mmc1::new(vec![123; 256 * 1024], vec![0; 128 * 1024], 0x2000);
    a.write_ppu(0x2002, 2);
    a.write_ppu(0x3403, 3);
    assert_eq!(2, a.read_ppu(0x2002));
    assert_eq!(0, a.read_ppu(0x2402));
    assert_eq!(2, a.read_ppu(0x2802));
    assert_eq!(0, a.read_ppu(0x2C02));
    assert_eq!(0, a.read_ppu(0x2003));
    assert_eq!(3, a.read_ppu(0x2403));
    assert_eq!(0, a.read_ppu(0x2803));
    assert_eq!(3, a.read_ppu(0x2C03));
    assert_eq!(2, a.read_ppu(0x3002));
    assert_eq!(0, a.read_ppu(0x3402));
    assert_eq!(2, a.read_ppu(0x3802));
    assert_eq!(0, a.read_ppu(0x3C02));
    assert_eq!(0, a.read_ppu(0x3003));
    assert_eq!(3, a.read_ppu(0x3403));
    assert_eq!(0, a.read_ppu(0x3803));
    assert_eq!(3, a.read_ppu(0x3C03));
}

#[test]
fn ppu_rom() {
    let mut rom = vec![123; 128 * 1024];
    for i in 0..32 {
        rom[i * 4 * 1024 + 2] = i as u8;
    }

    let mut a = Mmc1::new(vec![123; 256 * 1024], rom, 0x2000);

    // 8 switch mode
    a.write_cpu(0x8001, 0);
    a.write_cpu(0x8001, 0);
    a.write_cpu(0x8001, 0);
    a.write_cpu(0x8001, 0);
    a.write_cpu(0x8001, 0);
    for i in 0..32 {
        a.write_cpu(0x8001, i >> 0);
        a.write_cpu(0x8001, i >> 1);
        a.write_cpu(0x8001, i >> 2);
        a.write_cpu(0x8001, i >> 3);
        a.write_cpu(0xA001, i >> 4);
        for j in 0..32 {
            a.write_cpu(0x8001, j >> 0);
            a.write_cpu(0x8001, j >> 1);
            a.write_cpu(0x8001, j >> 2);
            a.write_cpu(0x8001, j >> 3);
            a.write_cpu(0xC001, j >> 4);
            assert_eq!(i / 2 * 2, a.read_ppu(0x0002));
            assert_eq!(i / 2 * 2 + 1, a.read_ppu(0x1002));
        }
    }

    // 4 switch mode
    a.write_cpu(0x8001, 0);
    a.write_cpu(0x8001, 0);
    a.write_cpu(0x8001, 0);
    a.write_cpu(0x8001, 0);
    a.write_cpu(0x8001, 1);
    for i in 0..32 {
        a.write_cpu(0x8001, i >> 0);
        a.write_cpu(0x8001, i >> 1);
        a.write_cpu(0x8001, i >> 2);
        a.write_cpu(0x8001, i >> 3);
        a.write_cpu(0xA001, i >> 4);
        for j in 0..32 {
            a.write_cpu(0x8001, j >> 0);
            a.write_cpu(0x8001, j >> 1);
            a.write_cpu(0x8001, j >> 2);
            a.write_cpu(0x8001, j >> 3);
            a.write_cpu(0xC001, j >> 4);
            assert_eq!(i, a.read_ppu(0x0002));
            assert_eq!(j, a.read_ppu(0x1002));
        }
    }
}

#[test]
fn mmc1_fifth_write_address_picks_register() {
    let mut rom = vec![0u8; 256 * 1024];
    for i in 0..16 {
        rom[i * 16 * 1024 + 1] = i as u8;
    }
    let mut a = Mmc1::new(rom, vec![0; 128 * 1024], 0x2000);
    // Four writes at $E000 and the fifth at $8000: the value lands in control.
    for i in 0..5 {
        a.write_cpu(if i == 4 { 0x8000 } else { 0xE000 }, (0b00010u8 >> i) & 1);
    }
    assert_eq!(MirrorMode::VerticalMirroring, a.mirror_mode());
    // PRG mode 0 now: a 32 KiB bank from the PRG register, still 0.
    assert_eq!(0, a.read_cpu(0x8001));
    assert_eq!(1, a.read_cpu(0xC001));
}

#[test]
fn mmc1_bit7_write_aborts_serial_load() {
    let mut rom = vec![0u8; 256 * 1024];
    for i in 0..16 {
        rom[i * 16 * 1024 + 1] = i as u8;
    }
    let mut a = Mmc1::new(rom, vec![0; 128 * 1024], 0x2000);
    a.write_cpu(0xE000, 1);
    a.write_cpu(0xE000, 1);
    a.write_cpu(0x8000, 0x80);
    serial_write(&mut a, 0xE000, 5);
    assert_eq!(5, a.read_cpu(0x8001));
    assert_eq!(15, a.read_cpu(0xC001));
    assert_eq!(MirrorMode::SingleScreenLower, a.mirror_mode());
}

#[test]
fn unmapped() {
    let mut a = Mmc1::new(vec![0; 256 * 1024], vec![0; 128 * 1024], 0x2000);
    a.write_cpu(0x5000, 123);
    assert_eq!(0, a.read_cpu(0x5000));
}

#[test]
fn ram() {
    let mut a = Mmc1::new(vec![0; 256 * 1024], vec![0; 128 * 1024], 0x2000);
    a.write_cpu(0x6001, 123);
    assert_eq!(123, a.read_cpu(0x6001));

    // disable RAM
    a.write_cpu(0x8000, 0);
    a.write_cpu(0x8000, 0);
    a.write_cpu(0x8000, 0);
    a.write_cpu(0x8000, 0);
    a.write_cpu(0xE000, 1);
    assert_eq!(0, a.read_cpu(0x6001));
    a.write_cpu(0x6001, 111);

    // enable RAM
    a.write_cpu(0x8000, 0);
    a.write_cpu(0x8000, 0);
    a.write_cpu(0x8000, 0);
    a.write_cpu(0x8000, 0);
    a.write_cpu(0xE000, 0);
    assert_eq!(123, a.read_cpu(0x6001));
}

#[test]
fn rom() {
    let mut rom = vec![255; 256 * 1024];
    for i in 0..16 {
        rom[i * 16 * 1024 + 1] = i as u8;
    }
    let mut a = Mmc1::new(rom, vec![0; 128 * 1024], 0x2000);

    // 32 switch mode
    for i in 0..2 {
        a.write_cpu(0x8001, 0);
        a.write_cpu(0x8001, 0);
        a.write_cpu(0x8001, i);
        a.write_cpu(0x8001, 0);
        a.write_cpu(0x8001, 0);
        for j in 0..16 {
            a.write_cpu(0xE000, j);
            a.write_cpu(0xE000, j >> 1);
            a.write_cpu(0xE000, j >> 2);
            a.write_cpu(0xE000, j >> 3);
            a.write_cpu(0xE000, 0);
            assert_eq!((j / 2) * 2, a.read_cpu(0x8001));
            assert_eq!((j / 2) * 2 + 1, a.read_cpu(0xC001));
        }
    }

    // fix first, 16 switch
    a.write_cpu(0x8001, 0);
    a.write_cpu(0x8001, 0);
    a.write_cpu(0x8001, 0);
    a.write_cpu(0x8001, 1);
    a.write_cpu(0x8001, 0);
    for i in 0..16 {
        a.write_cpu(0xE000, i);
        a.write_cpu(0xE000, i >> 1);
        a.write_cpu(0xE000, i >> 2);
        a.write_cpu(0xE000, i >> 3);
        a.write_cpu(0xE000, 0);
        assert_eq!(0, a.read_cpu(0x8001));
        assert_eq!(i, a.read_cpu(0xC001));
    }

    // fix last, 16 switch
    a.write_cpu(0x8001, 0);
    a.write_cpu(0x8001, 0);
    a.write_cpu(0x8001, 1);
    a.write_cpu(0x8001, 1);
    a.write_cpu(0x8001, 0);
    for i in 0..16 {
        a.write_cpu(0xE000, i);
        a.write_cpu(0xE000, i >> 1);
        a.write_cpu(0xE000, i >> 2);
        a.write_cpu(0xE000, i >> 3);
        a.write_cpu(0xE000, 0);
        assert_eq!(i, a.read_cpu(0x8001));
        assert_eq!(15, a.read_cpu(0xC001));
    }
}
