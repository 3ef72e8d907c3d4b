use nes::cartridge::{Cartridge, MirrorMode};
use nes::cpu::{Cpu, Hardware};
use nes::nrom::NRom;
use nes::ppu::{Ppu, PpuOutput};

struct Counter {
    pixels: usize,
}

impl PpuOutput for Counter {
    fn set_pixel(&mut self, x: usize, y: usize, _r: u8, _g: u8, _b: u8) {
        assert!(x < 256 && y < 240);
        self.pixels += 1;
    }
}

fn cart() -> NRom {
    NRom::new(vec![0; 16 * 1024], vec![0; 8 * 1024], 0, MirrorMode::HorizontalMirroring)
}

#[test]
fn ppuaddr_ppudata_round_trip() {
    let mut hw = Hardware { ppu: Ppu::new(), cartridge: cart() };
    let mut cpu = Cpu::new();
    cpu.write_memory(&mut hw, 0x2006, 0x20);
    cpu.write_memory(&mut hw, 0x2006, 0x00);
    cpu.write_memory(&mut hw, 0x2007, 0x5A);
    assert_eq!(0x5A, hw.cartridge.read_ppu(0x2000));
    cpu.write_memory(&mut hw, 0x2006, 0x20);
    cpu.write_memory(&mut hw, 0x2006, 0x00);
    assert_eq!(0x5A, cpu.read_memory(&mut hw, 0x2007));
}

#[test]
fn palette_aliases_and_masks() {
    let mut ppu = Ppu::new();
    let mut c = cart();
    for (hi, lo) in [(0x3F10u16, 0x3F00u16), (0x3F14, 0x3F04), (0x3F18, 0x3F08), (0x3F1C, 0x3F0C)] {
        ppu.write(&mut c, 0x2006, (hi >> 8) as u8);
        ppu.write(&mut c, 0x2006, hi as u8);
        ppu.write(&mut c, 0x2007, 0xFF);
        ppu.write(&mut c, 0x2006, (lo >> 8) as u8);
        ppu.write(&mut c, 0x2006, lo as u8);
        assert_eq!(0x3F, ppu.read(&c, 0x2007));
    }
    ppu.write(&mut c, 0x2006, 0x3F);
    ppu.write(&mut c, 0x2006, 0x01);
    ppu.write(&mut c, 0x2007, 0x41);
    ppu.write(&mut c, 0x2006, 0x3F);
    ppu.write(&mut c, 0x2006, 0x11);
    assert_eq!(0x00, ppu.read(&c, 0x2007));
}

#[test]
fn ppudata_increment_32_and_register_mirrors() {
    let mut ppu = Ppu::new();
    let mut c = cart();
    ppu.write(&mut c, 0x2008, 0x04);
    ppu.write(&mut c, 0x200E, 0x20);
    ppu.write(&mut c, 0x3FFE, 0x00);
    ppu.write(&mut c, 0x2007, 1);
    ppu.write(&mut c, 0x2007, 2);
    assert_eq!(1, c.read_ppu(0x2000));
    assert_eq!(2, c.read_ppu(0x2020));
}

#[test]
fn status_read_clears_toggle_and_keeps_open_bus() {
    let mut ppu = Ppu::new();
    let mut c = cart();
    ppu.write(&mut c, 0x2006, 0x21);
    assert_eq!(0x01, ppu.read(&c, 0x2002));
    ppu.write(&mut c, 0x2006, 0x20);
    ppu.write(&mut c, 0x2006, 0x05);
    ppu.write(&mut c, 0x2007, 9);
    assert_eq!(9, c.read_ppu(0x2005));
    assert_eq!(9, ppu.read(&c, 0x2000));
}

#[test]
fn oam_data_post_increments() {
    let mut ppu = Ppu::new();
    let mut c = cart();
    ppu.write(&mut c, 0x2003, 0xFF);
    ppu.write(&mut c, 0x2004, 0x11);
    ppu.write(&mut c, 0x2004, 0x22);
    ppu.write(&mut c, 0x2003, 0xFF);
    assert_eq!(0x11, ppu.read(&c, 0x2004));
    ppu.write(&mut c, 0x2003, 0x00);
    assert_eq!(0x22, ppu.read(&c, 0x2004));
}

#[test]
fn vblank_starts_at_241_and_frame_renders() {
    let mut ppu = Ppu::new();
    let mut c = cart();
    let mut out = Counter { pixels: 0 };
    ppu.write(&mut c, 0x2000, 0x80);
    // From scanline 261 dot 0 to scanline 241 dot 1.
    for _ in 0..(341 + 241 * 341 + 1) {
        ppu.tick(&c, &mut out);
    }
    assert_eq!(256 * 240, out.pixels);
    assert_eq!(0, ppu.read(&c, 0x2002) & 0x80);
    ppu.tick(&c, &mut out);
    assert_eq!(0x80, ppu.read(&c, 0x2002) & 0x80);
    assert!(ppu.take_nmi());
    assert!(!ppu.take_nmi());
    // To scanline 261 dot 2: vblank cleared again.
    for _ in 0..(20 * 341 + 1) {
        ppu.tick(&c, &mut out);
    }
    assert_eq!(0, ppu.read(&c, 0x2002) & 0x80);
}

struct Recorder {
    pixels: Vec<(usize, usize, u8, u8, u8)>,
}

impl PpuOutput for Recorder {
    fn set_pixel(&mut self, x: usize, y: usize, r: u8, g: u8, b: u8) {
        self.pixels.push((x, y, r, g, b));
    }
}

#[test]
fn background_tile_colors_reach_the_sink() {
    let mut chr = vec![0u8; 8 * 1024];
    // Tile 0: left half of every row uses colour 1, right half colour 0.
    for row in 0..8 {
        chr[row] = 0xF0;
    }
    let mut c = NRom::new(vec![0; 16 * 1024], chr, 0, MirrorMode::HorizontalMirroring);
    let mut ppu = Ppu::new();
    ppu.write(&mut c, 0x2006, 0x3F);
    ppu.write(&mut c, 0x2006, 0x00);
    ppu.write(&mut c, 0x2007, 0x0F);
    ppu.write(&mut c, 0x2007, 0x30);
    let mut out = Recorder { pixels: Vec::new() };
    for _ in 0..(341 + 20) {
        ppu.tick(&c, &mut out);
    }
    // Tiles are drawn at dots 9 and 17 of scanline 0.
    assert_eq!(16, out.pixels.len());
    assert_eq!((8, 0, 0xfe, 0xff, 0xff), out.pixels[8]);
    assert_eq!((15, 0, 0x00, 0x00, 0x00), out.pixels[15]);
    assert_eq!((0, 0, 0xfe, 0xff, 0xff), out.pixels[0]);
    assert_eq!((3, 0, 0xfe, 0xff, 0xff), out.pixels[3]);
    assert_eq!((4, 0, 0x00, 0x00, 0x00), out.pixels[4]);
    assert_eq!((7, 0, 0x00, 0x00, 0x00), out.pixels[7]);
}

#[test]
fn ppu_bus_palette_alias_direct() {
    let mut ppu = Ppu::new();
    let mut c = cart();
    for k in [0u16, 4, 8, 12] {
        ppu.write_ppu(&mut c, 0x3F10 + k, 0xC0 | k as u8 | 1);
        assert_eq!((k as u8) | 1, ppu.read_ppu(&c, 0x3F00 + k));
        ppu.write_ppu(&mut c, 0x3F00 + k, 0x7F);
        assert_eq!(0x3F, ppu.read_ppu(&c, 0x3F10 + k));
    }
}

#[test]
fn dot_pixels_cover_each_visible_row_once() {
    let mut ppu = Ppu::new();
    let c = cart();
    let mut out = Counter { pixels: 0 };
    for _ in 0..341 {
        ppu.tick(&c, &mut out);
    }
    let mut columns = vec![0usize; 256];
    for dot in 0..341 {
        let pixels = ppu.dot_pixels();
        assert!(pixels.len() == 0 || pixels.len() == 8);
        if dot == 9 {
            assert_eq!(0, pixels[0].0);
        }
        if dot == 257 {
            assert_eq!(248, pixels[0].0);
        }
        for p in &pixels {
            assert_eq!(0, p.1);
            columns[p.0] += 1;
        }
        ppu.tick(&c, &mut out);
    }
    assert!(columns.iter().all(|&n| n == 1));
    assert_eq!(256, out.pixels);
}
