use vstd::prelude::*;
use crate::cartridge::Cartridge;

verus! {

/// Receives the pixels the PPU produces, in the order of `Ppu::dot_pixels`.
pub trait PpuOutput {
    fn set_pixel(&mut self, x: usize, y: usize, r: u8, g: u8, b: u8)
        requires
            x < 256,
            y < 240,
    ;
}

/// A pixel as handed to the sink: (x, y, red, green, blue).
pub type Pixel = (usize, usize, u8, u8, u8);

pub open spec fn pixel_view(p: Pixel) -> (int, int, u8, u8, u8) {
    (p.0 as int, p.1 as int, p.2, p.3, p.4)
}

/// Every pixel lies on the visible 256x240 screen.
pub open spec fn on_screen(px: Seq<Pixel>) -> bool {
    forall|i: int| 0 <= i < px.len() ==> #[trigger] px[i].0 < 256 && px[i].1 < 240
}

/// Hands `pixels` to the sink, in order.
fn emit<O: PpuOutput>(pixels: &Vec<Pixel>, output: &mut O)
    requires
        on_screen(pixels@),
{
    let mut i: usize = 0;
    while i < pixels.len()
        invariant
            on_screen(pixels@),
            i <= pixels@.len(),
        decreases pixels@.len() - i,
    {
        let (x, y, r, g, b) = pixels[i];
        output.set_pixel(x, y, r, g, b);
        i = i + 1;
    }
}

/// PPUCTRL (`$2000`), bits 7 down to 2.
#[derive(Clone, Copy, Debug, PartialEq, Eq, Structural)]
pub struct Control {
    pub nmi_enable: bool,
    pub ppu_master: bool,
    pub sprite_height: bool,
    pub background_tile_select: bool,
    pub sprite_tile_select: bool,
    pub increment_mode: bool,
}

/// PPUMASK (`$2001`), bits 7 down to 0.
#[derive(Clone, Copy, Debug, PartialEq, Eq, Structural)]
pub struct Mask {
    pub color_emph_b: bool,
    pub color_emph_g: bool,
    pub color_emph_r: bool,
    pub sprite_enable: bool,
    pub background_enable: bool,
    pub sprite_left_column_enable: bool,
    pub background_left_column_enable: bool,
    pub greyscale: bool,
}

pub open spec fn control_of(value: u8) -> Control {
    Control {
        nmi_enable: value & 0x80 != 0,
        ppu_master: value & 0x40 != 0,
        sprite_height: value & 0x20 != 0,
        background_tile_select: value & 0x10 != 0,
        sprite_tile_select: value & 0x08 != 0,
        increment_mode: value & 0x04 != 0,
    }
}

pub open spec fn mask_of(value: u8) -> Mask {
    Mask {
        color_emph_b: value & 0x80 != 0,
        color_emph_g: value & 0x40 != 0,
        color_emph_r: value & 0x20 != 0,
        sprite_enable: value & 0x10 != 0,
        background_enable: value & 0x08 != 0,
        sprite_left_column_enable: value & 0x04 != 0,
        background_left_column_enable: value & 0x02 != 0,
        greyscale: value & 0x01 != 0,
    }
}

impl Control {
    pub fn from_byte(value: u8) -> (r: Control)
        ensures
            r == control_of(value),
    {
        Control {
            nmi_enable: value & 0x80 != 0,
            ppu_master: value & 0x40 != 0,
            sprite_height: value & 0x20 != 0,
            background_tile_select: value & 0x10 != 0,
            sprite_tile_select: value & 0x08 != 0,
            increment_mode: value & 0x04 != 0,
        }
    }
}

impl Mask {
    pub fn from_byte(value: u8) -> (r: Mask)
        ensures
            r == mask_of(value),
    {
        Mask {
            color_emph_b: value & 0x80 != 0,
            color_emph_g: value & 0x40 != 0,
            color_emph_r: value & 0x20 != 0,
            sprite_enable: value & 0x10 != 0,
            background_enable: value & 0x08 != 0,
            sprite_left_column_enable: value & 0x04 != 0,
            background_left_column_enable: value & 0x02 != 0,
            greyscale: value & 0x01 != 0,
        }
    }
}

/// The palette cell a PPU address in `$3F00-$3FFF` selects: the table has 32 bytes,
/// repeated over the page, and `$3F10/$3F14/$3F18/$3F1C` share the cells of
/// `$3F00/$3F04/$3F08/$3F0C`.
pub open spec fn palette_index(addr: u16) -> int {
    let i = addr as int % 32;
    if i >= 16 && i % 4 == 0 { i - 16 } else { i }
}

/// Palette cell of a PPU address in `$3F00-$3FFF`.
pub fn palette_offset(addr: u16) -> (r: usize)
    ensures
        r == palette_index(addr),
        r < 32,
{
    let i = (addr % 32) as usize;
    if i >= 16 && i % 4 == 0 { i - 16 } else { i }
}

/// Everything the PPU holds.
pub ghost struct PpuView {
    pub control: Control,
    pub mask: Mask,
    pub vblank: bool,
    pub sprite_0_hit: bool,
    pub sprite_overflow: bool,
    pub status_artifact: u8,
    pub oamaddr: u8,
    pub v: u16,
    pub t: u16,
    pub fine_x: u8,
    pub w: bool,
    pub oam: Seq<u8>,
    pub palette: Seq<u8>,
    pub nmi_pending: bool,
    pub scanline: usize,
    pub cycle: usize,
    pub nametable_byte: u8,
    pub attribute_byte: u8,
    pub tile_low: u8,
    pub tile_high: u8,
}

impl PpuView {
    pub open spec fn wf(self) -> bool {
        &&& self.oam.len() == 256
        &&& self.palette.len() == 32
        &&& forall|i: int| 0 <= i < 32 ==> #[trigger] self.palette[i] < 64
        &&& self.scanline <= 261
        &&& self.cycle <= 340
    }

    /// Step of `v` after a PPUDATA access.
    pub open spec fn increment(self) -> int {
        if self.control.increment_mode { 32 } else { 1 }
    }

    pub open spec fn next_v(self) -> u16 {
        ((self.v as int + self.increment()) % 0x4000) as u16
    }

    /// A read of the PPU's own 14-bit bus.
    pub open spec fn bus_read<C: Cartridge>(self, cart: C::V, addr: u16) -> u8 {
        let a = (addr as int % 0x4000) as u16;
        if a <= 0x3EFF { C::ppu_read_spec(cart, a) } else { self.palette[palette_index(a)] }
    }

    /// A write to the PPU's own 14-bit bus; palette cells keep six bits.
    pub open spec fn bus_write<C: Cartridge>(self, cart: C::V, addr: u16, value: u8) -> (PpuView, C::V) {
        let a = (addr as int % 0x4000) as u16;
        if a <= 0x3EFF {
            (self, C::ppu_write_spec(cart, a, value))
        } else {
            (PpuView { palette: self.palette.update(palette_index(a), value & 0x3F), ..self }, cart)
        }
    }

    /// PPUSTATUS as read: flags in bits 7-5, the open-bus byte below.
    pub open spec fn status_byte(self) -> u8 {
        (self.status_artifact & 0x1F) | (if self.sprite_overflow { 0x20u8 } else { 0 }) | (if self.sprite_0_hit {
            0x40u8
        } else {
            0
        }) | (if self.vblank { 0x80u8 } else { 0 })
    }

    /// A CPU read of the register at `addr` (mirrored every 8 bytes): the PPU after it,
    /// and the value returned.
    pub open spec fn read_register<C: Cartridge>(self, cart: C::V, addr: u16) -> (PpuView, u8) {
        let reg = addr % 8;
        let (p, r) = if reg == 2 {
            (PpuView { w: false, ..self }, self.status_byte())
        } else if reg == 4 {
            (self, self.oam[self.oamaddr as int])
        } else if reg == 7 {
            (PpuView { v: self.next_v(), ..self }, self.bus_read::<C>(cart, self.v))
        } else {
            (self, self.status_artifact)
        };
        (PpuView { status_artifact: r, ..p }, r)
    }

    /// PPUSCROLL: the first write sets coarse X and fine X, the second coarse Y and fine Y.
    pub open spec fn scroll_written(self, value: u8) -> PpuView {
        if self.w {
            PpuView {
                t: (self.t & !0x73E0u16) | (((value >> 3u8) as u16) << 5u16) | (((value & 7) as u16) << 12u16),
                w: false,
                ..self
            }
        } else {
            PpuView { t: (self.t & !0x1Fu16) | ((value >> 3u8) as u16), fine_x: value & 7, w: true, ..self }
        }
    }

    /// PPUADDR: the first write sets the high six bits of `t`, the second its low byte
    /// and copies `t` into `v`.
    pub open spec fn address_written(self, value: u8) -> PpuView {
        if self.w {
            let t = (self.t & !0xFFu16) | (value as u16);
            PpuView { t: t, v: t, w: false, ..self }
        } else {
            PpuView { t: (self.t & !0xFF00u16) | (((value & 0x3F) as u16) << 8u16), w: true, ..self }
        }
    }

    /// The effect of a write to register `reg` (0 to 7), before the open-bus byte is set.
    pub open spec fn register_written<C: Cartridge>(self, cart: C::V, reg: u16, value: u8) -> (PpuView, C::V) {
        if reg == 0 {
            (PpuView {
                control: control_of(value),
                t: (self.t & !0x0C00u16) | (((value & 3) as u16) << 10u16),
                ..self
            }, cart)
        } else if reg == 1 {
            (PpuView { mask: mask_of(value), ..self }, cart)
        } else if reg == 3 {
            (PpuView { oamaddr: value, ..self }, cart)
        } else if reg == 4 {
            (PpuView {
                oam: self.oam.update(self.oamaddr as int, value),
                oamaddr: ((self.oamaddr as int + 1) % 256) as u8,
                ..self
            }, cart)
        } else if reg == 5 {
            (self.scroll_written(value), cart)
        } else if reg == 6 {
            (self.address_written(value), cart)
        } else if reg == 7 {
            let (p, c) = self.bus_write::<C>(cart, self.v, value);
            (PpuView { v: self.next_v(), ..p }, c)
        } else {
            (self, cart)
        }
    }

    /// A CPU write of `value` to the register at `addr` (mirrored every 8 bytes).
    pub open spec fn write_register<C: Cartridge>(self, cart: C::V, addr: u16, value: u8) -> (PpuView, C::V) {
        let (p, c) = self.register_written::<C>(cart, addr % 8, value);
        (PpuView { status_artifact: value, ..p }, c)
    }

    /// Base of the pattern table the background uses.
    pub open spec fn pattern_base(self) -> int {
        if self.control.background_tile_select { 0x1000 } else { 0 }
    }

    /// Moves to the next dot: 341 dots per scanline, 262 scanlines per frame.
    pub open spec fn advanced(self) -> PpuView {
        if self.cycle == 340 {
            PpuView {
                cycle: 0,
                scanline: if self.scanline == 261 { 0 } else { (self.scanline + 1) as usize },
                ..self
            }
        } else {
            PpuView { cycle: (self.cycle + 1) as usize, ..self }
        }
    }

    /// The background fetch of the current dot, on visible scanlines at dots 1-256:
    /// nametable byte, attribute byte, low and high pattern bytes, one every two dots
    /// of each 8-dot tile.
    pub open spec fn tile_fetched<C: Cartridge>(self, cart: C::V) -> PpuView {
        if self.scanline <= 239 && 1 <= self.cycle <= 256 {
            let tile_x = (self.cycle - 1) / 8;
            let tile_y = self.scanline / 8;
            let pattern = self.pattern_base() + self.nametable_byte * 16 + self.scanline % 8;
            let step = self.cycle % 8;
            if step == 2 {
                PpuView {
                    nametable_byte: self.bus_read::<C>(cart, (0x2000 + tile_y * 32 + tile_x) as u16),
                    ..self
                }
            } else if step == 4 {
                PpuView {
                    attribute_byte: self.bus_read::<C>(cart, (0x23C0 + (tile_y / 4) * 8 + tile_x / 4) as u16),
                    ..self
                }
            } else if step == 6 {
                PpuView { tile_low: self.bus_read::<C>(cart, pattern as u16), ..self }
            } else if step == 0 {
                PpuView { tile_high: self.bus_read::<C>(cart, (pattern + 8) as u16), ..self }
            } else {
                self
            }
        } else {
            self
        }
    }

    /// Vertical blank starts at scanline 241, dot 1 (raising NMI when enabled) and the
    /// status flags clear at scanline 261, dot 1.
    pub open spec fn flags_updated(self) -> PpuView {
        if self.scanline == 241 && self.cycle == 1 {
            PpuView { vblank: true, nmi_pending: self.nmi_pending || self.control.nmi_enable, ..self }
        } else if self.scanline == 261 && self.cycle == 1 {
            PpuView { vblank: false, sprite_0_hit: false, sprite_overflow: false, ..self }
        } else {
            self
        }
    }

    /// One PPU dot.
    pub open spec fn ticked<C: Cartridge>(self, cart: C::V) -> PpuView {
        self.tile_fetched::<C>(cart).flags_updated().advanced()
    }

    /// Which two bits of the attribute byte colour the pixel at (`x`, `y`): each
    /// attribute byte covers 32x32 pixels in four 16x16 quadrants.
    pub open spec fn attribute_shift(x: int, y: int) -> u8 {
        if x % 32 < 16 {
            if y % 32 < 16 { 0 } else { 4 }
        } else {
            if y % 32 < 16 { 2 } else { 6 }
        }
    }

    /// The palette index of pixel `i` (0 to 7, left to right) of the latched tile drawn
    /// at (`x`, `y`): attribute bits above the high and low pattern bits.
    pub open spec fn color_index(self, x: int, y: int, i: u8) -> u8 {
        let attribute = (self.attribute_byte >> Self::attribute_shift(x, y)) & 3;
        let hi = (self.tile_high >> (7 - i) as u8) & 1;
        let lo = (self.tile_low >> (7 - i) as u8) & 1;
        (attribute << 2u8) | (hi << 1u8) | lo
    }

    /// The palette entry of that pixel; colour 0 of every palette is the universal
    /// background colour.
    pub open spec fn background_color(self, x: int, y: int, i: u8) -> u8 {
        let index = self.color_index(x, y, i);
        if index & 3 == 0 { self.palette[0] } else { self.palette[index as int] }
    }
}

/// Pixel `i` (0 to 7) of the latched tile drawn at (`x`, `y`): its position and the
/// RGB colour of its palette entry.
pub open spec fn tile_pixel(p: PpuView, x: int, y: int, i: int) -> (int, int, u8, u8, u8) {
    let (r, g, b) = color_rgb(p.background_color(x, y, i as u8));
    (x + i, y, r, g, b)
}

/// The eight pixels of the latched tile drawn at (`x`, `y`), left to right.
pub open spec fn tile_pixels(p: PpuView, x: int, y: int) -> Seq<(int, int, u8, u8, u8)> {
    Seq::new(8, |i: int| tile_pixel(p, x, y, i))
}

/// The x coordinate of the tile a visible scanline's dot draws, if it draws one:
/// dot `8t + 9` draws tile `t` (0 to 30) once its four fetches are done, and dot 257
/// draws tile 31.
pub open spec fn draw_origin(cycle: int) -> Option<int> {
    if 9 <= cycle <= 256 && cycle % 8 == 1 {
        Some((cycle - 9) / 8 * 8)
    } else if cycle == 257 {
        Some(248)
    } else {
        None
    }
}

/// The dot of a visible scanline that draws the pixel in column `x`.
pub open spec fn draw_dot(x: int) -> int {
    if x / 8 < 31 { x / 8 * 8 + 9 } else { 257 }
}

/// The pixels the PPU emits at its current dot, from the latches as they are
/// before the dot's fetch.
pub open spec fn drawn(p: PpuView) -> Seq<(int, int, u8, u8, u8)> {
    if p.scanline <= 239 {
        match draw_origin(p.cycle as int) {
            Some(x) => tile_pixels(p, x, p.scanline as int),
            None => Seq::empty(),
        }
    } else {
        Seq::empty()
    }
}

/// Every pixel of a visible scanline is drawn: column `x` of scanline `y` is pixel
/// `x % 8` of what dot `draw_dot(x)` emits.
pub proof fn lemma_scanline_covers(p: PpuView, x: int)
    requires
        p.scanline <= 239,
        0 <= x < 256,
    ensures
        ({
            let q = PpuView { cycle: draw_dot(x) as usize, ..p };
            &&& drawn(q).len() == 8
            &&& drawn(q)[x % 8].0 == x
            &&& drawn(q)[x % 8].1 == p.scanline
        }),
{
}

/// The picture processing unit: its registers, OAM, palette, and the dot-by-dot
/// rendering state.
pub struct Ppu {
    control: Control,
    mask: Mask,
    vblank: bool,
    sprite_0_hit: bool,
    sprite_overflow: bool,
    status_artifact: u8,
    oamaddr: u8,
    current_vram_address: u16,
    temp_vram_address: u16,
    fine_x_scroll: u8,
    write_toggle: bool,
    oam: Vec<u8>,
    palette: Vec<u8>,
    nmi_pending: bool,
    current_scanline: usize,
    current_cycle: usize,
    current_nametable_byte: u8,
    current_attributetable_byte: u8,
    current_tilebitmap_low: u8,
    current_tilebitmap_high: u8,
}

impl View for Ppu {
    type V = PpuView;

    closed spec fn view(&self) -> PpuView {
        PpuView {
            control: self.control,
            mask: self.mask,
            vblank: self.vblank,
            sprite_0_hit: self.sprite_0_hit,
            sprite_overflow: self.sprite_overflow,
            status_artifact: self.status_artifact,
            oamaddr: self.oamaddr,
            v: self.current_vram_address,
            t: self.temp_vram_address,
            fine_x: self.fine_x_scroll,
            w: self.write_toggle,
            oam: self.oam@,
            palette: self.palette@,
            nmi_pending: self.nmi_pending,
            scanline: self.current_scanline,
            cycle: self.current_cycle,
            nametable_byte: self.current_nametable_byte,
            attribute_byte: self.current_attributetable_byte,
            tile_low: self.current_tilebitmap_low,
            tile_high: self.current_tilebitmap_high,
        }
    }
}

impl Ppu {
    pub open spec fn wf(&self) -> bool {
        self@.wf()
    }

    pub fn new() -> (r: Ppu)
        ensures
            r.wf(),
            r@.control == control_of(0),
            r@.mask == mask_of(0),
            !r@.vblank,
            !r@.sprite_0_hit,
            !r@.sprite_overflow,
            !r@.w,
            !r@.nmi_pending,
            r@.status_artifact == 0,
            r@.oamaddr == 0,
            r@.v == 0,
            r@.t == 0,
            r@.fine_x == 0,
            r@.oam == Seq::new(256, |i: int| 0u8),
            r@.palette == Seq::new(32, |i: int| 0u8),
            r@.scanline == 261,
            r@.cycle == 0,
            r@.nametable_byte == 0,
            r@.attribute_byte == 0,
            r@.tile_low == 0,
            r@.tile_high == 0,
    {
        let r = Ppu {
            control: Control::from_byte(0),
            mask: Mask::from_byte(0),
            vblank: false,
            sprite_0_hit: false,
            sprite_overflow: false,
            status_artifact: 0,
            oamaddr: 0,
            current_vram_address: 0,
            temp_vram_address: 0,
            fine_x_scroll: 0,
            write_toggle: false,
            oam: vec![0u8; 256],
            palette: vec![0u8; 32],
            nmi_pending: false,
            current_scanline: 261,
            current_cycle: 0,
            current_nametable_byte: 0,
            current_attributetable_byte: 0,
            current_tilebitmap_low: 0,
            current_tilebitmap_high: 0,
        };
        assert(r@.oam =~= Seq::new(256, |i: int| 0u8));
        assert(r@.palette =~= Seq::new(32, |i: int| 0u8));
        r
    }

    fn advance_vram_address(&mut self)
        requires
            old(self).wf(),
        ensures
            final(self)@ == (PpuView { v: old(self)@.next_v(), ..old(self)@ }),
    {
        let step: u16 = if self.control.increment_mode { 32 } else { 1 };
        let v = self.current_vram_address;
        assert(v & 0x3FFF == v % 0x4000) by (bit_vector);
        let sum: u16 = (v & 0x3FFF) + step;
        assert(sum & 0x3FFF == sum % 0x4000) by (bit_vector);
        self.current_vram_address = sum & 0x3FFF;
    }

    /// A CPU read of a PPU register.
    pub fn read<C: Cartridge>(&mut self, cartridge: &C, addr: u16) -> (r: u8)
        requires
            old(self).wf(),
            cartridge.inv(),
            0x2000 <= addr < 0x4000,
        ensures
            final(self).wf(),
            (final(self)@, r) == old(self)@.read_register::<C>(cartridge@, addr),
    {
        let reg = addr % 8;
        let result = if reg == 2 {
            self.write_toggle = false;
            let s = (self.status_artifact & 0x1F) | (if self.sprite_overflow { 0x20u8 } else { 0 }) | (if self.sprite_0_hit {
                0x40u8
            } else {
                0
            }) | (if self.vblank { 0x80u8 } else { 0 });
            s
        } else if reg == 4 {
            self.oam[self.oamaddr as usize]
        } else if reg == 7 {
            let value = self.read_ppu(cartridge, self.current_vram_address);
            self.advance_vram_address();
            value
        } else {
            self.status_artifact
        };
        self.status_artifact = result;
        result
    }

    /// A CPU write to a PPU register.
    pub fn write<C: Cartridge>(&mut self, cartridge: &mut C, addr: u16, value: u8)
        requires
            old(self).wf(),
            old(cartridge).inv(),
            0x2000 <= addr < 0x4000,
        ensures
            final(self).wf(),
            final(cartridge).inv(),
            (final(self)@, final(cartridge)@) == old(self)@.write_register::<C>(old(cartridge)@, addr, value),
    {
        let reg = addr % 8;
        self.write_register(cartridge, reg, value);
        self.status_artifact = value;
    }

    /// The effect of a write to register `reg`, before the open-bus byte is set.
    fn write_register<C: Cartridge>(&mut self, cartridge: &mut C, reg: u16, value: u8)
        requires
            old(self).wf(),
            old(cartridge).inv(),
        ensures
            final(self).wf(),
            final(cartridge).inv(),
            (final(self)@, final(cartridge)@) == old(self)@.register_written::<C>(old(cartridge)@, reg, value),
    {
        if reg == 0 {
            self.control = Control::from_byte(value);
            self.temp_vram_address = (self.temp_vram_address & !0x0C00u16) | (((value & 3) as u16) << 10u16);
        } else if reg == 1 {
            self.mask = Mask::from_byte(value);
        } else if reg == 3 {
            self.oamaddr = value;
        } else if reg == 4 {
            self.oam.set(self.oamaddr as usize, value);
            self.oamaddr = self.oamaddr.wrapping_add(1);
        } else if reg == 5 {
            self.write_scroll(value);
        } else if reg == 6 {
            self.write_address(value);
        } else if reg == 7 {
            let write_addr = self.current_vram_address;
            self.write_ppu(cartridge, write_addr, value);
            self.advance_vram_address();
        }
    }

    fn write_scroll(&mut self, value: u8)
        requires
            old(self).wf(),
        ensures
            final(self)@ == old(self)@.scroll_written(value),
    {
        if self.write_toggle {
            self.temp_vram_address = (self.temp_vram_address & !0x73E0u16) | (((value >> 3u8) as u16) << 5u16)
                | (((value & 7) as u16) << 12u16);
            self.write_toggle = false;
        } else {
            self.temp_vram_address = (self.temp_vram_address & !0x1Fu16) | ((value >> 3u8) as u16);
            self.fine_x_scroll = value & 7;
            self.write_toggle = true;
        }
    }

    fn write_address(&mut self, value: u8)
        requires
            old(self).wf(),
        ensures
            final(self)@ == old(self)@.address_written(value),
    {
        if self.write_toggle {
            self.temp_vram_address = (self.temp_vram_address & !0xFFu16) | (value as u16);
            self.current_vram_address = self.temp_vram_address;
            self.write_toggle = false;
        } else {
            self.temp_vram_address = (self.temp_vram_address & !0xFF00u16) | (((value & 0x3F) as u16) << 8u16);
            self.write_toggle = true;
        }
    }

    /// A read of the PPU's own bus: the cartridge below `$3F00`, the palette above.
    pub fn read_ppu<C: Cartridge>(&self, cartridge: &C, addr: u16) -> (r: u8)
        requires
            self.wf(),
            cartridge.inv(),
        ensures
            r == self@.bus_read::<C>(cartridge@, addr),
    {
        let a = addr % 0x4000;
        if a <= 0x3EFF {
            cartridge.read_ppu(a)
        } else {
            self.palette[palette_offset(a)]
        }
    }

    /// A write to the PPU's own bus: the cartridge below `$3F00`, the palette above.
    pub fn write_ppu<C: Cartridge>(&mut self, cartridge: &mut C, addr: u16, value: u8)
        requires
            old(self).wf(),
            old(cartridge).inv(),
        ensures
            final(self).wf(),
            final(cartridge).inv(),
            (final(self)@, final(cartridge)@) == old(self)@.bus_write::<C>(old(cartridge)@, addr, value),
    {
        let a = addr % 0x4000;
        if a <= 0x3EFF {
            cartridge.write_ppu(a, value);
        } else {
            let i = palette_offset(a);
            let masked = value & 0x3F;
            assert(value & 0x3F < 64) by (bit_vector);
            self.palette.set(i, masked);
        }
    }

    /// Reports a pending NMI (raised at the start of vertical blank while NMI is
    /// enabled) and clears it.
    pub fn take_nmi(&mut self) -> (r: bool)
        ensures
            r == old(self)@.nmi_pending,
            final(self)@ == (PpuView { nmi_pending: false, ..old(self)@ }),
    {
        let r = self.nmi_pending;
        self.nmi_pending = false;
        r
    }

    /// One PPU dot. On visible scanlines the sink receives `dot_pixels()` of the
    /// PPU as it was before the dot.
    pub fn tick<C: Cartridge, O: PpuOutput>(&mut self, cartridge: &C, output: &mut O)
        requires
            old(self).wf(),
            cartridge.inv(),
        ensures
            final(self).wf(),
            final(self)@ == old(self)@.ticked::<C>(cartridge@),
    {
        if self.current_scanline == 261 {
            self.tick_prerender_scanline();
        } else if self.current_scanline <= 239 {
            self.tick_visible_scanline(cartridge, output);
        } else if self.current_scanline == 240 {
            self.tick_postrender_scanline();
        } else {
            self.tick_vblank_scanline();
        }
    }

    fn advance_dot(&mut self)
        requires
            old(self).wf(),
        ensures
            final(self).wf(),
            final(self)@ == old(self)@.advanced(),
    {
        if self.current_cycle == 340 {
            self.current_cycle = 0;
            if self.current_scanline == 261 {
                self.current_scanline = 0;
            } else {
                self.current_scanline = self.current_scanline + 1;
            }
        } else {
            self.current_cycle = self.current_cycle + 1;
        }
    }

    fn tick_prerender_scanline(&mut self)
        requires
            old(self).wf(),
            old(self)@.scanline == 261,
        ensures
            final(self).wf(),
            final(self)@ == old(self)@.flags_updated().advanced(),
    {
        if self.current_cycle == 1 {
            self.vblank = false;
            self.sprite_0_hit = false;
            self.sprite_overflow = false;
        }
        self.advance_dot();
    }

    fn tick_postrender_scanline(&mut self)
        requires
            old(self).wf(),
            old(self)@.scanline == 240,
        ensures
            final(self).wf(),
            final(self)@ == old(self)@.advanced(),
    {
        self.advance_dot();
    }

    fn tick_vblank_scanline(&mut self)
        requires
            old(self).wf(),
            241 <= old(self)@.scanline <= 260,
        ensures
            final(self).wf(),
            final(self)@ == old(self)@.flags_updated().advanced(),
    {
        if self.current_scanline == 241 && self.current_cycle == 1 {
            self.vblank = true;
            self.nmi_pending = self.nmi_pending || self.control.nmi_enable;
        }
        self.advance_dot();
    }

    fn tick_visible_scanline<C: Cartridge, O: PpuOutput>(&mut self, cartridge: &C, output: &mut O)
        requires
            old(self).wf(),
            cartridge.inv(),
            old(self)@.scanline <= 239,
        ensures
            final(self).wf(),
            final(self)@ == old(self)@.tile_fetched::<C>(cartridge@).advanced(),
    {
        let pixels = self.dot_pixels();
        emit(&pixels, output);
        let cycle = self.current_cycle;
        let y = self.current_scanline;
        if 1 <= cycle && cycle <= 256 {
            let tile_x = (cycle - 1) / 8;
            let tile_y = y / 8;
            let step = cycle % 8;
            if step == 2 {
                self.current_nametable_byte = self.read_ppu(cartridge, (0x2000 + tile_y * 32 + tile_x) as u16);
            } else if step == 4 {
                self.current_attributetable_byte = self.read_ppu(
                    cartridge,
                    (0x23C0 + (tile_y / 4) * 8 + tile_x / 4) as u16,
                );
            } else if step == 6 {
                let pattern = self.pattern_address(y);
                self.current_tilebitmap_low = self.read_ppu(cartridge, pattern);
            } else if step == 0 {
                let pattern = self.pattern_address(y);
                self.current_tilebitmap_high = self.read_ppu(cartridge, pattern + 8);
            }
        }
        self.advance_dot();
    }

    /// Address of the low pattern byte of the latched tile's row for scanline `y`.
    fn pattern_address(&self, y: usize) -> (r: u16)
        requires
            y <= 239,
        ensures
            r == self@.pattern_base() + self@.nametable_byte * 16 + y % 8,
            r + 8 < 0x2000,
    {
        let base: u16 = if self.control.background_tile_select { 0x1000 } else { 0 };
        base + (self.current_nametable_byte as u16) * 16 + (y % 8) as u16
    }

    /// The eight pixels of the latched tile at (`x`, `y`), left to right.
    pub fn tile_pixels(&self, x: usize, y: usize) -> (r: Vec<Pixel>)
        requires
            self.wf(),
            x + 8 <= 256,
            y < 240,
        ensures
            r@.map_values(|p: Pixel| pixel_view(p)) == tile_pixels(self@, x as int, y as int),
            on_screen(r@),
    {
        let mut r: Vec<Pixel> = Vec::new();
        let mut i: u8 = 0;
        while i < 8
            invariant
                self.wf(),
                x + 8 <= 256,
                y < 240,
                i <= 8,
                r@.len() == i,
                on_screen(r@),
                r@.map_values(|p: Pixel| pixel_view(p)) == tile_pixels(self@, x as int, y as int).take(i as int),
            decreases 8 - i,
        {
            let color = self.background_color(x, y, i);
            let (red, green, blue) = rgb(color);
            r.push((x + i as usize, y, red, green, blue));
            assert(r@.map_values(|p: Pixel| pixel_view(p)) =~= tile_pixels(self@, x as int, y as int).take(
                i + 1,
            ));
            i = i + 1;
        }
        assert(tile_pixels(self@, x as int, y as int).take(8) =~= tile_pixels(self@, x as int, y as int));
        r
    }

    /// The pixels the current dot emits, from the latches as they are before the
    /// dot's fetch: the previous tile at the first dot of tiles 1-31, tile 31 at dot
    /// 257, nothing elsewhere.
    pub fn dot_pixels(&self) -> (r: Vec<Pixel>)
        requires
            self.wf(),
        ensures
            r@.map_values(|p: Pixel| pixel_view(p)) == drawn(self@),
            on_screen(r@),
    {
        let cycle = self.current_cycle;
        let y = self.current_scanline;
        if y <= 239 && 9 <= cycle && cycle <= 256 && cycle % 8 == 1 {
            self.tile_pixels((cycle - 9) / 8 * 8, y)
        } else if y <= 239 && cycle == 257 {
            self.tile_pixels(248, y)
        } else {
            let r: Vec<Pixel> = Vec::new();
            assert(r@.map_values(|p: Pixel| pixel_view(p)) =~= drawn(self@));
            r
        }
    }

    /// The palette entry of pixel `i` of the latched tile at (`x`, `y`).
    fn background_color(&self, x: usize, y: usize, i: u8) -> (r: u8)
        requires
            self.wf(),
            i < 8,
        ensures
            r == self@.background_color(x as int, y as int, i),
            r < 64,
    {
        let shift: u8 = if x % 32 < 16 {
            if y % 32 < 16 { 0 } else { 4 }
        } else {
            if y % 32 < 16 { 2 } else { 6 }
        };
        let attribute = (self.current_attributetable_byte >> shift) & 3;
        let hi = (self.current_tilebitmap_high >> (7 - i)) & 1;
        let lo = (self.current_tilebitmap_low >> (7 - i)) & 1;
        let index = (attribute << 2u8) | (hi << 1u8) | lo;
        let ab = self.current_attributetable_byte;
        let th = self.current_tilebitmap_high;
        let tl = self.current_tilebitmap_low;
        assert(index < 16) by (bit_vector)
            requires
                index == (attribute << 2u8) | (hi << 1u8) | lo,
                attribute == (ab >> shift) & 3,
                hi == (th >> (7 - i) as u8) & 1,
                lo == (tl >> (7 - i) as u8) & 1;
        if index & 3 == 0 {
            self.palette[0]
        } else {
            self.palette[index as usize]
        }
    }
}

/// The RGB values of the 64 palette entries, three bytes each.
pub open spec fn rgb_table() -> Seq<u8> {
    seq![
        0x52u8, 0x52u8, 0x52u8, 0x01u8, 0x1au8, 0x51u8, 0x0fu8, 0x0fu8, 0x65u8, 0x23u8, 0x06u8, 0x63u8,
        0x36u8, 0x03u8, 0x4bu8, 0x40u8, 0x04u8, 0x26u8, 0x3fu8, 0x09u8, 0x04u8, 0x32u8, 0x13u8, 0x00u8,
        0x1fu8, 0x20u8, 0x00u8, 0x0bu8, 0x2au8, 0x00u8, 0x00u8, 0x2fu8, 0x00u8, 0x00u8, 0x2eu8, 0x0au8,
        0x00u8, 0x26u8, 0x2du8, 0x00u8, 0x00u8, 0x00u8, 0x00u8, 0x00u8, 0x00u8, 0x00u8, 0x00u8, 0x00u8,
        0xa0u8, 0xa0u8, 0xa0u8, 0x1eu8, 0x4au8, 0x9du8, 0x38u8, 0x37u8, 0xbcu8, 0x58u8, 0x28u8, 0xb8u8,
        0x75u8, 0x21u8, 0x94u8, 0x84u8, 0x23u8, 0x5cu8, 0x82u8, 0x2eu8, 0x24u8, 0x6fu8, 0x3fu8, 0x00u8,
        0x51u8, 0x52u8, 0x00u8, 0x31u8, 0x63u8, 0x00u8, 0x1au8, 0x6bu8, 0x05u8, 0x0eu8, 0x69u8, 0x2eu8,
        0x10u8, 0x5cu8, 0x68u8, 0x00u8, 0x00u8, 0x00u8, 0x00u8, 0x00u8, 0x00u8, 0x00u8, 0x00u8, 0x00u8,
        0xfeu8, 0xffu8, 0xffu8, 0x69u8, 0x9eu8, 0xfcu8, 0x89u8, 0x87u8, 0xffu8, 0xaeu8, 0x76u8, 0xffu8,
        0xceu8, 0x6du8, 0xf1u8, 0xe0u8, 0x70u8, 0xb2u8, 0xdeu8, 0x7cu8, 0x70u8, 0xc8u8, 0x91u8, 0x3eu8,
        0xa6u8, 0xa7u8, 0x25u8, 0x81u8, 0xbau8, 0x28u8, 0x63u8, 0xc4u8, 0x46u8, 0x54u8, 0xc1u8, 0x7du8,
        0x56u8, 0xb3u8, 0xc0u8, 0x3cu8, 0x3cu8, 0x3cu8, 0x00u8, 0x00u8, 0x00u8, 0x00u8, 0x00u8, 0x00u8,
        0xfeu8, 0xffu8, 0xffu8, 0xbeu8, 0xd6u8, 0xfdu8, 0xccu8, 0xccu8, 0xffu8, 0xddu8, 0xc4u8, 0xffu8,
        0xeau8, 0xc0u8, 0xf9u8, 0xf2u8, 0xc1u8, 0xdfu8, 0xf1u8, 0xc7u8, 0xc2u8, 0xe8u8, 0xd0u8, 0xaau8,
        0xd9u8, 0xdau8, 0x9du8, 0xc9u8, 0xe2u8, 0x9eu8, 0xbcu8, 0xe6u8, 0xaeu8, 0xb4u8, 0xe5u8, 0xc7u8,
        0xb5u8, 0xdfu8, 0xe4u8, 0xa9u8, 0xa9u8, 0xa9u8, 0x00u8, 0x00u8, 0x00u8, 0x00u8, 0x00u8, 0x00u8,
    ]
}

/// The RGB colour of palette entry `c`.
pub open spec fn color_rgb(c: u8) -> (u8, u8, u8) {
    (rgb_table()[3 * c as int], rgb_table()[3 * c as int + 1], rgb_table()[3 * c as int + 2])
}

/// The RGB colour of a palette entry (0 to 63).
fn rgb(color: u8) -> (r: (u8, u8, u8))
    requires
        color < 64,
    ensures
        r == color_rgb(color),
{
    let table: [u8; 192] = [
        0x52, 0x52, 0x52, 0x01, 0x1a, 0x51, 0x0f, 0x0f, 0x65, 0x23, 0x06, 0x63, 0x36, 0x03, 0x4b, 0x40,
        0x04, 0x26, 0x3f, 0x09, 0x04, 0x32, 0x13, 0x00, 0x1f, 0x20, 0x00, 0x0b, 0x2a, 0x00, 0x00, 0x2f,
        0x00, 0x00, 0x2e, 0x0a, 0x00, 0x26, 0x2d, 0x00, 0x00, 0x00, 0x00, 0x00, 0x00, 0x00, 0x00, 0x00,
        0xa0, 0xa0, 0xa0, 0x1e, 0x4a, 0x9d, 0x38, 0x37, 0xbc, 0x58, 0x28, 0xb8, 0x75, 0x21, 0x94, 0x84,
        0x23, 0x5c, 0x82, 0x2e, 0x24, 0x6f, 0x3f, 0x00, 0x51, 0x52, 0x00, 0x31, 0x63, 0x00, 0x1a, 0x6b,
        0x05, 0x0e, 0x69, 0x2e, 0x10, 0x5c, 0x68, 0x00, 0x00, 0x00, 0x00, 0x00, 0x00, 0x00, 0x00, 0x00,
        0xfe, 0xff, 0xff, 0x69, 0x9e, 0xfc, 0x89, 0x87, 0xff, 0xae, 0x76, 0xff, 0xce, 0x6d, 0xf1, 0xe0,
        0x70, 0xb2, 0xde, 0x7c, 0x70, 0xc8, 0x91, 0x3e, 0xa6, 0xa7, 0x25, 0x81, 0xba, 0x28, 0x63, 0xc4,
        0x46, 0x54, 0xc1, 0x7d, 0x56, 0xb3, 0xc0, 0x3c, 0x3c, 0x3c, 0x00, 0x00, 0x00, 0x00, 0x00, 0x00,
        0xfe, 0xff, 0xff, 0xbe, 0xd6, 0xfd, 0xcc, 0xcc, 0xff, 0xdd, 0xc4, 0xff, 0xea, 0xc0, 0xf9, 0xf2,
        0xc1, 0xdf, 0xf1, 0xc7, 0xc2, 0xe8, 0xd0, 0xaa, 0xd9, 0xda, 0x9d, 0xc9, 0xe2, 0x9e, 0xbc, 0xe6,
        0xae, 0xb4, 0xe5, 0xc7, 0xb5, 0xdf, 0xe4, 0xa9, 0xa9, 0xa9, 0x00, 0x00, 0x00, 0x00, 0x00, 0x00,
    ];
    assert(table@ =~= rgb_table());
    let i = color as usize * 3;
    (table[i], table[i + 1], table[i + 2])
}

/// Palette aliasing: a write to `$3F10`, `$3F14`, `$3F18` or `$3F1C` is read back,
/// masked to six bits, at `$3F00`, `$3F04`, `$3F08` or `$3F0C`, and the other way round.
pub proof fn lemma_palette_alias<C: Cartridge>(p: PpuView, cart: C::V, k: u16, value: u8)
    requires
        p.wf(),
        k < 4,
    ensures
        ({
            let (p1, c1) = p.bus_write::<C>(cart, (0x3F10 + 4 * k) as u16, value);
            p1.bus_read::<C>(c1, (0x3F00 + 4 * k) as u16) == value & 0x3F
        }),
        ({
            let (p1, c1) = p.bus_write::<C>(cart, (0x3F00 + 4 * k) as u16, value);
            p1.bus_read::<C>(c1, (0x3F10 + 4 * k) as u16) == value & 0x3F
        }),
{
}

} // verus!
