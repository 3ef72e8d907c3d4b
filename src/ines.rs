use vstd::prelude::*;
use crate::cartridge::{Cartridge, MirrorMode};
use crate::mmc1::{Mmc1, Mmc1View, SHIFTER_RESET};
use crate::nrom::{NRom, NRomView};

verus! {

/// Why an image cannot be loaded.
#[derive(Clone, Copy, Debug, PartialEq, Eq, Structural)]
pub enum LoadError {
    /// The file does not start with `NES\x1A`.
    UnknownFormat,
    /// The file ends before the header or the ROM banks it announces.
    Truncated,
    /// The image carries a trainer.
    Trainer,
    /// The image is for the VS Unisystem.
    VsUnisystem,
    /// Bits 2-3 of byte 7 name another file format.
    FileFormat(u8),
    /// Byte 9 is neither 0 nor 1.
    InvalidByte9,
    /// One of bytes 11-15 is not zero.
    NonZeroPadding(u8),
    /// The mapper is neither 0 (NROM) nor 1 (MMC1).
    UnsupportedMapper(u8),
    /// The mapper does not come in the announced ROM or RAM sizes.
    UnsupportedSize,
}

/// The magic number, the size of the PRG-ROM and CHR-ROM in bytes, and the PRG-RAM
/// size in bytes (a zero byte meaning 8 KiB).
pub open spec fn has_magic(d: Seq<u8>) -> bool {
    d.len() >= 16 && d[0] == 0x4E && d[1] == 0x45 && d[2] == 0x53 && d[3] == 0x1A
}

pub open spec fn prg_size(d: Seq<u8>) -> int {
    d[4] as int * 0x4000
}

pub open spec fn chr_size(d: Seq<u8>) -> int {
    d[5] as int * 0x2000
}

pub open spec fn ram_size(d: Seq<u8>) -> int {
    if d[8] == 0 { 0x2000 } else { d[8] as int * 0x2000 }
}

pub open spec fn mapper_number(d: Seq<u8>) -> u8 {
    (d[6] >> 4u8) | (d[7] & 0xF0)
}

pub open spec fn mirror_of(flags6: u8) -> MirrorMode {
    if flags6 & 0x08 != 0 {
        MirrorMode::FourScreen
    } else if flags6 & 0x01 == 0 {
        MirrorMode::HorizontalMirroring
    } else {
        MirrorMode::VerticalMirroring
    }
}

/// The index of the first of bytes 11-15 that is not zero, if any.
pub open spec fn first_nonzero_padding(d: Seq<u8>) -> Option<u8> {
    if d[11] != 0 {
        Some(11u8)
    } else if d[12] != 0 {
        Some(12u8)
    } else if d[13] != 0 {
        Some(13u8)
    } else if d[14] != 0 {
        Some(14u8)
    } else if d[15] != 0 {
        Some(15u8)
    } else {
        None
    }
}

/// The first reason, in the order the header is read, why `d` is no loadable iNES
/// image; `None` when it is one.
pub open spec fn image_error(d: Seq<u8>) -> Option<LoadError> {
    if d.len() < 4 {
        Some(LoadError::Truncated)
    } else if !(d[0] == 0x4E && d[1] == 0x45 && d[2] == 0x53 && d[3] == 0x1A) {
        Some(LoadError::UnknownFormat)
    } else if d.len() < 16 {
        Some(LoadError::Truncated)
    } else if d[6] & 0x04 != 0 {
        Some(LoadError::Trainer)
    } else if d[7] & 0x01 != 0 {
        Some(LoadError::VsUnisystem)
    } else if (d[7] & 0x0C) >> 2u8 != 0 {
        Some(LoadError::FileFormat((d[7] & 0x0C) >> 2u8))
    } else if d[9] != 0 && d[9] != 1 {
        Some(LoadError::InvalidByte9)
    } else if first_nonzero_padding(d) is Some {
        Some(LoadError::NonZeroPadding(first_nonzero_padding(d).unwrap()))
    } else if d.len() < 16 + prg_size(d) + chr_size(d) {
        Some(LoadError::Truncated)
    } else {
        None
    }
}

/// A parsed iNES image.
pub struct Rom {
    pub prg_rom: Vec<u8>,
    pub chr_rom: Vec<u8>,
    pub ram_size: usize,
    pub mapper: u8,
    pub mirror_mode: MirrorMode,
    pub persistent: bool,
}

/// A copy of `len` bytes of `data` from `start`.
fn copy_range(data: &[u8], start: usize, len: usize) -> (r: Vec<u8>)
    requires
        start + len <= data@.len(),
    ensures
        r@ == data@.subrange(start as int, start + len),
{
    let mut r: Vec<u8> = Vec::new();
    let mut i: usize = 0;
    let n = data.len();
    while i < len
        invariant
            n == data@.len(),
            start + len <= data@.len(),
            i <= len,
            r@ == data@.subrange(start as int, start + i),
        decreases len - i,
    {
        r.push(data[start + i]);
        i = i + 1;
        assert(r@ =~= data@.subrange(start as int, start + i));
    }
    r
}

fn first_nonzero_padding_of(data: &[u8]) -> (r: Option<u8>)
    requires
        data@.len() >= 16,
    ensures
        r == first_nonzero_padding(data@),
{
    let mut i: usize = 11;
    while i < 16
        invariant
            data@.len() >= 16,
            11 <= i <= 16,
            forall|j: int| 11 <= j < i ==> data@[j] == 0,
        decreases 16 - i,
    {
        if data[i] != 0 {
            return Some(i as u8);
        }
        i = i + 1;
    }
    None
}

impl Rom {
    /// Parses an iNES image: the 16-byte header, then the PRG-ROM and CHR-ROM banks.
    pub fn load(data: &[u8]) -> (r: Result<Rom, LoadError>)
        ensures
            match r {
                Ok(rom) => {
                    &&& image_error(data@) is None
                    &&& rom.prg_rom@ == data@.subrange(16, 16 + prg_size(data@))
                    &&& rom.chr_rom@ == data@.subrange(16 + prg_size(data@), 16 + prg_size(data@) + chr_size(data@))
                    &&& rom.ram_size == ram_size(data@)
                    &&& rom.mapper == mapper_number(data@)
                    &&& rom.mirror_mode == mirror_of(data@[6])
                    &&& rom.persistent == (data@[6] & 0x02 != 0)
                },
                Err(e) => image_error(data@) == Some(e),
            },
    {
        if data.len() < 4 {
            return Err(LoadError::Truncated);
        }
        if !(data[0] == 0x4E && data[1] == 0x45 && data[2] == 0x53 && data[3] == 0x1A) {
            return Err(LoadError::UnknownFormat);
        }
        if data.len() < 16 {
            return Err(LoadError::Truncated);
        }
        let flags6 = data[6];
        let flags7 = data[7];
        if flags6 & 0x04 != 0 {
            return Err(LoadError::Trainer);
        }
        if flags7 & 0x01 != 0 {
            return Err(LoadError::VsUnisystem);
        }
        let file_format = (flags7 & 0x0C) >> 2u8;
        if file_format != 0 {
            return Err(LoadError::FileFormat(file_format));
        }
        if data[9] != 0 && data[9] != 1 {
            return Err(LoadError::InvalidByte9);
        }
        if let Some(i) = first_nonzero_padding_of(data) {
            return Err(LoadError::NonZeroPadding(i));
        }
        let prg = data[4] as usize * 0x4000;
        let chr = data[5] as usize * 0x2000;
        if data.len() - 16 < prg + chr {
            return Err(LoadError::Truncated);
        }
        let mirror_mode = if flags6 & 0x08 != 0 {
            MirrorMode::FourScreen
        } else if flags6 & 0x01 == 0 {
            MirrorMode::HorizontalMirroring
        } else {
            MirrorMode::VerticalMirroring
        };
        let ram_size = if data[8] == 0 { 0x2000 } else { data[8] as usize * 0x2000 };
        Ok(Rom {
            prg_rom: copy_range(data, 16, prg),
            chr_rom: copy_range(data, 16 + prg, chr),
            ram_size,
            mapper: (flags6 >> 4u8) | (flags7 & 0xF0),
            mirror_mode,
            persistent: flags6 & 0x02 != 0,
        })
    }
}

/// A cartridge of one of the supported mappers.
pub enum AnyCartridge {
    NRom(NRom),
    Mmc1(Mmc1),
}

pub ghost enum AnyCartridgeView {
    NRom(NRomView),
    Mmc1(Mmc1View),
}

impl View for AnyCartridge {
    type V = AnyCartridgeView;

    open spec fn view(&self) -> AnyCartridgeView {
        match self {
            AnyCartridge::NRom(c) => AnyCartridgeView::NRom(c@),
            AnyCartridge::Mmc1(c) => AnyCartridgeView::Mmc1(c@),
        }
    }
}

impl Cartridge for AnyCartridge {
    open spec fn inv(&self) -> bool {
        match self {
            AnyCartridge::NRom(c) => c.inv(),
            AnyCartridge::Mmc1(c) => c.inv(),
        }
    }

    open spec fn cpu_read_spec(v: AnyCartridgeView, addr: u16) -> u8 {
        match v {
            AnyCartridgeView::NRom(c) => NRom::cpu_read_spec(c, addr),
            AnyCartridgeView::Mmc1(c) => Mmc1::cpu_read_spec(c, addr),
        }
    }

    open spec fn cpu_write_spec(v: AnyCartridgeView, addr: u16, value: u8) -> AnyCartridgeView {
        match v {
            AnyCartridgeView::NRom(c) => AnyCartridgeView::NRom(NRom::cpu_write_spec(c, addr, value)),
            AnyCartridgeView::Mmc1(c) => AnyCartridgeView::Mmc1(Mmc1::cpu_write_spec(c, addr, value)),
        }
    }

    open spec fn ppu_read_spec(v: AnyCartridgeView, addr: u16) -> u8 {
        match v {
            AnyCartridgeView::NRom(c) => NRom::ppu_read_spec(c, addr),
            AnyCartridgeView::Mmc1(c) => Mmc1::ppu_read_spec(c, addr),
        }
    }

    open spec fn ppu_write_spec(v: AnyCartridgeView, addr: u16, value: u8) -> AnyCartridgeView {
        match v {
            AnyCartridgeView::NRom(c) => AnyCartridgeView::NRom(NRom::ppu_write_spec(c, addr, value)),
            AnyCartridgeView::Mmc1(c) => AnyCartridgeView::Mmc1(Mmc1::ppu_write_spec(c, addr, value)),
        }
    }

    open spec fn mirror_spec(v: AnyCartridgeView) -> MirrorMode {
        match v {
            AnyCartridgeView::NRom(c) => NRom::mirror_spec(c),
            AnyCartridgeView::Mmc1(c) => Mmc1::mirror_spec(c),
        }
    }

    fn read_cpu(&self, addr: u16) -> (r: u8) {
        match self {
            AnyCartridge::NRom(c) => c.read_cpu(addr),
            AnyCartridge::Mmc1(c) => c.read_cpu(addr),
        }
    }

    fn write_cpu(&mut self, addr: u16, value: u8) {
        match self {
            AnyCartridge::NRom(c) => c.write_cpu(addr, value),
            AnyCartridge::Mmc1(c) => c.write_cpu(addr, value),
        }
    }

    fn read_ppu(&self, addr: u16) -> (r: u8) {
        match self {
            AnyCartridge::NRom(c) => c.read_ppu(addr),
            AnyCartridge::Mmc1(c) => c.read_ppu(addr),
        }
    }

    fn write_ppu(&mut self, addr: u16, value: u8) {
        match self {
            AnyCartridge::NRom(c) => c.write_ppu(addr, value),
            AnyCartridge::Mmc1(c) => c.write_ppu(addr, value),
        }
    }

    fn mirror_mode(&self) -> (r: MirrorMode) {
        match self {
            AnyCartridge::NRom(c) => c.mirror_mode(),
            AnyCartridge::Mmc1(c) => c.mirror_mode(),
        }
    }
}

/// An NROM board as built from an image: RAM and nametables zeroed.
pub open spec fn nrom_initial(c: NRomView, prg: Seq<u8>, chr: Seq<u8>, ram_size: int, mirror: MirrorMode) -> bool {
    &&& c.prg_rom == prg
    &&& c.chr_rom == chr
    &&& c.ram == Seq::new(ram_size as nat, |i: int| 0u8)
    &&& c.nametables == Seq::new(2048, |i: int| 0u8)
    &&& c.mirror_mode == mirror
}

/// An MMC1 board as built from an image: control `$0C` (PRG mode 3), banks 0, the
/// shifter idle, RAM and nametables zeroed.
pub open spec fn mmc1_initial(c: Mmc1View, prg: Seq<u8>, chr: Seq<u8>) -> bool {
    &&& c.prg_rom == prg
    &&& c.chr_rom == chr
    &&& c.ram == Seq::new(0x2000, |i: int| 0u8)
    &&& c.nametables == Seq::new(2048, |i: int| 0u8)
    &&& c.control == 0x0C
    &&& c.chr_bank0 == 0
    &&& c.chr_bank1 == 0
    &&& c.prg_bank == 0
    &&& c.shifter == SHIFTER_RESET
}

/// The sizes an NROM board comes in.
pub open spec fn nrom_sizes(rom: &Rom) -> bool {
    &&& (rom.prg_rom@.len() == 0x4000 || rom.prg_rom@.len() == 0x8000)
    &&& rom.chr_rom@.len() == 0x2000
    &&& rom.ram_size % 0x400 == 0
    &&& rom.ram_size <= 0x2000
}

/// The sizes this MMC1 board comes in.
pub open spec fn mmc1_sizes(rom: &Rom) -> bool {
    &&& rom.prg_rom@.len() == 0x40000
    &&& rom.chr_rom@.len() == 0x20000
    &&& rom.ram_size == 0x2000
}

impl Rom {
    /// Builds the cartridge the image's mapper number names.
    pub fn into_cartridge(self) -> (r: Result<AnyCartridge, LoadError>)
        ensures
            self.mapper == 0 && nrom_sizes(&self) ==> (r matches Ok(AnyCartridge::NRom(c)) && c.inv()
                && nrom_initial(c@, self.prg_rom@, self.chr_rom@, self.ram_size as int, self.mirror_mode)),
            self.mapper == 1 && mmc1_sizes(&self) ==> (r matches Ok(AnyCartridge::Mmc1(c)) && c.inv()
                && mmc1_initial(c@, self.prg_rom@, self.chr_rom@)),
            self.mapper == 0 && !nrom_sizes(&self) ==> r == Err::<AnyCartridge, LoadError>(LoadError::UnsupportedSize),
            self.mapper == 1 && !mmc1_sizes(&self) ==> r == Err::<AnyCartridge, LoadError>(LoadError::UnsupportedSize),
            self.mapper > 1 ==> r == Err::<AnyCartridge, LoadError>(LoadError::UnsupportedMapper(self.mapper)),
    {
        let prg_len = self.prg_rom.len();
        let chr_len = self.chr_rom.len();
        if self.mapper == 0 {
            if (prg_len == 0x4000 || prg_len == 0x8000) && chr_len == 0x2000 && self.ram_size % 0x400 == 0
                && self.ram_size <= 0x2000 {
                Ok(AnyCartridge::NRom(NRom::new(self.prg_rom, self.chr_rom, self.ram_size, self.mirror_mode)))
            } else {
                Err(LoadError::UnsupportedSize)
            }
        } else if self.mapper == 1 {
            if prg_len == 0x40000 && chr_len == 0x20000 && self.ram_size == 0x2000 {
                Ok(AnyCartridge::Mmc1(Mmc1::new(self.prg_rom, self.chr_rom, self.ram_size)))
            } else {
                Err(LoadError::UnsupportedSize)
            }
        } else {
            Err(LoadError::UnsupportedMapper(self.mapper))
        }
    }
}

/// The image's ROM and RAM sizes are ones an NROM board comes in.
pub open spec fn nrom_image_sizes(d: Seq<u8>) -> bool {
    &&& (prg_size(d) == 0x4000 || prg_size(d) == 0x8000)
    &&& chr_size(d) == 0x2000
    &&& ram_size(d) % 0x400 == 0
    &&& ram_size(d) <= 0x2000
}

/// The image's ROM and RAM sizes are the ones this MMC1 board comes in.
pub open spec fn mmc1_image_sizes(d: Seq<u8>) -> bool {
    &&& prg_size(d) == 0x40000
    &&& chr_size(d) == 0x20000
    &&& ram_size(d) == 0x2000
}

/// Parses an iNES image and builds its cartridge.
pub fn load_rom(data: &[u8]) -> (r: Result<AnyCartridge, LoadError>)
    ensures
        image_error(data@) is Some ==> r == Err::<AnyCartridge, LoadError>(image_error(data@).unwrap()),
        image_error(data@) is None ==> {
            let d = data@;
            let m = mapper_number(d);
            &&& m > 1 ==> r == Err::<AnyCartridge, LoadError>(LoadError::UnsupportedMapper(m))
            &&& (m == 0 && !nrom_image_sizes(d)) ==> r == Err::<AnyCartridge, LoadError>(LoadError::UnsupportedSize)
            &&& (m == 1 && !mmc1_image_sizes(d)) ==> r == Err::<AnyCartridge, LoadError>(LoadError::UnsupportedSize)
            &&& (m == 0 && nrom_image_sizes(d)) ==> (r matches Ok(AnyCartridge::NRom(c)) && c.inv()
                && nrom_initial(
                c@,
                d.subrange(16, 16 + prg_size(d)),
                d.subrange(16 + prg_size(d), 16 + prg_size(d) + chr_size(d)),
                ram_size(d),
                mirror_of(d[6]),
            ))
            &&& (m == 1 && mmc1_image_sizes(d)) ==> (r matches Ok(AnyCartridge::Mmc1(c)) && c.inv()
                && mmc1_initial(
                c@,
                d.subrange(16, 16 + prg_size(d)),
                d.subrange(16 + prg_size(d), 16 + prg_size(d) + chr_size(d)),
            ))
        },
{
    match Rom::load(data) {
        Ok(rom) => rom.into_cartridge(),
        Err(e) => Err(e),
    }
}

} // verus!
