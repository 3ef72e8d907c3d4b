use vstd::prelude::*;
use crate::cartridge::{Cartridge, MirrorMode, nametable_index, nametable_offset};

verus! {

/// What an NROM cartridge holds.
pub ghost struct NRomView {
    pub prg_rom: Seq<u8>,
    pub chr_rom: Seq<u8>,
    pub ram: Seq<u8>,
    pub nametables: Seq<u8>,
    pub mirror_mode: MirrorMode,
}

/// The RAM cell a CPU address in `$6000-$7FFF` selects, for a RAM of `len` bytes.
pub open spec fn nrom_ram_index(addr: u16, len: nat) -> int {
    ((addr - 0x6000) as u16 & (len - 1) as u16) as int
}

/// The PRG-ROM byte a CPU address in `$8000-$FFFF` selects, for a PRG-ROM of `len` bytes.
pub open spec fn nrom_prg_index(addr: u16, len: nat) -> int {
    (addr - 0x8000) as int % (len as int)
}

impl NRomView {
    pub open spec fn wf(self) -> bool {
        &&& (self.prg_rom.len() == 0x4000 || self.prg_rom.len() == 0x8000)
        &&& self.chr_rom.len() == 0x2000
        &&& self.ram.len() % 0x400 == 0
        &&& self.ram.len() <= 0x2000
        &&& self.nametables.len() == 2048
    }

    pub open spec fn read_cpu(self, addr: u16) -> u8 {
        if addr < 0x6000 || (addr < 0x8000 && self.ram.len() == 0) {
            0
        } else if addr < 0x8000 {
            self.ram[nrom_ram_index(addr, self.ram.len())]
        } else {
            self.prg_rom[nrom_prg_index(addr, self.prg_rom.len())]
        }
    }

    pub open spec fn write_cpu(self, addr: u16, value: u8) -> NRomView {
        if 0x6000 <= addr < 0x8000 && self.ram.len() != 0 {
            NRomView { ram: self.ram.update(nrom_ram_index(addr, self.ram.len()), value), ..self }
        } else {
            self
        }
    }

    pub open spec fn read_ppu(self, addr: u16) -> u8 {
        if addr < 0x2000 {
            self.chr_rom[addr as int]
        } else {
            self.nametables[nametable_index(addr, self.mirror_mode)]
        }
    }

    pub open spec fn write_ppu(self, addr: u16, value: u8) -> NRomView {
        if addr < 0x2000 {
            self
        } else {
            NRomView { nametables: self.nametables.update(nametable_index(addr, self.mirror_mode), value), ..self }
        }
    }
}

/// A 16 KiB PRG-ROM appears twice: every CPU address in `$8000-$BFFF` reads the
/// same byte as the address 16 KiB above it.
pub proof fn lemma_prg_mirror(v: NRomView, addr: u16)
    requires
        v.wf(),
        v.prg_rom.len() == 0x4000,
        0x8000 <= addr <= 0xBFFF,
    ensures
        v.read_cpu(addr) == v.read_cpu((addr + 0x4000) as u16),
{
    assert((addr - 0x8000) as int % 0x4000 == ((addr + 0x4000) as u16 - 0x8000) as int % 0x4000);
}

/// Simple non-banking cartridge with optional RAM (iNES mapper 000).
///
/// CPU: `$6000-$7FFF` RAM (mirrored when smaller than 8 KiB), `$8000-$FFFF` PRG-ROM
/// (16 KiB images repeat at `$C000`). PPU: `$0000-$1FFF` CHR-ROM, `$2000-$3EFF`
/// nametable RAM.
pub struct NRom {
    prg_rom: Vec<u8>,
    prg_mask: usize,
    chr_rom: Vec<u8>,
    ram: Vec<u8>,
    ram_mask: usize,
    ppu_ram: Vec<u8>,
    mirror_mode: MirrorMode,
}

impl View for NRom {
    type V = NRomView;

    closed spec fn view(&self) -> NRomView {
        NRomView {
            prg_rom: self.prg_rom@,
            chr_rom: self.chr_rom@,
            ram: self.ram@,
            nametables: self.ppu_ram@,
            mirror_mode: self.mirror_mode,
        }
    }
}

impl NRom {
    pub fn new(prg_rom: Vec<u8>, chr_rom: Vec<u8>, ram_size: usize, mirror_mode: MirrorMode) -> (r: NRom)
        requires
            prg_rom@.len() == 0x4000 || prg_rom@.len() == 0x8000,
            ram_size % 0x400 == 0,
            ram_size <= 0x2000,
            chr_rom@.len() == 0x2000,
        ensures
            r.inv(),
            r@.prg_rom == prg_rom@,
            r@.chr_rom == chr_rom@,
            r@.ram == Seq::new(ram_size as nat, |i: int| 0u8),
            r@.nametables == Seq::new(2048, |i: int| 0u8),
            r@.mirror_mode == mirror_mode,
    {
        let prg_mask = prg_rom.len() - 1;
        let r = NRom {
            prg_rom,
            prg_mask,
            chr_rom,
            ram: vec![0u8; ram_size],
            ram_mask: if ram_size == 0 { 0 } else { ram_size - 1 },
            ppu_ram: vec![0u8; 2048],
            mirror_mode,
        };
        assert(r@.ram =~= Seq::new(ram_size as nat, |i: int| 0u8));
        assert(r@.nametables =~= Seq::new(2048, |i: int| 0u8));
        r
    }
}

impl Cartridge for NRom {
    closed spec fn inv(&self) -> bool {
        &&& self@.wf()
        &&& self.prg_mask == self.prg_rom@.len() - 1
        &&& self.ram_mask == if self.ram@.len() == 0 { 0 } else { self.ram@.len() - 1 }
    }

    open spec fn cpu_read_spec(v: NRomView, addr: u16) -> u8 {
        v.read_cpu(addr)
    }

    open spec fn cpu_write_spec(v: NRomView, addr: u16, value: u8) -> NRomView {
        v.write_cpu(addr, value)
    }

    open spec fn ppu_read_spec(v: NRomView, addr: u16) -> u8 {
        v.read_ppu(addr)
    }

    open spec fn ppu_write_spec(v: NRomView, addr: u16, value: u8) -> NRomView {
        v.write_ppu(addr, value)
    }

    open spec fn mirror_spec(v: NRomView) -> MirrorMode {
        v.mirror_mode
    }

    fn read_cpu(&self, addr: u16) -> (r: u8) {
        if addr < 0x6000 {
            0
        } else if addr < 0x8000 {
            if self.ram_mask == 0 {
                0
            } else {
                let offset = addr - 0x6000;
                let mask = self.ram_mask as u16;
                assert(offset & mask <= mask) by (bit_vector);
                self.ram[(offset & mask) as usize]
            }
        } else {
            let offset = addr - 0x8000;
            let mask = self.prg_mask as u16;
            assert(offset & 0x3fff == offset % 0x4000) by (bit_vector);
            assert(offset & 0x7fff == offset % 0x8000) by (bit_vector);
            self.prg_rom[(offset & mask) as usize]
        }
    }

    fn write_cpu(&mut self, addr: u16, value: u8) {
        if 0x6000 <= addr && addr < 0x8000 && self.ram_mask != 0 {
            let offset = addr - 0x6000;
            let mask = self.ram_mask as u16;
            assert(offset & mask <= mask) by (bit_vector);
            self.ram.set((offset & mask) as usize, value);
        }
    }

    fn read_ppu(&self, addr: u16) -> (r: u8) {
        if addr < 0x2000 {
            self.chr_rom[addr as usize]
        } else {
            self.ppu_ram[nametable_offset(addr, self.mirror_mode)]
        }
    }

    fn write_ppu(&mut self, addr: u16, value: u8) {
        if addr >= 0x2000 {
            self.ppu_ram.set(nametable_offset(addr, self.mirror_mode), value);
        }
    }

    fn mirror_mode(&self) -> (r: MirrorMode) {
        self.mirror_mode
    }
}

} // verus!
