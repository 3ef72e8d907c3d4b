use vstd::prelude::*;
use crate::cartridge::{Cartridge, MirrorMode, nametable_index, nametable_offset};

verus! {

/// Value of the load shifter when no serial write is in progress: the marker bit
/// reaches bit 0 after five writes.
pub const SHIFTER_RESET: u8 = 0x20;

/// What an MMC1 cartridge holds.
pub ghost struct Mmc1View {
    pub prg_rom: Seq<u8>,
    pub chr_rom: Seq<u8>,
    pub ram: Seq<u8>,
    pub nametables: Seq<u8>,
    pub control: u8,
    pub chr_bank0: u8,
    pub chr_bank1: u8,
    pub prg_bank: u8,
    pub shifter: u8,
}

impl Mmc1View {
    pub open spec fn wf(self) -> bool {
        &&& self.prg_rom.len() == 0x40000
        &&& self.chr_rom.len() == 0x20000
        &&& self.ram.len() == 0x2000
        &&& self.nametables.len() == 2048
        &&& self.control < 32
        &&& self.chr_bank0 < 32
        &&& self.chr_bank1 < 32
        &&& self.prg_bank < 32
    }

    /// PRG-RAM is visible while bit 4 of the PRG bank register is clear.
    pub open spec fn ram_enabled(self) -> bool {
        self.prg_bank & 0x10 == 0
    }

    /// PRG-ROM bank mode, bits 2-3 of the control register.
    pub open spec fn prg_mode(self) -> int {
        (self.control as int / 4) % 4
    }

    /// The PRG-ROM byte a CPU address in `$8000-$FFFF` selects.
    pub open spec fn prg_index(self, addr: u16) -> int {
        let bank16 = self.prg_bank as int % 16;
        if self.prg_mode() < 2 {
            0x8000 * ((self.prg_bank as int / 2) % 8) + (addr - 0x8000)
        } else if self.prg_mode() == 2 {
            if addr < 0xC000 { addr - 0x8000 } else { 0x4000 * bank16 + (addr - 0xC000) }
        } else {
            if addr < 0xC000 { 0x4000 * bank16 + (addr - 0x8000) } else { 0x4000 * 15 + (addr - 0xC000) }
        }
    }

    /// The CHR-ROM byte a PPU address in `$0000-$1FFF` selects.
    pub open spec fn chr_index(self, addr: u16) -> int {
        if self.control & 0x10 == 0 {
            (self.chr_bank0 as int / 2) * 0x2000 + addr
        } else if addr < 0x1000 {
            self.chr_bank0 as int * 0x1000 + addr
        } else {
            self.chr_bank1 as int * 0x1000 + (addr - 0x1000)
        }
    }

    pub open spec fn read_cpu(self, addr: u16) -> u8 {
        if addr < 0x6000 {
            0
        } else if addr < 0x8000 {
            if self.ram_enabled() { self.ram[addr - 0x6000] } else { 0 }
        } else {
            self.prg_rom[self.prg_index(addr)]
        }
    }

    /// Stores a completed serial value into the register that `addr` selects.
    pub open spec fn commit(self, addr: u16, value: u8) -> Mmc1View {
        if addr < 0xA000 {
            Mmc1View { control: value, shifter: SHIFTER_RESET, ..self }
        } else if addr < 0xC000 {
            Mmc1View { chr_bank0: value, shifter: SHIFTER_RESET, ..self }
        } else if addr < 0xE000 {
            Mmc1View { chr_bank1: value, shifter: SHIFTER_RESET, ..self }
        } else {
            Mmc1View { prg_bank: value, shifter: SHIFTER_RESET, ..self }
        }
    }

    /// One write to the load register at `addr` (in `$8000-$FFFF`).
    pub open spec fn load_register(self, addr: u16, value: u8) -> Mmc1View {
        if value & 0x80 != 0 {
            Mmc1View { control: self.control | 0x0C, shifter: SHIFTER_RESET, ..self }
        } else {
            let s = (self.shifter >> 1) | ((value & 1) << 7);
            if s & 1 == 1 {
                self.commit(addr, s >> 3)
            } else {
                Mmc1View { shifter: s, ..self }
            }
        }
    }

    pub open spec fn write_cpu(self, addr: u16, value: u8) -> Mmc1View {
        if addr < 0x6000 {
            self
        } else if addr < 0x8000 {
            if self.ram_enabled() {
                Mmc1View { ram: self.ram.update(addr - 0x6000, value), ..self }
            } else {
                self
            }
        } else {
            self.load_register(addr, value)
        }
    }

    pub open spec fn read_ppu(self, addr: u16) -> u8 {
        if addr < 0x2000 {
            self.chr_rom[self.chr_index(addr)]
        } else {
            self.nametables[nametable_index(addr, MirrorMode::HorizontalMirroring)]
        }
    }

    pub open spec fn write_ppu(self, addr: u16, value: u8) -> Mmc1View {
        if addr < 0x2000 {
            self
        } else {
            Mmc1View {
                nametables: self.nametables.update(
                    nametable_index(addr, MirrorMode::HorizontalMirroring),
                    value,
                ),
                ..self
            }
        }
    }

    /// Mirror mode decoded from bits 0-1 of the control register.
    pub open spec fn mirror(self) -> MirrorMode {
        let m = self.control & 3;
        if m == 0 {
            MirrorMode::SingleScreenLower
        } else if m == 1 {
            MirrorMode::SingleScreenUpper
        } else if m == 2 {
            MirrorMode::VerticalMirroring
        } else {
            MirrorMode::HorizontalMirroring
        }
    }
}

/// The value five serial writes assemble: bit 0 of each written value, the first
/// write giving bit 0 of the result.
pub open spec fn serial_value(v0: u8, v1: u8, v2: u8, v3: u8, v4: u8) -> u8 {
    (v0 & 1) | ((v1 & 1) << 1) | ((v2 & 1) << 2) | ((v3 & 1) << 3) | ((v4 & 1) << 4)
}

/// Serial load: from an idle shifter, five writes to `$8000-$FFFF` with bit 7 clear
/// change nothing but the shifter until the fifth, which stores the assembled value
/// into the one register that the fifth write's address selects and resets the
/// shifter.
pub proof fn lemma_serial_load(
    m: Mmc1View,
    a0: u16, a1: u16, a2: u16, a3: u16, a4: u16,
    v0: u8, v1: u8, v2: u8, v3: u8, v4: u8,
)
    requires
        m.shifter == SHIFTER_RESET,
        a0 >= 0x8000, a1 >= 0x8000, a2 >= 0x8000, a3 >= 0x8000, a4 >= 0x8000,
        v0 & 0x80 == 0, v1 & 0x80 == 0, v2 & 0x80 == 0, v3 & 0x80 == 0, v4 & 0x80 == 0,
    ensures
        ({
            let m4 = m.write_cpu(a0, v0).write_cpu(a1, v1).write_cpu(a2, v2).write_cpu(a3, v3);
            &&& m4 == Mmc1View { shifter: m4.shifter, ..m }
            &&& m4.write_cpu(a4, v4) == m.commit(a4, serial_value(v0, v1, v2, v3, v4))
        }),
{
    let s0 = m.shifter;
    let s1 = (s0 >> 1) | ((v0 & 1) << 7);
    let s2 = (s1 >> 1) | ((v1 & 1) << 7);
    let s3 = (s2 >> 1) | ((v2 & 1) << 7);
    let s4 = (s3 >> 1) | ((v3 & 1) << 7);
    let s5 = (s4 >> 1) | ((v4 & 1) << 7);
    assert(s1 & 1 == 0 && s2 & 1 == 0 && s3 & 1 == 0 && s4 & 1 == 0 && s5 & 1 == 1
        && s5 >> 3 == serial_value(v0, v1, v2, v3, v4)) by (bit_vector)
        requires
            s0 == 0x20u8,
            s1 == (s0 >> 1) | ((v0 & 1) << 7),
            s2 == (s1 >> 1) | ((v1 & 1) << 7),
            s3 == (s2 >> 1) | ((v2 & 1) << 7),
            s4 == (s3 >> 1) | ((v3 & 1) << 7),
            s5 == (s4 >> 1) | ((v4 & 1) << 7),
    ;
}

/// A write to `$8000-$FFFF` with bit 7 set abandons any serial load in progress:
/// the shifter is reset and the control register gets PRG mode 3.
pub proof fn lemma_serial_reset(m: Mmc1View, addr: u16, value: u8)
    requires
        addr >= 0x8000,
        value & 0x80 != 0,
    ensures
        m.write_cpu(addr, value) == (Mmc1View {
            control: m.control | 0x0C,
            shifter: SHIFTER_RESET,
            ..m
        }),
{
}

/// Nintendo MMC1 (iNES mapper 001).
///
/// CPU: `$6000-$7FFF` PRG-RAM (8 KiB), `$8000-$BFFF` and `$C000-$FFFF` PRG-ROM banks,
/// `$8000-$FFFF` also the serial load register. PPU: `$0000-$1FFF` CHR-ROM banks.
/// The nametable RAM keeps the horizontal layout whatever the control register
/// says; `mirror_mode` reports the decoded setting.
pub struct Mmc1 {
    prg_rom: Vec<u8>,
    chr_rom: Vec<u8>,
    ram: Vec<u8>,
    control: u8,
    chr_bank0: u8,
    chr_bank1: u8,
    prg_bank: u8,
    shifter: u8,
    ppu_ram: Vec<u8>,
}

impl View for Mmc1 {
    type V = Mmc1View;

    closed spec fn view(&self) -> Mmc1View {
        Mmc1View {
            prg_rom: self.prg_rom@,
            chr_rom: self.chr_rom@,
            ram: self.ram@,
            nametables: self.ppu_ram@,
            control: self.control,
            chr_bank0: self.chr_bank0,
            chr_bank1: self.chr_bank1,
            prg_bank: self.prg_bank,
            shifter: self.shifter,
        }
    }
}

impl Mmc1 {
    pub fn new(prg_rom: Vec<u8>, chr_rom: Vec<u8>, ram_size: usize) -> (r: Mmc1)
        requires
            prg_rom@.len() == 0x40000,
            chr_rom@.len() == 0x20000,
            ram_size == 0x2000,
        ensures
            r.inv(),
            r@.prg_rom == prg_rom@,
            r@.chr_rom == chr_rom@,
            r@.ram == Seq::new(0x2000, |i: int| 0u8),
            r@.nametables == Seq::new(2048, |i: int| 0u8),
            r@.control == 0x0C,
            r@.chr_bank0 == 0,
            r@.chr_bank1 == 0,
            r@.prg_bank == 0,
            r@.shifter == SHIFTER_RESET,
    {
        let r = Mmc1 {
            prg_rom,
            chr_rom,
            ram: vec![0u8; ram_size],
            control: 0x0C,
            chr_bank0: 0,
            chr_bank1: 0,
            prg_bank: 0,
            shifter: SHIFTER_RESET,
            ppu_ram: vec![0u8; 2048],
        };
        assert(r@.ram =~= Seq::new(0x2000, |i: int| 0u8));
        assert(r@.nametables =~= Seq::new(2048, |i: int| 0u8));
        r
    }
}

impl Cartridge for Mmc1 {
    closed spec fn inv(&self) -> bool {
        self@.wf()
    }

    open spec fn cpu_read_spec(v: Mmc1View, addr: u16) -> u8 {
        v.read_cpu(addr)
    }

    open spec fn cpu_write_spec(v: Mmc1View, addr: u16, value: u8) -> Mmc1View {
        v.write_cpu(addr, value)
    }

    open spec fn ppu_read_spec(v: Mmc1View, addr: u16) -> u8 {
        v.read_ppu(addr)
    }

    open spec fn ppu_write_spec(v: Mmc1View, addr: u16, value: u8) -> Mmc1View {
        v.write_ppu(addr, value)
    }

    open spec fn mirror_spec(v: Mmc1View) -> MirrorMode {
        v.mirror()
    }

    fn read_cpu(&self, addr: u16) -> (r: u8) {
        if addr < 0x6000 {
            0
        } else if addr < 0x8000 {
            if self.prg_bank & 0x10 == 0 {
                self.ram[(addr - 0x6000) as usize]
            } else {
                0
            }
        } else {
            let mode = (self.control >> 2) & 3;
            let c = self.control;
            assert((c >> 2) & 3 == (c / 4) % 4) by (bit_vector);
            let bank16 = (self.prg_bank & 0x0F) as usize;
            let p = self.prg_bank;
            assert(p & 0x0F == p % 16) by (bit_vector);
            assert((p >> 1) & 7 == (p / 2) % 8) by (bit_vector);
            let offset = (addr - 0x8000) as usize;
            if mode < 2 {
                let bank32 = ((self.prg_bank >> 1) & 7) as usize;
                self.prg_rom[0x8000 * bank32 + offset]
            } else if mode == 2 {
                if addr < 0xC000 {
                    self.prg_rom[offset]
                } else {
                    self.prg_rom[0x4000 * bank16 + (offset - 0x4000)]
                }
            } else {
                if addr < 0xC000 {
                    self.prg_rom[0x4000 * bank16 + offset]
                } else {
                    self.prg_rom[0x4000 * 15 + (offset - 0x4000)]
                }
            }
        }
    }

    fn write_cpu(&mut self, addr: u16, value: u8) {
        if addr < 0x6000 {
        } else if addr < 0x8000 {
            if self.prg_bank & 0x10 == 0 {
                self.ram.set((addr - 0x6000) as usize, value);
            }
        } else if value & 0x80 != 0 {
            let c = self.control;
            assert(c < 32 ==> c | 0x0C < 32) by (bit_vector);
            self.control = self.control | 0x0C;
            self.shifter = SHIFTER_RESET;
        } else {
            let s = (self.shifter >> 1) | ((value & 1) << 7);
            if s & 1 == 1 {
                let result = s >> 3;
                assert(s >> 3 < 32) by (bit_vector);
                self.shifter = SHIFTER_RESET;
                if addr < 0xA000 {
                    self.control = result;
                } else if addr < 0xC000 {
                    self.chr_bank0 = result;
                } else if addr < 0xE000 {
                    self.chr_bank1 = result;
                } else {
                    self.prg_bank = result;
                }
            } else {
                self.shifter = s;
            }
        }
    }

    fn read_ppu(&self, addr: u16) -> (r: u8) {
        if addr < 0x2000 {
            if self.control & 0x10 == 0 {
                let bank = (self.chr_bank0 / 2) as usize;
                self.chr_rom[bank * 0x2000 + addr as usize]
            } else if addr < 0x1000 {
                self.chr_rom[(self.chr_bank0 as usize) * 0x1000 + addr as usize]
            } else {
                self.chr_rom[(self.chr_bank1 as usize) * 0x1000 + (addr - 0x1000) as usize]
            }
        } else {
            self.ppu_ram[nametable_offset(addr, MirrorMode::HorizontalMirroring)]
        }
    }

    fn write_ppu(&mut self, addr: u16, value: u8) {
        if addr >= 0x2000 {
            self.ppu_ram.set(nametable_offset(addr, MirrorMode::HorizontalMirroring), value);
        }
    }

    fn mirror_mode(&self) -> (r: MirrorMode) {
        let m = self.control & 3;
        if m == 0 {
            MirrorMode::SingleScreenLower
        } else if m == 1 {
            MirrorMode::SingleScreenUpper
        } else if m == 2 {
            MirrorMode::VerticalMirroring
        } else {
            MirrorMode::HorizontalMirroring
        }
    }
}

} // verus!
