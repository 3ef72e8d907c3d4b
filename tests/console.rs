use nes::cartridge::MirrorMode;
use nes::console::{step, step_traced};
use nes::cpu::{Cpu, Hardware};
use nes::execute::UnknownOpcode;
use nes::nrom::NRom;
use nes::ppu::{Ppu, PpuOutput};

struct Counter {
    pixels: usize,
}

impl PpuOutput for Counter {
    fn set_pixel(&mut self, _x: usize, _y: usize, _r: u8, _g: u8, _b: u8) {
        self.pixels += 1;
    }
}

/// NOPs everywhere, reset vector `$8000`, NMI vector `$A000`.
fn board() -> Hardware<NRom> {
    let mut prg = vec![0xEAu8; 32 * 1024];
    prg[0x7FFC] = 0x00;
    prg[0x7FFD] = 0x80;
    prg[0x7FFA] = 0x00;
    prg[0x7FFB] = 0xA0;
    prg[0] = 0x02;
    // $8001: JMP $8001
    prg[1] = 0x4C;
    prg[2] = 0x01;
    prg[3] = 0x80;
    Hardware {
        ppu: Ppu::new(),
        cartridge: NRom::new(prg, vec![0; 8 * 1024], 0x2000, MirrorMode::HorizontalMirroring),
    }
}

#[test]
fn step_runs_three_dots_per_instruction_and_delivers_nmi() {
    let mut hw = board();
    let mut cpu = Cpu::new();
    cpu.reset(&mut hw);
    cpu.registers_mut().pc = 0x8001;
    cpu.write_memory(&mut hw, 0x2000, 0x80);
    let mut out = Counter { pixels: 0 };
    // Vertical blank starts at dot 1 of scanline 241: 341 + 241 * 341 + 2 dots in.
    let dots = 341 + 241 * 341 + 2;
    let mut steps = 0;
    while cpu.registers().s == 0xFD {
        step(&mut cpu, &mut hw, &mut out).unwrap();
        steps += 1;
    }
    assert_eq!((dots + 2) / 3, steps);
    assert_eq!(256 * 240, out.pixels);
    assert!(cpu.registers().p.interrupt);
    assert_eq!(0xA000, cpu.registers().pc);
    assert_eq!(0xFA, cpu.registers().s);
}

#[test]
fn step_stops_on_unknown_opcode_without_dots() {
    let mut hw = board();
    let mut cpu = Cpu::new();
    cpu.reset(&mut hw);
    let mut out = Counter { pixels: 0 };
    assert_eq!(Err(UnknownOpcode { pc: 0x8000, opcode: 0x02 }), step_traced(&mut cpu, &mut hw, &mut out));
    assert_eq!(0x8001, cpu.registers().pc);
}

#[test]
fn step_traced_returns_the_record() {
    let mut hw = board();
    let mut cpu = Cpu::new();
    cpu.reset(&mut hw);
    cpu.registers_mut().pc = 0x8001;
    let mut out = Counter { pixels: 0 };
    let line = String::from_utf8(step_traced(&mut cpu, &mut hw, &mut out).unwrap()).unwrap();
    assert_eq!("8001  4C 01 80  JMP $8001                       A:00 X:00 Y:00 P:24 SP:FD", line);
}
