use nes::cartridge::{Cartridge, MirrorMode};
use nes::cpu::{Cpu, Hardware, Status};
use nes::decode::{instruction, instruction_size, AddrMode, Operation};
use nes::execute::UnknownOpcode;
use nes::nrom::NRom;
use nes::ppu::Ppu;

/// A 32 KiB NROM board with `program` at `$8000`, the reset vector pointing there,
/// the IRQ/BRK vector at `$9000` and 8 KiB of RAM.
fn board(program: &[u8]) -> Hardware<NRom> {
    let mut prg = vec![0xEAu8; 32 * 1024];
    prg[..program.len()].copy_from_slice(program);
    prg[0x7FFC] = 0x00;
    prg[0x7FFD] = 0x80;
    prg[0x7FFE] = 0x00;
    prg[0x7FFF] = 0x90;
    prg[0x7FFA] = 0x00;
    prg[0x7FFB] = 0xA0;
    Hardware {
        ppu: Ppu::new(),
        cartridge: NRom::new(prg, vec![0; 8 * 1024], 0x2000, MirrorMode::HorizontalMirroring),
    }
}

fn started(program: &[u8]) -> (Cpu, Hardware<NRom>) {
    let mut hw = board(program);
    let mut cpu = Cpu::new();
    cpu.reset(&mut hw);
    (cpu, hw)
}

fn run(cpu: &mut Cpu, hw: &mut Hardware<NRom>, steps: usize) {
    for _ in 0..steps {
        cpu.tick(hw).unwrap();
    }
}

#[test]
fn status_pack_round_trip() {
    let mut s = Status::new();
    assert_eq!(0x24, s.value(false));
    assert_eq!(0x34, s.value(true));
    s.set_value(0xFF);
    assert_eq!(0xFF, s.value(true));
    assert_eq!(0xEF, s.value(false));
    for v in 0..=255u8 {
        s.set_value(v);
        let packed = s.value(v & 0x10 != 0);
        assert_eq!(0x20, packed & 0x20);
        let mut t = Status::new();
        t.set_value(packed);
        assert_eq!(s, t);
        assert_eq!(v | 0x20, packed);
    }
}

#[test]
fn reset_loads_vector_stack_and_status() {
    let (cpu, _hw) = started(&[]);
    assert_eq!(0x8000, cpu.registers().pc);
    assert_eq!(0xFD, cpu.registers().s);
    assert_eq!(0x24, cpu.registers().p.value(false));
}

#[test]
fn internal_ram_mirrors_every_2k() {
    let (mut cpu, mut hw) = started(&[]);
    cpu.write_memory(&mut hw, 0x0801, 42);
    assert_eq!(42, cpu.read_memory(&mut hw, 0x0001));
    assert_eq!(42, cpu.read_memory(&mut hw, 0x1001));
    assert_eq!(42, cpu.read_memory(&mut hw, 0x1801));
    cpu.write_memory(&mut hw, 0x1FFF, 9);
    assert_eq!(9, cpu.read_memory(&mut hw, 0x07FF));
    assert_eq!(42, cpu.read_memory(&mut hw, 0x0001));
}

#[test]
fn cartridge_sees_unmasked_address() {
    let (mut cpu, mut hw) = started(&[]);
    cpu.write_memory(&mut hw, 0x6123, 77);
    assert_eq!(77, hw.cartridge.read_cpu(0x6123));
    assert_eq!(77, cpu.read_memory(&mut hw, 0x6123));
    assert_eq!(0, cpu.read_memory(&mut hw, 0x4015));
    cpu.write_memory(&mut hw, 0x4015, 5);
    assert_eq!(0, cpu.read_memory(&mut hw, 0x4015));
}

#[test]
fn instruction_sizes_match_fetch() {
    assert_eq!(2, instruction_size(0x00));
    assert_eq!(2, instruction_size(0xA9));
    assert_eq!(3, instruction_size(0x4C));
    assert_eq!(1, instruction_size(0xEA));
    assert_eq!(3, instruction_size(0x6C));
    assert_eq!(1, instruction_size(0x02));
    let i = instruction(0xB1);
    assert_eq!(Operation::Lda, i.operation);
    assert_eq!(AddrMode::IndirectY, i.mode);
    for op in 0..=255u8 {
        let size = instruction_size(op);
        assert!((1..=3).contains(&size));
    }
    // LDA #$05; LDA $1234; NOP
    let (mut cpu, mut hw) = started(&[0xA9, 0x05, 0xAD, 0x34, 0x12, 0xEA]);
    cpu.tick(&mut hw).unwrap();
    assert_eq!(0x8002, cpu.registers().pc);
    assert_eq!(0x05, cpu.opcode8());
    cpu.tick(&mut hw).unwrap();
    assert_eq!(0x8005, cpu.registers().pc);
    assert_eq!(0x1234, cpu.opcode16());
    cpu.tick(&mut hw).unwrap();
    assert_eq!(0x8006, cpu.registers().pc);
}

#[test]
fn adc_and_sbc_flags() {
    // CLC; LDA #$50; ADC #$50
    let (mut cpu, mut hw) = started(&[0x18, 0xA9, 0x50, 0x69, 0x50]);
    run(&mut cpu, &mut hw, 3);
    let r = cpu.registers();
    assert_eq!(0xA0, r.a);
    assert!(r.p.overflow && r.p.negative && !r.p.carry && !r.p.zero);

    // SEC; LDA #$FF; ADC #$01
    let (mut cpu, mut hw) = started(&[0x38, 0xA9, 0xFF, 0x69, 0x01]);
    run(&mut cpu, &mut hw, 3);
    let r = cpu.registers();
    assert_eq!(0x01, r.a);
    assert!(r.p.carry && !r.p.overflow && !r.p.zero);

    // SEC; LDA #$50; SBC #$F0
    let (mut cpu, mut hw) = started(&[0x38, 0xA9, 0x50, 0xE9, 0xF0]);
    run(&mut cpu, &mut hw, 3);
    let r = cpu.registers();
    assert_eq!(0x60, r.a);
    assert!(!r.p.carry && !r.p.overflow);

    // SEC; LDA #$50; SBC #$B0
    let (mut cpu, mut hw) = started(&[0x38, 0xA9, 0x50, 0xE9, 0xB0]);
    run(&mut cpu, &mut hw, 3);
    let r = cpu.registers();
    assert_eq!(0xA0, r.a);
    assert!(!r.p.carry && r.p.overflow && r.p.negative);
}

#[test]
fn compare_shift_and_bit() {
    // LDA #$40; CMP #$41; CPX #$00; LDA #$81; ASL A; ROL A; BIT $10
    let (mut cpu, mut hw) = started(&[0xA9, 0x40, 0xC9, 0x41, 0xE0, 0x00, 0xA9, 0x81, 0x0A, 0x2A, 0x24, 0x10]);
    run(&mut cpu, &mut hw, 2);
    assert!(!cpu.registers().p.carry && cpu.registers().p.negative && !cpu.registers().p.zero);
    run(&mut cpu, &mut hw, 1);
    assert!(cpu.registers().p.carry && cpu.registers().p.zero);
    run(&mut cpu, &mut hw, 2);
    assert_eq!(0x02, cpu.registers().a);
    assert!(cpu.registers().p.carry);
    run(&mut cpu, &mut hw, 1);
    assert_eq!(0x05, cpu.registers().a);
    assert!(!cpu.registers().p.carry);
    cpu.write_memory(&mut hw, 0x10, 0xC0);
    run(&mut cpu, &mut hw, 1);
    let p = cpu.registers().p;
    assert!(p.zero && p.overflow && p.negative);
}

#[test]
fn branches_use_signed_offsets() {
    // LDX #$00; BEQ +2; NOP; NOP; BNE -2 (not taken)
    let (mut cpu, mut hw) = started(&[0xA2, 0x00, 0xF0, 0x02, 0xEA, 0xEA, 0xD0, 0xFE]);
    run(&mut cpu, &mut hw, 2);
    assert_eq!(0x8006, cpu.registers().pc);
    run(&mut cpu, &mut hw, 1);
    assert_eq!(0x8008, cpu.registers().pc);
    // LDX #$01; BNE -4 loops back to $8000
    let (mut cpu, mut hw) = started(&[0xA2, 0x01, 0xD0, 0xFC]);
    run(&mut cpu, &mut hw, 2);
    assert_eq!(0x8000, cpu.registers().pc);
}

#[test]
fn jsr_rts_and_stack() {
    // JSR $8010 ... at $8010: LDA #$07; PHA; PLA; RTS
    let mut program = vec![0xEAu8; 0x20];
    program[0..3].copy_from_slice(&[0x20, 0x10, 0x80]);
    program[0x10..0x15].copy_from_slice(&[0xA9, 0x07, 0x48, 0x68, 0x60]);
    let (mut cpu, mut hw) = started(&program);
    run(&mut cpu, &mut hw, 1);
    assert_eq!(0x8010, cpu.registers().pc);
    assert_eq!(0xFB, cpu.registers().s);
    assert_eq!(0x80, cpu.read_memory(&mut hw, 0x01FD));
    assert_eq!(0x02, cpu.read_memory(&mut hw, 0x01FC));
    run(&mut cpu, &mut hw, 3);
    assert_eq!(0x07, cpu.registers().a);
    assert_eq!(0xFB, cpu.registers().s);
    run(&mut cpu, &mut hw, 1);
    assert_eq!(0x8003, cpu.registers().pc);
    assert_eq!(0xFD, cpu.registers().s);
}

#[test]
fn brk_and_rti() {
    // $8000: BRK, padding; handler at $9000: RTI
    let mut program = vec![0xEAu8; 0x1001];
    program[0] = 0x00;
    program[0x1000] = 0x40;
    let (mut cpu, mut hw) = started(&program);
    run(&mut cpu, &mut hw, 1);
    assert_eq!(0x9000, cpu.registers().pc);
    assert!(cpu.registers().p.interrupt);
    assert_eq!(0x34, cpu.read_memory(&mut hw, 0x01FB));
    assert_eq!(0x80, cpu.read_memory(&mut hw, 0x01FD));
    assert_eq!(0x02, cpu.read_memory(&mut hw, 0x01FC));
    run(&mut cpu, &mut hw, 1);
    assert_eq!(0x8002, cpu.registers().pc);
    assert_eq!(0xFD, cpu.registers().s);
}

#[test]
fn nmi_uses_its_own_vector_without_b() {
    let (mut cpu, mut hw) = started(&[]);
    cpu.raise_nmi(&mut hw);
    assert_eq!(0xA000, cpu.registers().pc);
    assert_eq!(0x24, cpu.read_memory(&mut hw, 0x01FB));
}

#[test]
fn jmp_indirect_wraps_within_page() {
    // JMP ($02FF) with $02FF = $34, $0200 = $12, $0300 = $56
    let (mut cpu, mut hw) = started(&[0x6C, 0xFF, 0x02]);
    cpu.write_memory(&mut hw, 0x02FF, 0x34);
    cpu.write_memory(&mut hw, 0x0200, 0x12);
    cpu.write_memory(&mut hw, 0x0300, 0x56);
    run(&mut cpu, &mut hw, 1);
    assert_eq!(0x1234, cpu.registers().pc);
}

#[test]
fn indexed_and_indirect_addressing() {
    // LDX #$04; LDY #$10; LDA ($FE,X); STA ($20),Y; LDA $FF,X
    let (mut cpu, mut hw) = started(&[0xA2, 0x04, 0xA0, 0x10, 0xA1, 0xFE, 0x91, 0x20, 0xB5, 0xFF]);
    cpu.write_memory(&mut hw, 0x0002, 0x00);
    cpu.write_memory(&mut hw, 0x0003, 0x03);
    cpu.write_memory(&mut hw, 0x0300, 0x99);
    cpu.write_memory(&mut hw, 0x0020, 0xF8);
    cpu.write_memory(&mut hw, 0x0021, 0x03);
    run(&mut cpu, &mut hw, 4);
    assert_eq!(0x99, cpu.read_memory(&mut hw, 0x0408));
    cpu.write_memory(&mut hw, 0x0003, 0x44);
    run(&mut cpu, &mut hw, 1);
    assert_eq!(0x44, cpu.registers().a);
}

#[test]
fn undocumented_combined_operations() {
    // LDA #$0F; STA $10; DCP $10; LAX $10; SAX $11
    let (mut cpu, mut hw) = started(&[0xA9, 0x0F, 0x85, 0x10, 0xC7, 0x10, 0xA7, 0x10, 0x87, 0x11]);
    run(&mut cpu, &mut hw, 3);
    assert_eq!(0x0E, cpu.read_memory(&mut hw, 0x10));
    assert!(cpu.registers().p.carry && !cpu.registers().p.zero);
    run(&mut cpu, &mut hw, 2);
    assert_eq!(0x0E, cpu.registers().a);
    assert_eq!(0x0E, cpu.registers().x);
    assert_eq!(0x0E, cpu.read_memory(&mut hw, 0x11));
}

#[test]
fn unimplemented_opcode_is_reported() {
    let (mut cpu, mut hw) = started(&[0x02]);
    assert_eq!(Err(UnknownOpcode { pc: 0x8000, opcode: 0x02 }), cpu.tick(&mut hw));
}

#[test]
fn trace_line_format() {
    let mut program = vec![0xEAu8; 0x4010];
    program[0x4000..0x4003].copy_from_slice(&[0x4C, 0xF5, 0xC5]);
    program[0x4003..0x4005].copy_from_slice(&[0xD0, 0xFC]);
    let (mut cpu, mut hw) = started(&program);
    cpu.registers_mut().pc = 0xC000;
    let line = String::from_utf8(cpu.tick_traced(&mut hw).unwrap()).unwrap();
    assert_eq!("C000  4C F5 C5  JMP $C5F5                       A:00 X:00 Y:00 P:24 SP:FD", line);
    cpu.registers_mut().pc = 0xC003;
    let line = String::from_utf8(cpu.tick_traced(&mut hw).unwrap()).unwrap();
    assert_eq!("C003  D0 FC     BNE #$-04                       A:00 X:00 Y:00 P:24 SP:FD", line);
    assert_eq!(0xC001, cpu.registers().pc);
}

#[test]
fn disassembly_of_addressing_modes() {
    // LDA ($20),Y; STA $0300,X; ASL A; NOP $10,X; JMP ($1234)
    let (mut cpu, mut hw) = started(&[0xB1, 0x20, 0x9D, 0x00, 0x03, 0x0A, 0x34, 0x10, 0x6C, 0x34, 0x12]);
    let texts: Vec<String> = (0..5)
        .map(|_| String::from_utf8(cpu.tick_traced(&mut hw).unwrap()).unwrap()[16..46].trim_end().to_string())
        .collect();
    assert_eq!(vec!["LDA ($20),Y", "STA $0300,X", "ASL A", "NOP $10,X", "JMP ($1234)"], texts);
}
