use vstd::prelude::*;
use crate::cartridge::Cartridge;
use crate::cpu::{Cpu, CpuView, Hardware, HardwareView, interrupt_spec};
use crate::decode::{Operation, decode};
use crate::execute::{UnknownOpcode, execute_spec, fetch_spec};
use crate::ppu::{PpuOutput, PpuView};
use crate::trace::{bytes_text, disassembly, trace_line_spec};

verus! {

/// One PPU dot; an NMI it raises is taken by the CPU at once.
pub open spec fn dot_spec<C: Cartridge>(c: CpuView, hw: HardwareView<C::V>) -> (CpuView, HardwareView<C::V>) {
    let p = hw.ppu.ticked::<C>(hw.cartridge);
    if p.nmi_pending {
        interrupt_spec::<C>(c, HardwareView { ppu: PpuView { nmi_pending: false, ..p }, ..hw }, 0xFFFA, false)
    } else {
        (c, HardwareView { ppu: p, ..hw })
    }
}

/// The three PPU dots that follow each CPU instruction.
pub open spec fn three_dots_spec<C: Cartridge>(c: CpuView, hw: HardwareView<C::V>) -> (CpuView, HardwareView<C::V>) {
    let (c1, h1) = dot_spec::<C>(c, hw);
    let (c2, h2) = dot_spec::<C>(c1, h1);
    dot_spec::<C>(c2, h2)
}

fn dot<C: Cartridge, O: PpuOutput>(cpu: &mut Cpu, hw: &mut Hardware<C>, output: &mut O)
    requires
        old(cpu).wf(),
        old(hw).wf(),
    ensures
        final(cpu).wf(),
        final(hw).wf(),
        (final(cpu)@, final(hw)@) == dot_spec::<C>(old(cpu)@, old(hw)@),
{
    hw.ppu.tick(&hw.cartridge, output);
    if hw.ppu.take_nmi() {
        cpu.raise_nmi(hw);
    }
}

fn three_dots<C: Cartridge, O: PpuOutput>(cpu: &mut Cpu, hw: &mut Hardware<C>, output: &mut O)
    requires
        old(cpu).wf(),
        old(hw).wf(),
    ensures
        final(cpu).wf(),
        final(hw).wf(),
        (final(cpu)@, final(hw)@) == three_dots_spec::<C>(old(cpu)@, old(hw)@),
{
    dot(cpu, hw, output);
    dot(cpu, hw, output);
    dot(cpu, hw, output);
}

/// One step of the console: one CPU instruction, then three PPU dots (each handing
/// its `dot_pixels` to `output`), each NMI the PPU raises delivered to the CPU
/// right away. An opcode the core does not
/// implement stops the step after its fetch, before any PPU dot.
pub fn step<C: Cartridge, O: PpuOutput>(cpu: &mut Cpu, hw: &mut Hardware<C>, output: &mut O) -> (r: Result<(), UnknownOpcode>)
    requires
        old(cpu).wf(),
        old(hw).wf(),
    ensures
        final(cpu).wf(),
        final(hw).wf(),
        ({
            let (f, c1, hw1) = fetch_spec::<C>(old(cpu)@, old(hw)@);
            if decode(f.opcode).operation == Operation::Kil {
                &&& r == Err::<(), UnknownOpcode>(UnknownOpcode { pc: f.pc, opcode: f.opcode })
                &&& final(cpu)@ == c1
                &&& final(hw)@ == hw1
            } else {
                let (c2, hw2) = execute_spec::<C>(decode(f.opcode), c1, hw1);
                &&& r is Ok
                &&& (final(cpu)@, final(hw)@) == three_dots_spec::<C>(c2, hw2)
            }
        }),
{
    let r = cpu.tick(hw);
    if r.is_ok() {
        three_dots(cpu, hw, output);
    }
    r
}

/// `step`, also returning the trace record of the instruction it ran.
pub fn step_traced<C: Cartridge, O: PpuOutput>(cpu: &mut Cpu, hw: &mut Hardware<C>, output: &mut O) -> (r: Result<Vec<u8>, UnknownOpcode>)
    requires
        old(cpu).wf(),
        old(hw).wf(),
    ensures
        final(cpu).wf(),
        final(hw).wf(),
        ({
            let (f, c1, hw1) = fetch_spec::<C>(old(cpu)@, old(hw)@);
            if decode(f.opcode).operation == Operation::Kil {
                &&& r == Err::<Vec<u8>, UnknownOpcode>(UnknownOpcode { pc: f.pc, opcode: f.opcode })
                &&& final(cpu)@ == c1
                &&& final(hw)@ == hw1
            } else {
                let (c2, hw2) = execute_spec::<C>(decode(f.opcode), c1, hw1);
                &&& r is Ok
                &&& r.unwrap()@ == trace_line_spec(
                    f.pc,
                    bytes_text(f.size, f.opcode, f.operand_lo, f.operand_hi),
                    disassembly(decode(f.opcode), c1.opcode8, c1.opcode16),
                    old(cpu)@.registers,
                )
                &&& (final(cpu)@, final(hw)@) == three_dots_spec::<C>(c2, hw2)
            }
        }),
{
    let r = cpu.tick_traced(hw);
    if r.is_ok() {
        three_dots(cpu, hw, output);
    }
    r
}

} // verus!
