use vstd::prelude::*;
use crate::cartridge::Cartridge;
use crate::memory::{Memory, ram_index};
use crate::memory_map::{PPU_START, APU_IO_START, CARTRIDGE_START, STACK_START};
use crate::ppu::{Ppu, PpuView};
use crate::alu::lda;
use crate::trace::{bytes_text, disassemble, disassembly, trace_line, trace_line_spec};
use crate::decode::{AddrMode, Instruction, Operation, decode, instruction, instruction_size};
use crate::execute::{
    Fetched, Operand, UnknownOpcode, apply_implied_op, apply_read_op, branch_condition, branch_taken, control_spec, execute_spec,
    fetch_spec, follow_up_of, is_branch_op, is_implied, is_modify, is_read, is_store, load_spec, modify_spec,
    modify_value, operand_of, pull_spec, pulled, push_spec, signed, store_spec, with_registers, zero_page_pointer,
};

verus! {

/// The six flags of the status register.
#[derive(Clone, Copy, Debug, PartialEq, Eq, Structural)]
pub struct Status {
    pub carry: bool,
    pub zero: bool,
    pub interrupt: bool,
    pub decimal: bool,
    pub overflow: bool,
    pub negative: bool,
}

/// The status byte `NV1BDIZC` as pushed: bit 5 always set, bit 4 from `break_flag`.
pub open spec fn pack(s: Status, break_flag: bool) -> u8 {
    0x20u8 | (if break_flag { 0x10u8 } else { 0 }) | (if s.carry { 0x01u8 } else { 0 }) | (if s.zero {
        0x02u8
    } else {
        0
    }) | (if s.interrupt { 0x04u8 } else { 0 }) | (if s.decimal { 0x08u8 } else { 0 }) | (if s.overflow {
        0x40u8
    } else {
        0
    }) | (if s.negative { 0x80u8 } else { 0 })
}

/// The flags a pulled status byte sets; bits 4 and 5 are dropped.
pub open spec fn unpack(value: u8) -> Status {
    Status {
        carry: value & 0x01 != 0,
        zero: value & 0x02 != 0,
        interrupt: value & 0x04 != 0,
        decimal: value & 0x08 != 0,
        overflow: value & 0x40 != 0,
        negative: value & 0x80 != 0,
    }
}

/// Pulling a pushed status byte gives back the flags, whatever the B bit, and the
/// pushed byte always has bit 5 set.
pub proof fn lemma_status_round_trip(s: Status, break_flag: bool)
    ensures
        unpack(pack(s, break_flag)) == s,
        pack(s, break_flag) & 0x20 == 0x20,
{
    let b: u8 = if break_flag { 0x10 } else { 0 };
    let c: u8 = if s.carry { 0x01 } else { 0 };
    let z: u8 = if s.zero { 0x02 } else { 0 };
    let i: u8 = if s.interrupt { 0x04 } else { 0 };
    let d: u8 = if s.decimal { 0x08 } else { 0 };
    let v: u8 = if s.overflow { 0x40 } else { 0 };
    let n: u8 = if s.negative { 0x80 } else { 0 };
    let p = 0x20u8 | b | c | z | i | d | v | n;
    assert(p == pack(s, break_flag));
    assert(
        (p & 0x01 != 0) == (c != 0) && (p & 0x02 != 0) == (z != 0) && (p & 0x04 != 0) == (i != 0)
        && (p & 0x08 != 0) == (d != 0) && (p & 0x40 != 0) == (v != 0) && (p & 0x80 != 0) == (n != 0)
        && p & 0x20 == 0x20
    ) by (bit_vector)
        requires
            p == 0x20u8 | b | c | z | i | d | v | n,
            b == 0 || b == 0x10,
            c == 0 || c == 0x01,
            z == 0 || z == 0x02,
            i == 0 || i == 0x04,
            d == 0 || d == 0x08,
            v == 0 || v == 0x40,
            n == 0 || n == 0x80,
    ;
}

impl Status {
    /// The power-up flags: interrupts disabled, everything else clear.
    pub fn new() -> (r: Status)
        ensures
            r == unpack(0x34),
    {
        let mut p = Status {
            carry: false,
            zero: false,
            interrupt: false,
            decimal: false,
            overflow: false,
            negative: false,
        };
        p.set_value(0x34);
        p
    }

    /// The status byte as pushed by BRK/PHP (`break_flag` set) or an interrupt.
    pub fn value(&self, break_flag: bool) -> (r: u8)
        ensures
            r == pack(*self, break_flag),
    {
        0x20u8 | (if break_flag { 0x10u8 } else { 0 }) | (if self.carry { 0x01u8 } else { 0 }) | (if self.zero {
            0x02u8
        } else {
            0
        }) | (if self.interrupt { 0x04u8 } else { 0 }) | (if self.decimal { 0x08u8 } else { 0 }) | (
        if self.overflow {
            0x40u8
        } else {
            0
        }) | (if self.negative { 0x80u8 } else { 0 })
    }

    /// Loads the flags from a pulled status byte.
    pub fn set_value(&mut self, value: u8)
        ensures
            *final(self) == unpack(value),
    {
        self.carry = value & 0x01 != 0;
        self.zero = value & 0x02 != 0;
        self.interrupt = value & 0x04 != 0;
        self.decimal = value & 0x08 != 0;
        self.overflow = value & 0x40 != 0;
        self.negative = value & 0x80 != 0;
    }
}

/// The register file.
#[derive(Clone, Copy, Debug, PartialEq, Eq, Structural)]
pub struct Registers {
    pub a: u8,
    pub x: u8,
    pub y: u8,
    pub pc: u16,
    pub s: u8,
    pub p: Status,
}

pub open spec fn initial_registers() -> Registers {
    Registers { a: 0, x: 0, y: 0, pc: 0, s: 0xFD, p: unpack(0x34) }
}

impl Registers {
    pub fn new() -> (r: Registers)
        ensures
            r == initial_registers(),
    {
        Registers { a: 0, x: 0, y: 0, pc: 0, s: 0xFD, p: Status::new() }
    }
}

/// What the CPU drives besides its own RAM: the PPU and the cartridge.
pub struct Hardware<C> {
    pub ppu: Ppu,
    pub cartridge: C,
}

pub ghost struct HardwareView<V> {
    pub ppu: PpuView,
    pub cartridge: V,
}

impl<C: Cartridge> View for Hardware<C> {
    type V = HardwareView<C::V>;

    open spec fn view(&self) -> HardwareView<C::V> {
        HardwareView { ppu: self.ppu@, cartridge: self.cartridge@ }
    }
}

impl<C: Cartridge> Hardware<C> {
    pub open spec fn wf(&self) -> bool {
        self.ppu.wf() && self.cartridge.inv()
    }
}

/// A CPU read at `addr`: the value returned and the hardware after it.
pub open spec fn bus_read<C: Cartridge>(ram: Seq<u8>, hw: HardwareView<C::V>, addr: u16) -> (u8, HardwareView<C::V>) {
    if addr < PPU_START {
        (ram[ram_index(addr)], hw)
    } else if addr < APU_IO_START {
        let (p, r) = hw.ppu.read_register::<C>(hw.cartridge, addr);
        (r, HardwareView { ppu: p, ..hw })
    } else if addr < CARTRIDGE_START {
        (0, hw)
    } else {
        (C::cpu_read_spec(hw.cartridge, addr), hw)
    }
}

/// A CPU write of `value` at `addr`: the RAM and the hardware after it.
pub open spec fn bus_write<C: Cartridge>(ram: Seq<u8>, hw: HardwareView<C::V>, addr: u16, value: u8) -> (Seq<u8>, HardwareView<C::V>) {
    if addr < PPU_START {
        (ram.update(ram_index(addr), value), hw)
    } else if addr < APU_IO_START {
        let (p, c) = hw.ppu.write_register::<C>(hw.cartridge, addr, value);
        (ram, HardwareView { ppu: p, cartridge: c })
    } else if addr < CARTRIDGE_START {
        (ram, hw)
    } else {
        (ram, HardwareView { cartridge: C::cpu_write_spec(hw.cartridge, addr, value), ..hw })
    }
}

/// `a + n` on the 16-bit address bus, wrapping around.
pub open spec fn add16(a: u16, n: int) -> u16 {
    ((a as int + n) % 0x10000) as u16
}

/// A little-endian address read from two consecutive bus addresses.
pub open spec fn bus_read16<C: Cartridge>(ram: Seq<u8>, hw: HardwareView<C::V>, addr: u16) -> (u16, HardwareView<C::V>) {
    let (lo, hw1) = bus_read::<C>(ram, hw, addr);
    let (hi, hw2) = bus_read::<C>(ram, hw1, add16(addr, 1));
    ((hi as int * 256 + lo as int) as u16, hw2)
}

/// Internal RAM: a read at any address in `$0000-$1FFF` returns what the last write
/// to the same address modulo 2048 stored, and a write anywhere else leaves it as
/// it was.
pub proof fn lemma_ram_mirror<C: Cartridge>(ram: Seq<u8>, hw: HardwareView<C::V>, w: u16, r: u16, value: u8)
    requires
        ram.len() == 2048,
        r < PPU_START,
    ensures
        ({
            let (ram1, hw1) = bus_write::<C>(ram, hw, w, value);
            &&& w < PPU_START && w % 2048 == r % 2048 ==> bus_read::<C>(ram1, hw1, r).0 == value
            &&& !(w < PPU_START && w % 2048 == r % 2048) ==> bus_read::<C>(ram1, hw1, r).0 == bus_read::<C>(ram, hw, r).0
        }),
{
}

/// Cartridge space: a CPU read or write at `$4020` or above is one read or one write
/// of the cartridge at that same address, and touches nothing else.
pub proof fn lemma_cartridge_access<C: Cartridge>(ram: Seq<u8>, hw: HardwareView<C::V>, addr: u16, value: u8)
    requires
        addr >= CARTRIDGE_START,
    ensures
        bus_read::<C>(ram, hw, addr) == (C::cpu_read_spec(hw.cartridge, addr), hw),
        bus_write::<C>(ram, hw, addr, value) == (ram, HardwareView {
            cartridge: C::cpu_write_spec(hw.cartridge, addr, value),
            ..hw
        }),
{
}

/// The RAM cell of stack slot `s`.
pub open spec fn stack_index(s: u8) -> int {
    STACK_START as int + s as int
}

/// `S` after a push.
pub open spec fn sp_down(s: u8) -> u8 {
    ((s as int + 255) % 256) as u8
}

/// `S` before a pull.
pub open spec fn sp_up(s: u8) -> u8 {
    ((s as int + 1) % 256) as u8
}

/// Interrupt entry: `PCH`, `PCL` and the status (B bit from `break_flag`) pushed,
/// interrupts disabled, `PC` loaded from `vector`.
pub open spec fn interrupt_spec<C: Cartridge>(c: CpuView, hw: HardwareView<C::V>, vector: u16, break_flag: bool) -> (CpuView, HardwareView<C::V>) {
    let r = c.registers;
    let s1 = sp_down(r.s);
    let s2 = sp_down(s1);
    let ram = c.ram.update(stack_index(r.s), (r.pc as int / 256) as u8).update(
        stack_index(s1),
        (r.pc as int % 256) as u8,
    ).update(stack_index(s2), pack(r.p, break_flag));
    let (pc, hw1) = bus_read16::<C>(ram, hw, vector);
    (CpuView {
        registers: Registers { pc: pc, s: sp_down(s2), p: Status { interrupt: true, ..r.p }, ..r },
        ram: ram,
        ..c
    }, hw1)
}

/// Everything the CPU holds.
pub ghost struct CpuView {
    pub registers: Registers,
    pub opcode8: u8,
    pub opcode16: u16,
    pub ram: Seq<u8>,
}

/// The 6502 core of the console, with its internal RAM.
///
/// Memory map: `$0000-$1FFF` RAM (2 KiB, mirrored), `$2000-$3FFF` PPU registers
/// (mirrored every 8), `$4000-$401F` APU and IO (reads 0, writes ignored),
/// `$4020-$FFFF` cartridge.
pub struct Cpu {
    pub(crate) registers: Registers,
    pub(crate) opcode8: u8,
    pub(crate) opcode16: u16,
    pub(crate) memory: Memory,
}

impl View for Cpu {
    type V = CpuView;

    closed spec fn view(&self) -> CpuView {
        CpuView { registers: self.registers, opcode8: self.opcode8, opcode16: self.opcode16, ram: self.memory@ }
    }
}

impl Cpu {
    pub open spec fn wf(&self) -> bool {
        self@.ram.len() == 2048
    }

    pub fn new() -> (r: Cpu)
        ensures
            r.wf(),
            r@.registers == initial_registers(),
            r@.opcode8 == 0,
            r@.opcode16 == 0,
            forall|i: int| 0 <= i < 2048 ==> r@.ram[i] == 0,
    {
        Cpu { registers: Registers::new(), opcode8: 0, opcode16: 0, memory: Memory::new() }
    }

    pub fn registers(&self) -> (r: &Registers)
        ensures
            *r == self@.registers,
    {
        &self.registers
    }

    pub fn registers_mut(&mut self) -> (r: &mut Registers)
        ensures
            *r == old(self)@.registers,
            final(self)@ == (CpuView { registers: *final(r), ..old(self)@ }),
    {
        &mut self.registers
    }

    /// Operand byte of the last two-byte instruction.
    pub fn opcode8(&self) -> (r: u8)
        ensures
            r == self@.opcode8,
    {
        self.opcode8
    }

    /// Operand word of the last three-byte instruction.
    pub fn opcode16(&self) -> (r: u16)
        ensures
            r == self@.opcode16,
    {
        self.opcode16
    }

    /// A read through the CPU bus.
    pub fn read_memory<C: Cartridge>(&self, hw: &mut Hardware<C>, address: u16) -> (r: u8)
        requires
            self.wf(),
            old(hw).wf(),
        ensures
            final(hw).wf(),
            (r, final(hw)@) == bus_read::<C>(self@.ram, old(hw)@, address),
    {
        if address < PPU_START {
            self.memory.read(address)
        } else if address < APU_IO_START {
            hw.ppu.read(&hw.cartridge, address)
        } else if address < CARTRIDGE_START {
            0
        } else {
            hw.cartridge.read_cpu(address)
        }
    }

    /// A write through the CPU bus.
    pub fn write_memory<C: Cartridge>(&mut self, hw: &mut Hardware<C>, address: u16, value: u8)
        requires
            old(self).wf(),
            old(hw).wf(),
        ensures
            final(self).wf(),
            final(hw).wf(),
            (final(self)@.ram, final(hw)@) == bus_write::<C>(old(self)@.ram, old(hw)@, address, value),
            final(self)@ == (CpuView { ram: final(self)@.ram, ..old(self)@ }),
    {
        if address < PPU_START {
            self.memory.write(address, value);
        } else if address < APU_IO_START {
            hw.ppu.write(&mut hw.cartridge, address, value);
        } else if address < CARTRIDGE_START {
        } else {
            hw.cartridge.write_cpu(address, value);
        }
    }

    /// Reads a little-endian address from `addr` and `addr + 1`.
    fn read_address<C: Cartridge>(&self, hw: &mut Hardware<C>, addr: u16) -> (r: u16)
        requires
            self.wf(),
            old(hw).wf(),
        ensures
            final(hw).wf(),
            (r, final(hw)@) == bus_read16::<C>(self@.ram, old(hw)@, addr),
    {
        let lo = self.read_memory(hw, addr) as u16;
        let hi = self.read_memory(hw, addr.wrapping_add(1)) as u16;
        assert((hi << 8) | lo == hi * 256 + lo) by (bit_vector)
            requires
                hi < 256,
                lo < 256;
        (hi << 8) | lo
    }

    /// Loads `PC` from the reset vector at `$FFFC`.
    pub fn jump_to_start<C: Cartridge>(&mut self, hw: &mut Hardware<C>)
        requires
            old(self).wf(),
            old(hw).wf(),
        ensures
            final(self).wf(),
            final(hw).wf(),
            (final(self)@.registers.pc, final(hw)@) == bus_read16::<C>(old(self)@.ram, old(hw)@, 0xFFFC),
            final(self)@ == (CpuView {
                registers: Registers { pc: final(self)@.registers.pc, ..old(self)@.registers },
                ..old(self)@
            }),
    {
        self.registers.pc = self.read_address(hw, 0xFFFC);
    }

    /// Reset: `PC` from the reset vector, `S` to `$FD`, the status to `$34`.
    pub fn reset<C: Cartridge>(&mut self, hw: &mut Hardware<C>)
        requires
            old(self).wf(),
            old(hw).wf(),
        ensures
            final(self).wf(),
            final(hw).wf(),
            (final(self)@.registers.pc, final(hw)@) == bus_read16::<C>(old(self)@.ram, old(hw)@, 0xFFFC),
            final(self)@ == (CpuView {
                registers: Registers {
                    pc: final(self)@.registers.pc,
                    s: 0xFD,
                    p: unpack(0x34),
                    ..old(self)@.registers
                },
                ..old(self)@
            }),
    {
        self.jump_to_start(hw);
        self.registers.s = 0xFD;
        self.registers.p = Status::new();
    }

    /// Pushes a byte: stores at `$0100 + S`, then decrements `S`.
    pub(crate) fn push(&mut self, value: u8)
        requires
            old(self).wf(),
        ensures
            final(self).wf(),
            final(self)@ == (CpuView {
                ram: old(self)@.ram.update(stack_index(old(self)@.registers.s), value),
                registers: Registers { s: sp_down(old(self)@.registers.s), ..old(self)@.registers },
                ..old(self)@
            }),
    {
        let s = self.registers.s;
        self.memory.write(STACK_START + s as u16, value);
        self.registers.s = s.wrapping_sub(1);
    }

    /// Pulls a byte: increments `S`, then reads `$0100 + S`.
    pub(crate) fn pull(&mut self) -> (r: u8)
        requires
            old(self).wf(),
        ensures
            final(self).wf(),
            r == old(self)@.ram[stack_index(sp_up(old(self)@.registers.s))],
            final(self)@ == (CpuView {
                registers: Registers { s: sp_up(old(self)@.registers.s), ..old(self)@.registers },
                ..old(self)@
            }),
    {
        let s = self.registers.s.wrapping_add(1);
        self.registers.s = s;
        self.memory.read(STACK_START + s as u16)
    }

    fn interrupt<C: Cartridge>(&mut self, hw: &mut Hardware<C>, vector: u16, break_flag: bool)
        requires
            old(self).wf(),
            old(hw).wf(),
        ensures
            final(self).wf(),
            final(hw).wf(),
            (final(self)@, final(hw)@) == interrupt_spec::<C>(old(self)@, old(hw)@, vector, break_flag),
    {
        let pc = self.registers.pc;
        let p = self.registers.p.value(break_flag);
        self.push((pc / 256) as u8);
        self.push((pc % 256) as u8);
        self.push(p);
        self.registers.pc = self.read_address(hw, vector);
        self.registers.p.interrupt = true;
    }

    /// Enters the IRQ/BRK handler through the vector at `$FFFE`.
    pub fn jump_to_interrupt<C: Cartridge>(&mut self, hw: &mut Hardware<C>, break_flag: bool)
        requires
            old(self).wf(),
            old(hw).wf(),
        ensures
            final(self).wf(),
            final(hw).wf(),
            (final(self)@, final(hw)@) == interrupt_spec::<C>(old(self)@, old(hw)@, 0xFFFE, break_flag),
    {
        self.interrupt(hw, 0xFFFE, break_flag);
    }

    /// Enters the NMI handler through the vector at `$FFFA`.
    pub fn raise_nmi<C: Cartridge>(&mut self, hw: &mut Hardware<C>)
        requires
            old(self).wf(),
            old(hw).wf(),
        ensures
            final(self).wf(),
            final(hw).wf(),
            (final(self)@, final(hw)@) == interrupt_spec::<C>(old(self)@, old(hw)@, 0xFFFA, false),
    {
        self.interrupt(hw, 0xFFFA, false);
    }
}

impl Cpu {
    /// Decodes the operand of an addressing mode from the latched operand bytes.
    pub fn decode_operand(&self, mode: AddrMode) -> (r: Operand)
        requires
            self.wf(),
        ensures
            r == operand_of(mode, self@),
    {
        match mode {
            AddrMode::Accumulator => Operand::Accumulator,
            AddrMode::Immediate | AddrMode::Relative => Operand::Value(self.opcode8),
            AddrMode::ZeroPage => Operand::Address(self.opcode8 as u16),
            AddrMode::ZeroPageX => Operand::Address(self.opcode8.wrapping_add(self.registers.x) as u16),
            AddrMode::ZeroPageY => Operand::Address(self.opcode8.wrapping_add(self.registers.y) as u16),
            AddrMode::Absolute | AddrMode::Indirect => Operand::Address(self.opcode16),
            AddrMode::AbsoluteX => Operand::Address(self.opcode16.wrapping_add(self.registers.x as u16)),
            AddrMode::AbsoluteY => Operand::Address(self.opcode16.wrapping_add(self.registers.y as u16)),
            AddrMode::IndirectX | AddrMode::IndirectY => self.decode_indirect(mode),
            AddrMode::Implied => Operand::Implied,
        }
    }

    /// The operand of the two zero-page indirect modes.
    fn decode_indirect(&self, mode: AddrMode) -> (r: Operand)
        requires
            self.wf(),
            mode == AddrMode::IndirectX || mode == AddrMode::IndirectY,
        ensures
            r == operand_of(mode, self@),
    {
        if let AddrMode::IndirectX = mode {
            Operand::Address(self.zero_page_address(self.opcode8.wrapping_add(self.registers.x)))
        } else {
            let base = self.zero_page_address(self.opcode8);
            Operand::Address(base.wrapping_add(self.registers.y as u16))
        }
    }

    /// The pointer stored in page 0 at `p` and `p + 1` (wrapping within the page).
    fn zero_page_address(&self, p: u8) -> (r: u16)
        requires
            self.wf(),
        ensures
            r == zero_page_pointer(self@.ram, p as int),
    {
        let lo = self.memory.read(p as u16) as u16;
        let hi = self.memory.read(p.wrapping_add(1) as u16) as u16;
        hi * 256 + lo
    }

    fn load<C: Cartridge>(&self, hw: &mut Hardware<C>, operand: Operand) -> (r: u8)
        requires
            self.wf(),
            old(hw).wf(),
        ensures
            final(hw).wf(),
            (r, final(hw)@) == load_spec::<C>(self@, old(hw)@, operand),
    {
        match operand {
            Operand::Accumulator => self.registers.a,
            Operand::Value(v) => v,
            Operand::Address(a) => self.read_memory(hw, a),
            Operand::Implied => 0,
        }
    }

    fn store<C: Cartridge>(&mut self, hw: &mut Hardware<C>, operand: Operand, value: u8)
        requires
            old(self).wf(),
            old(hw).wf(),
        ensures
            final(self).wf(),
            final(hw).wf(),
            (final(self)@, final(hw)@) == store_spec::<C>(old(self)@, old(hw)@, operand, value),
    {
        match operand {
            Operand::Accumulator => self.registers.a = value,
            Operand::Address(a) => self.write_memory(hw, a, value),
            _ => {},
        }
    }

    fn execute_modify<C: Cartridge>(&mut self, hw: &mut Hardware<C>, op: Operation, operand: Operand)
        requires
            old(self).wf(),
            old(hw).wf(),
        ensures
            final(self).wf(),
            final(hw).wf(),
            (final(self)@, final(hw)@) == modify_spec::<C>(op, old(self)@, old(hw)@, operand),
    {
        let v = self.load(hw, operand);
        let w = modify_value(&mut self.registers.p, op, v);
        self.store(hw, operand, w);
        if let Some(next) = follow_up_of(op) {
            let v2 = self.load(hw, operand);
            apply_read_op(&mut self.registers, next, v2);
        }
    }

    fn execute_branch(&mut self, op: Operation)
        requires
            old(self).wf(),
        ensures
            final(self).wf(),
            final(self)@ == with_registers(old(self)@, Registers {
                pc: if branch_taken(op, old(self)@.registers.p) {
                    add16(old(self)@.registers.pc, signed(old(self)@.opcode8))
                } else {
                    old(self)@.registers.pc
                },
                ..old(self)@.registers
            }),
    {
        if branch_condition(op, &self.registers.p) {
            let offset = self.opcode8;
            if offset >= 128 {
                self.registers.pc = self.registers.pc.wrapping_sub(256 - offset as u16);
            } else {
                self.registers.pc = self.registers.pc.wrapping_add(offset as u16);
            }
        }
    }

    fn execute_jmp_indirect<C: Cartridge>(&mut self, hw: &mut Hardware<C>)
        requires
            old(self).wf(),
            old(hw).wf(),
        ensures
            final(self).wf(),
            final(hw).wf(),
            (final(self)@, final(hw)@) == control_spec::<C>(Operation::Jmp, AddrMode::Indirect, old(self)@, old(hw)@),
    {
        let ptr = self.opcode16;
        let lo = self.read_memory(hw, ptr) as u16;
        let hi = self.read_memory(hw, (ptr / 256) * 256 + (ptr % 256 + 1) % 256) as u16;
        self.registers.pc = hi * 256 + lo;
    }

    fn execute_jsr(&mut self)
        requires
            old(self).wf(),
        ensures
            final(self).wf(),
            final(self)@ == ({
                let c = old(self)@;
                let ret = add16(c.registers.pc, -1);
                let c1 = push_spec(push_spec(c, (ret as int / 256) as u8), (ret as int % 256) as u8);
                with_registers(c1, Registers { pc: c.opcode16, ..c1.registers })
            }),
    {
        let ret = self.registers.pc.wrapping_sub(1);
        self.push((ret / 256) as u8);
        self.push((ret % 256) as u8);
        self.registers.pc = self.opcode16;
    }

    fn execute_rts(&mut self)
        requires
            old(self).wf(),
        ensures
            final(self).wf(),
            final(self)@ == ({
                let c = old(self)@;
                let c1 = pull_spec(c);
                let c2 = pull_spec(c1);
                let target = (pulled(c1) as int * 256 + pulled(c) as int) as u16;
                with_registers(c2, Registers { pc: add16(target, 1), ..c2.registers })
            }),
    {
        let lo = self.pull() as u16;
        let hi = self.pull() as u16;
        self.registers.pc = (hi * 256 + lo).wrapping_add(1);
    }

    fn execute_rti(&mut self)
        requires
            old(self).wf(),
        ensures
            final(self).wf(),
            final(self)@ == ({
                let c = old(self)@;
                let c1 = pull_spec(c);
                let c2 = pull_spec(c1);
                let c3 = pull_spec(c2);
                let target = (pulled(c2) as int * 256 + pulled(c1) as int) as u16;
                with_registers(c3, Registers { pc: target, p: unpack(pulled(c)), ..c3.registers })
            }),
    {
        let p = self.pull();
        let lo = self.pull() as u16;
        let hi = self.pull() as u16;
        self.registers.pc = hi * 256 + lo;
        self.registers.p.set_value(p);
    }

    fn execute_control<C: Cartridge>(&mut self, hw: &mut Hardware<C>, op: Operation, mode: AddrMode)
        requires
            old(self).wf(),
            old(hw).wf(),
        ensures
            final(self).wf(),
            final(hw).wf(),
            (final(self)@, final(hw)@) == control_spec::<C>(op, mode, old(self)@, old(hw)@),
    {
        match op {
            Operation::Jmp => {
                if let AddrMode::Indirect = mode {
                    self.execute_jmp_indirect(hw);
                } else {
                    self.registers.pc = self.opcode16;
                }
            },
            Operation::Jsr => self.execute_jsr(),
            Operation::Rts => self.execute_rts(),
            Operation::Rti => self.execute_rti(),
            Operation::Brk => self.jump_to_interrupt(hw, true),
            Operation::Pha => {
                let a = self.registers.a;
                self.push(a);
            },
            Operation::Php => {
                let p = self.registers.p.value(true);
                self.push(p);
            },
            Operation::Pla => {
                let v = self.pull();
                lda(&mut self.registers, v);
            },
            Operation::Plp => {
                let v = self.pull();
                self.registers.p.set_value(v);
            },
            _ => {},
        }
    }

    /// Executes a decoded instruction whose operand bytes are latched and with `PC`
    /// already past it.
    pub fn execute<C: Cartridge>(&mut self, hw: &mut Hardware<C>, i: Instruction)
        requires
            old(self).wf(),
            old(hw).wf(),
        ensures
            final(self).wf(),
            final(hw).wf(),
            (final(self)@, final(hw)@) == execute_spec::<C>(i, old(self)@, old(hw)@),
    {
        let op = i.operation;
        let operand = self.decode_operand(i.mode);
        if is_read(op) {
            let v = self.load(hw, operand);
            apply_read_op(&mut self.registers, op, v);
        } else if is_modify(op) {
            self.execute_modify(hw, op, operand);
        } else if is_store(op) {
            let value = match op {
                Operation::Sta => self.registers.a,
                Operation::Stx => self.registers.x,
                Operation::Sty => self.registers.y,
                _ => self.registers.a & self.registers.x,
            };
            self.store(hw, operand, value);
        } else if is_branch_op(op) {
            self.execute_branch(op);
        } else if is_implied(op) {
            apply_implied_op(&mut self.registers, op);
        } else {
            self.execute_control(hw, op, i.mode);
        }
    }

    /// Reads the instruction at `PC`, latches its operand bytes and moves `PC` past it.
    pub fn fetch<C: Cartridge>(&mut self, hw: &mut Hardware<C>) -> (r: Fetched)
        requires
            old(self).wf(),
            old(hw).wf(),
        ensures
            final(self).wf(),
            final(hw).wf(),
            (r, final(self)@, final(hw)@) == fetch_spec::<C>(old(self)@, old(hw)@),
    {
        let pc = self.registers.pc;
        let opcode = self.read_memory(hw, pc);
        let size = instruction_size(opcode);
        let mut lo: u8 = 0;
        let mut hi: u8 = 0;
        if size >= 2 {
            lo = self.read_memory(hw, pc.wrapping_add(1));
            if size == 2 {
                self.opcode8 = lo;
            } else {
                hi = self.read_memory(hw, pc.wrapping_add(2));
                self.opcode16 = (hi as u16) * 256 + lo as u16;
            }
        }
        self.registers.pc = pc.wrapping_add(size as u16);
        Fetched { pc, opcode, size, operand_lo: lo, operand_hi: hi }
    }

    /// One CPU step: fetch, decode and execute the instruction at `PC`. An opcode
    /// the core does not implement stops the step after its fetch.
    pub fn tick<C: Cartridge>(&mut self, hw: &mut Hardware<C>) -> (r: Result<(), UnknownOpcode>)
        requires
            old(self).wf(),
            old(hw).wf(),
        ensures
            final(self).wf(),
            final(hw).wf(),
            ({
                let (f, c1, hw1) = fetch_spec::<C>(old(self)@, old(hw)@);
                if decode(f.opcode).operation == Operation::Kil {
                    &&& r == Err::<(), UnknownOpcode>(UnknownOpcode { pc: f.pc, opcode: f.opcode })
                    &&& final(self)@ == c1
                    &&& final(hw)@ == hw1
                } else {
                    &&& r is Ok
                    &&& (final(self)@, final(hw)@) == execute_spec::<C>(decode(f.opcode), c1, hw1)
                }
            }),
    {
        let fetched = self.fetch(hw);
        let i = instruction(fetched.opcode);
        if let Operation::Kil = i.operation {
            return Err(UnknownOpcode { pc: fetched.pc, opcode: fetched.opcode });
        }
        self.execute(hw, i);
        Ok(())
    }

    /// `tick`, also returning the trace record of the instruction: `PC`, its bytes,
    /// its disassembly and the registers, all as they were before it ran.
    pub fn tick_traced<C: Cartridge>(&mut self, hw: &mut Hardware<C>) -> (r: Result<Vec<u8>, UnknownOpcode>)
        requires
            old(self).wf(),
            old(hw).wf(),
        ensures
            final(self).wf(),
            final(hw).wf(),
            ({
                let (f, c1, hw1) = fetch_spec::<C>(old(self)@, old(hw)@);
                if decode(f.opcode).operation == Operation::Kil {
                    &&& r == Err::<Vec<u8>, UnknownOpcode>(UnknownOpcode { pc: f.pc, opcode: f.opcode })
                    &&& final(self)@ == c1
                    &&& final(hw)@ == hw1
                } else {
                    &&& r is Ok
                    &&& r.unwrap()@ == trace_line_spec(
                        f.pc,
                        bytes_text(f.size, f.opcode, f.operand_lo, f.operand_hi),
                        disassembly(decode(f.opcode), c1.opcode8, c1.opcode16),
                        old(self)@.registers,
                    )
                    &&& (final(self)@, final(hw)@) == execute_spec::<C>(decode(f.opcode), c1, hw1)
                }
            }),
    {
        let before = self.registers;
        let fetched = self.fetch(hw);
        let i = instruction(fetched.opcode);
        if let Operation::Kil = i.operation {
            return Err(UnknownOpcode { pc: fetched.pc, opcode: fetched.opcode });
        }
        let text = disassemble(i, self.opcode8, self.opcode16);
        let line = trace_line(
            fetched.pc,
            fetched.size,
            fetched.opcode,
            fetched.operand_lo,
            fetched.operand_hi,
            &text,
            &before,
        );
        self.execute(hw, i);
        Ok(line)
    }
}

} // verus!
