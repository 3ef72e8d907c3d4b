use vstd::prelude::*;
use crate::alu::{
    adc, alr, and, anc, arr, asl, axs, bit, compare, dec, eor, inc, lda, ldx, ldy, lsr, ora, rol, ror, sbc,
    adc_spec, alr_spec, and_spec, anc_spec, arr_spec, asl_spec, axs_spec, bit_spec, compare_spec, dec_spec,
    eor_spec, inc_spec, load_a, load_x, load_y, lsr_spec, ora_spec, rol_spec, ror_spec, sbc_spec,
};
use crate::cartridge::Cartridge;
use crate::cpu::{
    CpuView, HardwareView, Registers, Status, add16, bus_read, bus_write,
    interrupt_spec, pack, sp_down, sp_up, stack_index, unpack,
};
use crate::decode::{AddrMode, Instruction, Operation, size_of};

verus! {

/// An operand after address decoding.
#[derive(Clone, Copy, Debug, PartialEq, Eq, Structural)]
pub enum Operand {
    Implied,
    Accumulator,
    Value(u8),
    Address(u16),
}

/// The little-endian pointer stored at zero-page address `p`; the high byte comes
/// from `p + 1` within page 0.
pub open spec fn zero_page_pointer(ram: Seq<u8>, p: int) -> u16 {
    (ram[p % 256] as int + ram[(p + 1) % 256] as int * 256) as u16
}

/// The operand an addressing mode yields from the fetched operand bytes, the index
/// registers and, for the indirect modes, the zero-page pointer.
pub open spec fn operand_of(mode: AddrMode, c: CpuView) -> Operand {
    let r = c.registers;
    match mode {
        AddrMode::Accumulator => Operand::Accumulator,
        AddrMode::Immediate | AddrMode::Relative => Operand::Value(c.opcode8),
        AddrMode::ZeroPage => Operand::Address(c.opcode8 as u16),
        AddrMode::ZeroPageX => Operand::Address(((c.opcode8 as int + r.x as int) % 256) as u16),
        AddrMode::ZeroPageY => Operand::Address(((c.opcode8 as int + r.y as int) % 256) as u16),
        AddrMode::Absolute | AddrMode::Indirect => Operand::Address(c.opcode16),
        AddrMode::AbsoluteX => Operand::Address(add16(c.opcode16, r.x as int)),
        AddrMode::AbsoluteY => Operand::Address(add16(c.opcode16, r.y as int)),
        AddrMode::IndirectX => Operand::Address(zero_page_pointer(c.ram, c.opcode8 as int + r.x as int)),
        AddrMode::IndirectY => Operand::Address(add16(zero_page_pointer(c.ram, c.opcode8 as int), r.y as int)),
        AddrMode::Implied => Operand::Implied,
    }
}

/// Reading an operand: the value and the hardware after the read.
pub open spec fn load_spec<C: Cartridge>(c: CpuView, hw: HardwareView<C::V>, operand: Operand) -> (u8, HardwareView<C::V>) {
    match operand {
        Operand::Accumulator => (c.registers.a, hw),
        Operand::Value(v) => (v, hw),
        Operand::Address(a) => bus_read::<C>(c.ram, hw, a),
        Operand::Implied => (0, hw),
    }
}

/// Writing an operand.
pub open spec fn store_spec<C: Cartridge>(c: CpuView, hw: HardwareView<C::V>, operand: Operand, value: u8) -> (CpuView, HardwareView<C::V>) {
    match operand {
        Operand::Accumulator => (CpuView { registers: Registers { a: value, ..c.registers }, ..c }, hw),
        Operand::Address(a) => {
            let (ram, hw1) = bus_write::<C>(c.ram, hw, a, value);
            (CpuView { ram: ram, ..c }, hw1)
        },
        _ => (c, hw),
    }
}

/// Operations that read their operand and change only registers.
pub open spec fn is_read_op(op: Operation) -> bool {
    matches!(op, Operation::Lda | Operation::Ldx | Operation::Ldy | Operation::Lax | Operation::And
        | Operation::Ora | Operation::Eor | Operation::Adc | Operation::Sbc | Operation::Cmp | Operation::Cpx
        | Operation::Cpy | Operation::Bit | Operation::Anc | Operation::Alr | Operation::Arr | Operation::Axs)
}

pub open spec fn read_op(op: Operation, r: Registers, v: u8) -> Registers {
    match op {
        Operation::Lda => load_a(r, v),
        Operation::Ldx => load_x(r, v),
        Operation::Ldy => load_y(r, v),
        Operation::Lax => load_x(load_a(r, v), v),
        Operation::And => and_spec(r, v),
        Operation::Ora => ora_spec(r, v),
        Operation::Eor => eor_spec(r, v),
        Operation::Adc => adc_spec(r, v),
        Operation::Sbc => sbc_spec(r, v),
        Operation::Cmp => Registers { p: compare_spec(r.p, r.a, v), ..r },
        Operation::Cpx => Registers { p: compare_spec(r.p, r.x, v), ..r },
        Operation::Cpy => Registers { p: compare_spec(r.p, r.y, v), ..r },
        Operation::Bit => bit_spec(r, v),
        Operation::Anc => anc_spec(r, v),
        Operation::Alr => alr_spec(r, v),
        Operation::Arr => arr_spec(r, v),
        Operation::Axs => axs_spec(r, v),
        _ => r,
    }
}

/// Read-modify-write operations, the undocumented combined ones included.
pub open spec fn is_modify_op(op: Operation) -> bool {
    matches!(op, Operation::Asl | Operation::Lsr | Operation::Rol | Operation::Ror | Operation::Inc
        | Operation::Dec | Operation::Slo | Operation::Sre | Operation::Rla | Operation::Rra | Operation::Dcp
        | Operation::Isb)
}

/// The new value and flags of the modify step.
pub open spec fn modify_op(op: Operation, p: Status, v: u8) -> (u8, Status) {
    match op {
        Operation::Asl | Operation::Slo => asl_spec(p, v),
        Operation::Lsr | Operation::Sre => lsr_spec(p, v),
        Operation::Rol | Operation::Rla => rol_spec(p, v),
        Operation::Ror | Operation::Rra => ror_spec(p, v),
        Operation::Inc | Operation::Isb => inc_spec(p, v),
        _ => dec_spec(p, v),
    }
}

/// The read operation a combined operation performs on the value it wrote:
/// SLO = ASL+ORA, SRE = LSR+EOR, RLA = ROL+AND, RRA = ROR+ADC, DCP = DEC+CMP,
/// ISB = INC+SBC.
pub open spec fn follow_up(op: Operation) -> Option<Operation> {
    match op {
        Operation::Slo => Some(Operation::Ora),
        Operation::Sre => Some(Operation::Eor),
        Operation::Rla => Some(Operation::And),
        Operation::Rra => Some(Operation::Adc),
        Operation::Dcp => Some(Operation::Cmp),
        Operation::Isb => Some(Operation::Sbc),
        _ => None,
    }
}

pub open spec fn modify_spec<C: Cartridge>(op: Operation, c: CpuView, hw: HardwareView<C::V>, operand: Operand) -> (CpuView, HardwareView<C::V>) {
    let (v, hw1) = load_spec::<C>(c, hw, operand);
    let (w, p) = modify_op(op, c.registers.p, v);
    let c1 = CpuView { registers: Registers { p: p, ..c.registers }, ..c };
    let (c2, hw2) = store_spec::<C>(c1, hw1, operand, w);
    match follow_up(op) {
        Some(next) => {
            let (v2, hw3) = load_spec::<C>(c2, hw2, operand);
            (CpuView { registers: read_op(next, c2.registers, v2), ..c2 }, hw3)
        },
        None => (c2, hw2),
    }
}

/// Operations that store a register value.
pub open spec fn is_store_op(op: Operation) -> bool {
    matches!(op, Operation::Sta | Operation::Stx | Operation::Sty | Operation::Sax)
}

pub open spec fn store_value(op: Operation, r: Registers) -> u8 {
    match op {
        Operation::Sta => r.a,
        Operation::Stx => r.x,
        Operation::Sty => r.y,
        _ => r.a & r.x,
    }
}

pub open spec fn is_branch(op: Operation) -> bool {
    matches!(op, Operation::Bcc | Operation::Bcs | Operation::Beq | Operation::Bmi | Operation::Bne
        | Operation::Bpl | Operation::Bvc | Operation::Bvs)
}

pub open spec fn branch_taken(op: Operation, p: Status) -> bool {
    match op {
        Operation::Bcc => !p.carry,
        Operation::Bcs => p.carry,
        Operation::Beq => p.zero,
        Operation::Bne => !p.zero,
        Operation::Bmi => p.negative,
        Operation::Bpl => !p.negative,
        Operation::Bvs => p.overflow,
        _ => !p.overflow,
    }
}

/// The operand byte read as a signed offset.
pub open spec fn signed(v: u8) -> int {
    if v >= 128 { v as int - 256 } else { v as int }
}

/// Register-only operations without operand.
pub open spec fn implied_op(op: Operation, r: Registers) -> Registers {
    match op {
        Operation::Clc => Registers { p: Status { carry: false, ..r.p }, ..r },
        Operation::Cld => Registers { p: Status { decimal: false, ..r.p }, ..r },
        Operation::Cli => Registers { p: Status { interrupt: false, ..r.p }, ..r },
        Operation::Clv => Registers { p: Status { overflow: false, ..r.p }, ..r },
        Operation::Sec => Registers { p: Status { carry: true, ..r.p }, ..r },
        Operation::Sed => Registers { p: Status { decimal: true, ..r.p }, ..r },
        Operation::Sei => Registers { p: Status { interrupt: true, ..r.p }, ..r },
        Operation::Tax => load_x(r, r.a),
        Operation::Tay => load_y(r, r.a),
        Operation::Tsx => load_x(r, r.s),
        Operation::Txa => load_a(r, r.x),
        Operation::Tya => load_a(r, r.y),
        Operation::Txs => Registers { s: r.x, ..r },
        Operation::Inx => load_x(r, ((r.x as int + 1) % 256) as u8),
        Operation::Iny => load_y(r, ((r.y as int + 1) % 256) as u8),
        Operation::Dex => load_x(r, ((r.x as int + 255) % 256) as u8),
        Operation::Dey => load_y(r, ((r.y as int + 255) % 256) as u8),
        _ => r,
    }
}

pub open spec fn is_implied_op(op: Operation) -> bool {
    matches!(op, Operation::Clc | Operation::Cld | Operation::Cli | Operation::Clv | Operation::Sec
        | Operation::Sed | Operation::Sei | Operation::Tax | Operation::Tay | Operation::Tsx | Operation::Txa
        | Operation::Tya | Operation::Txs | Operation::Inx | Operation::Iny | Operation::Dex | Operation::Dey
        | Operation::Nop | Operation::Kil)
}

pub open spec fn with_registers(c: CpuView, r: Registers) -> CpuView {
    CpuView { registers: r, ..c }
}

pub open spec fn push_spec(c: CpuView, v: u8) -> CpuView {
    CpuView {
        ram: c.ram.update(stack_index(c.registers.s), v),
        registers: Registers { s: sp_down(c.registers.s), ..c.registers },
        ..c
    }
}

/// The value a pull returns.
pub open spec fn pulled(c: CpuView) -> u8 {
    c.ram[stack_index(sp_up(c.registers.s))]
}

pub open spec fn pull_spec(c: CpuView) -> CpuView {
    with_registers(c, Registers { s: sp_up(c.registers.s), ..c.registers })
}

/// Stack and control-flow operations.
pub open spec fn control_spec<C: Cartridge>(op: Operation, mode: AddrMode, c: CpuView, hw: HardwareView<C::V>) -> (CpuView, HardwareView<C::V>) {
    let r = c.registers;
    match op {
        Operation::Jmp => if mode == AddrMode::Indirect {
            let ptr = c.opcode16;
            let (lo, hw1) = bus_read::<C>(c.ram, hw, ptr);
            let hi_addr = (ptr as int / 256 * 256 + (ptr as int % 256 + 1) % 256) as u16;
            let (hi, hw2) = bus_read::<C>(c.ram, hw1, hi_addr);
            (with_registers(c, Registers { pc: (hi as int * 256 + lo as int) as u16, ..r }), hw2)
        } else {
            (with_registers(c, Registers { pc: c.opcode16, ..r }), hw)
        },
        Operation::Jsr => {
            let ret = add16(r.pc, -1);
            let c1 = push_spec(push_spec(c, (ret as int / 256) as u8), (ret as int % 256) as u8);
            (with_registers(c1, Registers { pc: c.opcode16, ..c1.registers }), hw)
        },
        Operation::Rts => {
            let c1 = pull_spec(c);
            let c2 = pull_spec(c1);
            let target = (pulled(c1) as int * 256 + pulled(c) as int) as u16;
            (with_registers(c2, Registers { pc: add16(target, 1), ..c2.registers }), hw)
        },
        Operation::Rti => {
            let c1 = pull_spec(c);
            let c2 = pull_spec(c1);
            let c3 = pull_spec(c2);
            let target = (pulled(c2) as int * 256 + pulled(c1) as int) as u16;
            (with_registers(c3, Registers { pc: target, p: unpack(pulled(c)), ..c3.registers }), hw)
        },
        Operation::Brk => interrupt_spec::<C>(c, hw, 0xFFFE, true),
        Operation::Pha => (push_spec(c, r.a), hw),
        Operation::Php => (push_spec(c, pack(r.p, true)), hw),
        Operation::Pla => {
            let c1 = pull_spec(c);
            (with_registers(c1, load_a(c1.registers, pulled(c))), hw)
        },
        Operation::Plp => {
            let c1 = pull_spec(c);
            (with_registers(c1, Registers { p: unpack(pulled(c)), ..c1.registers }), hw)
        },
        _ => (c, hw),
    }
}

/// Executing a decoded instruction, its operand bytes already fetched and `PC`
/// already past them.
pub open spec fn execute_spec<C: Cartridge>(i: Instruction, c: CpuView, hw: HardwareView<C::V>) -> (CpuView, HardwareView<C::V>) {
    let op = i.operation;
    let operand = operand_of(i.mode, c);
    if is_read_op(op) {
        let (v, hw1) = load_spec::<C>(c, hw, operand);
        (with_registers(c, read_op(op, c.registers, v)), hw1)
    } else if is_modify_op(op) {
        modify_spec::<C>(op, c, hw, operand)
    } else if is_store_op(op) {
        store_spec::<C>(c, hw, operand, store_value(op, c.registers))
    } else if is_branch(op) {
        let pc = if branch_taken(op, c.registers.p) {
            add16(c.registers.pc, signed(c.opcode8))
        } else {
            c.registers.pc
        };
        (with_registers(c, Registers { pc: pc, ..c.registers }), hw)
    } else if is_implied_op(op) {
        (with_registers(c, implied_op(op, c.registers)), hw)
    } else {
        control_spec::<C>(op, i.mode, c, hw)
    }
}

/// Fetching the instruction at `PC`: the bytes read, the CPU with the operand bytes
/// latched (`opcode8` for two-byte, `opcode16` for three-byte instructions) and
/// `PC` past the instruction, and the hardware after the reads.
pub open spec fn fetch_spec<C: Cartridge>(c: CpuView, hw: HardwareView<C::V>) -> (Fetched, CpuView, HardwareView<C::V>) {
    let pc = c.registers.pc;
    let (op, hw1) = bus_read::<C>(c.ram, hw, pc);
    let size = size_of(op);
    let next = Registers { pc: add16(pc, size as int), ..c.registers };
    if size == 1 {
        (Fetched { pc, opcode: op, size, operand_lo: 0, operand_hi: 0 }, with_registers(c, next), hw1)
    } else {
        let (lo, hw2) = bus_read::<C>(c.ram, hw1, add16(pc, 1));
        if size == 2 {
            (
                Fetched { pc, opcode: op, size, operand_lo: lo, operand_hi: 0 },
                CpuView { registers: next, opcode8: lo, ..c },
                hw2,
            )
        } else {
            let (hi, hw3) = bus_read::<C>(c.ram, hw2, add16(pc, 2));
            (
                Fetched { pc, opcode: op, size, operand_lo: lo, operand_hi: hi },
                CpuView { registers: next, opcode16: (hi as int * 256 + lo as int) as u16, ..c },
                hw3,
            )
        }
    }
}

/// The fetcher consumes exactly the declared size of the instruction: one opcode
/// byte and then, for sizes 2 and 3, the bytes at `PC + 1` and `PC + 2`, leaving
/// `PC` that many bytes further on.
pub proof fn lemma_fetch_consumes_size<C: Cartridge>(c: CpuView, hw: HardwareView<C::V>)
    ensures
        ({
            let (f, c1, hw1) = fetch_spec::<C>(c, hw);
            let (op, hw_a) = bus_read::<C>(c.ram, hw, c.registers.pc);
            let (lo, hw_b) = bus_read::<C>(c.ram, hw_a, add16(c.registers.pc, 1));
            let (hi, hw_c) = bus_read::<C>(c.ram, hw_b, add16(c.registers.pc, 2));
            &&& f.opcode == op
            &&& f.size == size_of(op)
            &&& 1 <= f.size <= 3
            &&& c1.registers.pc == add16(c.registers.pc, f.size as int)
            &&& f.size >= 2 ==> f.operand_lo == lo
            &&& f.size == 2 ==> c1.opcode8 == lo && hw1 == hw_b
            &&& f.size == 3 ==> f.operand_hi == hi && c1.opcode16 == (hi as int * 256 + lo as int) as u16
                && hw1 == hw_c
            &&& f.size == 1 ==> hw1 == hw_a
        }),
{
    crate::decode::lemma_instruction_size(bus_read::<C>(c.ram, hw, c.registers.pc).0);
}

/// The instruction bytes a fetch read.
#[derive(Clone, Copy, Debug, PartialEq, Eq, Structural)]
pub struct Fetched {
    pub pc: u16,
    pub opcode: u8,
    pub size: u8,
    pub operand_lo: u8,
    pub operand_hi: u8,
}

/// An opcode this core does not execute, and where it was found.
#[derive(Clone, Copy, Debug, PartialEq, Eq, Structural)]
pub struct UnknownOpcode {
    pub pc: u16,
    pub opcode: u8,
}

pub(crate) fn is_read(op: Operation) -> (r: bool)
    ensures
        r == is_read_op(op),
{
    matches!(op, Operation::Lda | Operation::Ldx | Operation::Ldy | Operation::Lax | Operation::And
        | Operation::Ora | Operation::Eor | Operation::Adc | Operation::Sbc | Operation::Cmp | Operation::Cpx
        | Operation::Cpy | Operation::Bit | Operation::Anc | Operation::Alr | Operation::Arr | Operation::Axs)
}

pub(crate) fn is_modify(op: Operation) -> (r: bool)
    ensures
        r == is_modify_op(op),
{
    matches!(op, Operation::Asl | Operation::Lsr | Operation::Rol | Operation::Ror | Operation::Inc
        | Operation::Dec | Operation::Slo | Operation::Sre | Operation::Rla | Operation::Rra | Operation::Dcp
        | Operation::Isb)
}

pub(crate) fn is_store(op: Operation) -> (r: bool)
    ensures
        r == is_store_op(op),
{
    matches!(op, Operation::Sta | Operation::Stx | Operation::Sty | Operation::Sax)
}

pub(crate) fn is_branch_op(op: Operation) -> (r: bool)
    ensures
        r == is_branch(op),
{
    matches!(op, Operation::Bcc | Operation::Bcs | Operation::Beq | Operation::Bmi | Operation::Bne
        | Operation::Bpl | Operation::Bvc | Operation::Bvs)
}

pub(crate) fn is_implied(op: Operation) -> (r: bool)
    ensures
        r == is_implied_op(op),
{
    matches!(op, Operation::Clc | Operation::Cld | Operation::Cli | Operation::Clv | Operation::Sec
        | Operation::Sed | Operation::Sei | Operation::Tax | Operation::Tay | Operation::Tsx | Operation::Txa
        | Operation::Tya | Operation::Txs | Operation::Inx | Operation::Iny | Operation::Dex | Operation::Dey
        | Operation::Nop | Operation::Kil)
}

/// Applies a read operation to the registers.
pub(crate) fn apply_read_op(r: &mut Registers, op: Operation, v: u8)
    ensures
        *final(r) == read_op(op, *old(r), v),
{
    match op {
        Operation::Lda => lda(r, v),
        Operation::Ldx => ldx(r, v),
        Operation::Ldy => ldy(r, v),
        Operation::Lax => {
            lda(r, v);
            ldx(r, v);
        },
        Operation::And => and(r, v),
        Operation::Ora => ora(r, v),
        Operation::Eor => eor(r, v),
        Operation::Adc => adc(r, v),
        Operation::Sbc => sbc(r, v),
        Operation::Cmp => {
            let a = r.a;
            compare(&mut r.p, a, v);
        },
        Operation::Cpx => {
            let x = r.x;
            compare(&mut r.p, x, v);
        },
        Operation::Cpy => {
            let y = r.y;
            compare(&mut r.p, y, v);
        },
        Operation::Bit => bit(r, v),
        Operation::Anc => anc(r, v),
        Operation::Alr => alr(r, v),
        Operation::Arr => arr(r, v),
        Operation::Axs => axs(r, v),
        _ => {},
    }
}

/// The modify step of a read-modify-write operation.
pub(crate) fn modify_value(p: &mut Status, op: Operation, v: u8) -> (r: u8)
    ensures
        (r, *final(p)) == modify_op(op, *old(p), v),
{
    match op {
        Operation::Asl | Operation::Slo => asl(p, v),
        Operation::Lsr | Operation::Sre => lsr(p, v),
        Operation::Rol | Operation::Rla => rol(p, v),
        Operation::Ror | Operation::Rra => ror(p, v),
        Operation::Inc | Operation::Isb => inc(p, v),
        _ => dec(p, v),
    }
}

pub(crate) fn follow_up_of(op: Operation) -> (r: Option<Operation>)
    ensures
        r == follow_up(op),
{
    match op {
        Operation::Slo => Some(Operation::Ora),
        Operation::Sre => Some(Operation::Eor),
        Operation::Rla => Some(Operation::And),
        Operation::Rra => Some(Operation::Adc),
        Operation::Dcp => Some(Operation::Cmp),
        Operation::Isb => Some(Operation::Sbc),
        _ => None,
    }
}

/// Applies a register-only operation.
pub(crate) fn apply_implied_op(r: &mut Registers, op: Operation)
    ensures
        *final(r) == implied_op(op, *old(r)),
{
    match op {
        Operation::Clc => r.p.carry = false,
        Operation::Cld => r.p.decimal = false,
        Operation::Cli => r.p.interrupt = false,
        Operation::Clv => r.p.overflow = false,
        Operation::Sec => r.p.carry = true,
        Operation::Sed => r.p.decimal = true,
        Operation::Sei => r.p.interrupt = true,
        Operation::Tax => {
            let v = r.a;
            ldx(r, v);
        },
        Operation::Tay => {
            let v = r.a;
            ldy(r, v);
        },
        Operation::Tsx => {
            let v = r.s;
            ldx(r, v);
        },
        Operation::Txa => {
            let v = r.x;
            lda(r, v);
        },
        Operation::Tya => {
            let v = r.y;
            lda(r, v);
        },
        Operation::Txs => r.s = r.x,
        Operation::Inx => {
            let v = r.x.wrapping_add(1);
            ldx(r, v);
        },
        Operation::Iny => {
            let v = r.y.wrapping_add(1);
            ldy(r, v);
        },
        Operation::Dex => {
            let v = r.x.wrapping_sub(1);
            ldx(r, v);
        },
        Operation::Dey => {
            let v = r.y.wrapping_sub(1);
            ldy(r, v);
        },
        _ => {},
    }
}

/// Whether a branch operation's condition holds.
pub(crate) fn branch_condition(op: Operation, p: &Status) -> (r: bool)
    ensures
        r == branch_taken(op, *p),
{
    match op {
        Operation::Bcc => !p.carry,
        Operation::Bcs => p.carry,
        Operation::Beq => p.zero,
        Operation::Bne => !p.zero,
        Operation::Bmi => p.negative,
        Operation::Bpl => !p.negative,
        Operation::Bvs => p.overflow,
        _ => !p.overflow,
    }
}

} // verus!
