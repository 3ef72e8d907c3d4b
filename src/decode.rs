use vstd::prelude::*;

verus! {

/// What an instruction does. `Kil` stands for the opcodes this core does not
/// implement, the processor-halting ones among them.
#[derive(Clone, Copy, Debug, PartialEq, Eq, Structural)]
pub enum Operation {
    Adc,
    Alr,
    Anc,
    And,
    Arr,
    Asl,
    Axs,
    Bcc,
    Bcs,
    Beq,
    Bit,
    Bmi,
    Bne,
    Bpl,
    Brk,
    Bvc,
    Bvs,
    Clc,
    Cld,
    Cli,
    Clv,
    Cmp,
    Cpx,
    Cpy,
    Dcp,
    Dec,
    Dex,
    Dey,
    Eor,
    Inc,
    Inx,
    Iny,
    Isb,
    Jmp,
    Jsr,
    Kil,
    Lax,
    Lda,
    Ldx,
    Ldy,
    Lsr,
    Nop,
    Ora,
    Pha,
    Php,
    Pla,
    Plp,
    Rla,
    Rol,
    Ror,
    Rra,
    Rti,
    Rts,
    Sax,
    Sbc,
    Sec,
    Sed,
    Sei,
    Slo,
    Sre,
    Sta,
    Stx,
    Sty,
    Tax,
    Tay,
    Tsx,
    Txa,
    Txs,
    Tya,
}

/// Where an instruction finds its operand.
#[derive(Clone, Copy, Debug, PartialEq, Eq, Structural)]
pub enum AddrMode {
    Implied,
    Accumulator,
    Immediate,
    ZeroPage,
    ZeroPageX,
    ZeroPageY,
    Absolute,
    AbsoluteX,
    AbsoluteY,
    IndirectX,
    IndirectY,
    Indirect,
    Relative,
}

/// An entry of the opcode table: an operation with its addressing mode.
#[derive(Clone, Copy, Debug, PartialEq, Eq, Structural)]
pub struct Instruction {
    pub operation: Operation,
    pub mode: AddrMode,
}

pub open spec fn ins(operation: Operation, mode: AddrMode) -> Instruction {
    Instruction { operation, mode }
}

/// The opcode table.
pub open spec fn decode(opcode: u8) -> Instruction {
    match opcode {
        0x00u8 => ins(Operation::Brk, AddrMode::Implied),
        0x01u8 => ins(Operation::Ora, AddrMode::IndirectX),
        0x02u8 => ins(Operation::Kil, AddrMode::Implied),
        0x03u8 => ins(Operation::Slo, AddrMode::IndirectX),
        0x04u8 => ins(Operation::Nop, AddrMode::ZeroPage),
        0x05u8 => ins(Operation::Ora, AddrMode::ZeroPage),
        0x06u8 => ins(Operation::Asl, AddrMode::ZeroPage),
        0x07u8 => ins(Operation::Slo, AddrMode::ZeroPage),
        0x08u8 => ins(Operation::Php, AddrMode::Implied),
        0x09u8 => ins(Operation::Ora, AddrMode::Immediate),
        0x0Au8 => ins(Operation::Asl, AddrMode::Accumulator),
        0x0Bu8 => ins(Operation::Anc, AddrMode::Immediate),
        0x0Cu8 => ins(Operation::Nop, AddrMode::Absolute),
        0x0Du8 => ins(Operation::Ora, AddrMode::Absolute),
        0x0Eu8 => ins(Operation::Asl, AddrMode::Absolute),
        0x0Fu8 => ins(Operation::Slo, AddrMode::Absolute),
        0x10u8 => ins(Operation::Bpl, AddrMode::Relative),
        0x11u8 => ins(Operation::Ora, AddrMode::IndirectY),
        0x12u8 => ins(Operation::Kil, AddrMode::Implied),
        0x13u8 => ins(Operation::Slo, AddrMode::IndirectY),
        0x14u8 => ins(Operation::Nop, AddrMode::ZeroPageX),
        0x15u8 => ins(Operation::Ora, AddrMode::ZeroPageX),
        0x16u8 => ins(Operation::Asl, AddrMode::ZeroPageX),
        0x17u8 => ins(Operation::Slo, AddrMode::ZeroPageX),
        0x18u8 => ins(Operation::Clc, AddrMode::Implied),
        0x19u8 => ins(Operation::Ora, AddrMode::AbsoluteY),
        0x1Au8 => ins(Operation::Nop, AddrMode::Implied),
        0x1Bu8 => ins(Operation::Slo, AddrMode::AbsoluteY),
        0x1Cu8 => ins(Operation::Nop, AddrMode::AbsoluteX),
        0x1Du8 => ins(Operation::Ora, AddrMode::AbsoluteX),
        0x1Eu8 => ins(Operation::Asl, AddrMode::AbsoluteX),
        0x1Fu8 => ins(Operation::Slo, AddrMode::AbsoluteX),
        0x20u8 => ins(Operation::Jsr, AddrMode::Absolute),
        0x21u8 => ins(Operation::And, AddrMode::IndirectX),
        0x22u8 => ins(Operation::Kil, AddrMode::Implied),
        0x23u8 => ins(Operation::Rla, AddrMode::IndirectX),
        0x24u8 => ins(Operation::Bit, AddrMode::ZeroPage),
        0x25u8 => ins(Operation::And, AddrMode::ZeroPage),
        0x26u8 => ins(Operation::Rol, AddrMode::ZeroPage),
        0x27u8 => ins(Operation::Rla, AddrMode::ZeroPage),
        0x28u8 => ins(Operation::Plp, AddrMode::Implied),
        0x29u8 => ins(Operation::And, AddrMode::Immediate),
        0x2Au8 => ins(Operation::Rol, AddrMode::Accumulator),
        0x2Bu8 => ins(Operation::Anc, AddrMode::Immediate),
        0x2Cu8 => ins(Operation::Bit, AddrMode::Absolute),
        0x2Du8 => ins(Operation::And, AddrMode::Absolute),
        0x2Eu8 => ins(Operation::Rol, AddrMode::Absolute),
        0x2Fu8 => ins(Operation::Rla, AddrMode::Absolute),
        0x30u8 => ins(Operation::Bmi, AddrMode::Relative),
        0x31u8 => ins(Operation::And, AddrMode::IndirectY),
        0x32u8 => ins(Operation::Kil, AddrMode::Implied),
        0x33u8 => ins(Operation::Rla, AddrMode::IndirectY),
        0x34u8 => ins(Operation::Nop, AddrMode::ZeroPageX),
        0x35u8 => ins(Operation::And, AddrMode::ZeroPageX),
        0x36u8 => ins(Operation::Rol, AddrMode::ZeroPageX),
        0x37u8 => ins(Operation::Rla, AddrMode::ZeroPageX),
        0x38u8 => ins(Operation::Sec, AddrMode::Implied),
        0x39u8 => ins(Operation::And, AddrMode::AbsoluteY),
        0x3Au8 => ins(Operation::Nop, AddrMode::Implied),
        0x3Bu8 => ins(Operation::Rla, AddrMode::AbsoluteY),
        0x3Cu8 => ins(Operation::Nop, AddrMode::AbsoluteX),
        0x3Du8 => ins(Operation::And, AddrMode::AbsoluteX),
        0x3Eu8 => ins(Operation::Rol, AddrMode::AbsoluteX),
        0x3Fu8 => ins(Operation::Rla, AddrMode::AbsoluteX),
        0x40u8 => ins(Operation::Rti, AddrMode::Implied),
        0x41u8 => ins(Operation::Eor, AddrMode::IndirectX),
        0x42u8 => ins(Operation::Kil, AddrMode::Implied),
        0x43u8 => ins(Operation::Sre, AddrMode::IndirectX),
        0x44u8 => ins(Operation::Nop, AddrMode::ZeroPage),
        0x45u8 => ins(Operation::Eor, AddrMode::ZeroPage),
        0x46u8 => ins(Operation::Lsr, AddrMode::ZeroPage),
        0x47u8 => ins(Operation::Sre, AddrMode::ZeroPage),
        0x48u8 => ins(Operation::Pha, AddrMode::Implied),
        0x49u8 => ins(Operation::Eor, AddrMode::Immediate),
        0x4Au8 => ins(Operation::Lsr, AddrMode::Accumulator),
        0x4Bu8 => ins(Operation::Alr, AddrMode::Immediate),
        0x4Cu8 => ins(Operation::Jmp, AddrMode::Absolute),
        0x4Du8 => ins(Operation::Eor, AddrMode::Absolute),
        0x4Eu8 => ins(Operation::Lsr, AddrMode::Absolute),
        0x4Fu8 => ins(Operation::Sre, AddrMode::Absolute),
        0x50u8 => ins(Operation::Bvc, AddrMode::Relative),
        0x51u8 => ins(Operation::Eor, AddrMode::IndirectY),
        0x52u8 => ins(Operation::Kil, AddrMode::Implied),
        0x53u8 => ins(Operation::Sre, AddrMode::IndirectY),
        0x54u8 => ins(Operation::Nop, AddrMode::ZeroPageX),
        0x55u8 => ins(Operation::Eor, AddrMode::ZeroPageX),
        0x56u8 => ins(Operation::Lsr, AddrMode::ZeroPageX),
        0x57u8 => ins(Operation::Sre, AddrMode::ZeroPageX),
        0x58u8 => ins(Operation::Cli, AddrMode::Implied),
        0x59u8 => ins(Operation::Eor, AddrMode::AbsoluteY),
        0x5Au8 => ins(Operation::Nop, AddrMode::Implied),
        0x5Bu8 => ins(Operation::Sre, AddrMode::AbsoluteY),
        0x5Cu8 => ins(Operation::Nop, AddrMode::AbsoluteX),
        0x5Du8 => ins(Operation::Eor, AddrMode::AbsoluteX),
        0x5Eu8 => ins(Operation::Lsr, AddrMode::AbsoluteX),
        0x5Fu8 => ins(Operation::Sre, AddrMode::AbsoluteX),
        0x60u8 => ins(Operation::Rts, AddrMode::Implied),
        0x61u8 => ins(Operation::Adc, AddrMode::IndirectX),
        0x62u8 => ins(Operation::Kil, AddrMode::Implied),
        0x63u8 => ins(Operation::Rra, AddrMode::IndirectX),
        0x64u8 => ins(Operation::Nop, AddrMode::ZeroPage),
        0x65u8 => ins(Operation::Adc, AddrMode::ZeroPage),
        0x66u8 => ins(Operation::Ror, AddrMode::ZeroPage),
        0x67u8 => ins(Operation::Rra, AddrMode::ZeroPage),
        0x68u8 => ins(Operation::Pla, AddrMode::Implied),
        0x69u8 => ins(Operation::Adc, AddrMode::Immediate),
        0x6Au8 => ins(Operation::Ror, AddrMode::Accumulator),
        0x6Bu8 => ins(Operation::Arr, AddrMode::Immediate),
        0x6Cu8 => ins(Operation::Jmp, AddrMode::Indirect),
        0x6Du8 => ins(Operation::Adc, AddrMode::Absolute),
        0x6Eu8 => ins(Operation::Ror, AddrMode::Absolute),
        0x6Fu8 => ins(Operation::Rra, AddrMode::Absolute),
        0x70u8 => ins(Operation::Bvs, AddrMode::Relative),
        0x71u8 => ins(Operation::Adc, AddrMode::IndirectY),
        0x72u8 => ins(Operation::Kil, AddrMode::Implied),
        0x73u8 => ins(Operation::Rra, AddrMode::IndirectY),
        0x74u8 => ins(Operation::Nop, AddrMode::ZeroPageX),
        0x75u8 => ins(Operation::Adc, AddrMode::ZeroPageX),
        0x76u8 => ins(Operation::Ror, AddrMode::ZeroPageX),
        0x77u8 => ins(Operation::Rra, AddrMode::ZeroPageX),
        0x78u8 => ins(Operation::Sei, AddrMode::Implied),
        0x79u8 => ins(Operation::Adc, AddrMode::AbsoluteY),
        0x7Au8 => ins(Operation::Nop, AddrMode::Implied),
        0x7Bu8 => ins(Operation::Rra, AddrMode::AbsoluteY),
        0x7Cu8 => ins(Operation::Nop, AddrMode::AbsoluteX),
        0x7Du8 => ins(Operation::Adc, AddrMode::AbsoluteX),
        0x7Eu8 => ins(Operation::Ror, AddrMode::AbsoluteX),
        0x7Fu8 => ins(Operation::Rra, AddrMode::AbsoluteX),
        0x80u8 => ins(Operation::Nop, AddrMode::Immediate),
        0x81u8 => ins(Operation::Sta, AddrMode::IndirectX),
        0x82u8 => ins(Operation::Nop, AddrMode::Immediate),
        0x83u8 => ins(Operation::Sax, AddrMode::IndirectX),
        0x84u8 => ins(Operation::Sty, AddrMode::ZeroPage),
        0x85u8 => ins(Operation::Sta, AddrMode::ZeroPage),
        0x86u8 => ins(Operation::Stx, AddrMode::ZeroPage),
        0x87u8 => ins(Operation::Sax, AddrMode::ZeroPage),
        0x88u8 => ins(Operation::Dey, AddrMode::Implied),
        0x89u8 => ins(Operation::Nop, AddrMode::Immediate),
        0x8Au8 => ins(Operation::Txa, AddrMode::Implied),
        0x8Bu8 => ins(Operation::Kil, AddrMode::Implied),
        0x8Cu8 => ins(Operation::Sty, AddrMode::Absolute),
        0x8Du8 => ins(Operation::Sta, AddrMode::Absolute),
        0x8Eu8 => ins(Operation::Stx, AddrMode::Absolute),
        0x8Fu8 => ins(Operation::Sax, AddrMode::Absolute),
        0x90u8 => ins(Operation::Bcc, AddrMode::Relative),
        0x91u8 => ins(Operation::Sta, AddrMode::IndirectY),
        0x92u8 => ins(Operation::Kil, AddrMode::Implied),
        0x93u8 => ins(Operation::Kil, AddrMode::Implied),
        0x94u8 => ins(Operation::Sty, AddrMode::ZeroPageX),
        0x95u8 => ins(Operation::Sta, AddrMode::ZeroPageX),
        0x96u8 => ins(Operation::Stx, AddrMode::ZeroPageY),
        0x97u8 => ins(Operation::Sax, AddrMode::ZeroPageY),
        0x98u8 => ins(Operation::Tya, AddrMode::Implied),
        0x99u8 => ins(Operation::Sta, AddrMode::AbsoluteY),
        0x9Au8 => ins(Operation::Txs, AddrMode::Implied),
        0x9Bu8 => ins(Operation::Kil, AddrMode::Implied),
        0x9Cu8 => ins(Operation::Kil, AddrMode::Implied),
        0x9Du8 => ins(Operation::Sta, AddrMode::AbsoluteX),
        0x9Eu8 => ins(Operation::Kil, AddrMode::Implied),
        0x9Fu8 => ins(Operation::Kil, AddrMode::Implied),
        0xA0u8 => ins(Operation::Ldy, AddrMode::Immediate),
        0xA1u8 => ins(Operation::Lda, AddrMode::IndirectX),
        0xA2u8 => ins(Operation::Ldx, AddrMode::Immediate),
        0xA3u8 => ins(Operation::Lax, AddrMode::IndirectX),
        0xA4u8 => ins(Operation::Ldy, AddrMode::ZeroPage),
        0xA5u8 => ins(Operation::Lda, AddrMode::ZeroPage),
        0xA6u8 => ins(Operation::Ldx, AddrMode::ZeroPage),
        0xA7u8 => ins(Operation::Lax, AddrMode::ZeroPage),
        0xA8u8 => ins(Operation::Tay, AddrMode::Implied),
        0xA9u8 => ins(Operation::Lda, AddrMode::Immediate),
        0xAAu8 => ins(Operation::Tax, AddrMode::Implied),
        0xABu8 => ins(Operation::Lax, AddrMode::Immediate),
        0xACu8 => ins(Operation::Ldy, AddrMode::Absolute),
        0xADu8 => ins(Operation::Lda, AddrMode::Absolute),
        0xAEu8 => ins(Operation::Ldx, AddrMode::Absolute),
        0xAFu8 => ins(Operation::Lax, AddrMode::Absolute),
        0xB0u8 => ins(Operation::Bcs, AddrMode::Relative),
        0xB1u8 => ins(Operation::Lda, AddrMode::IndirectY),
        0xB2u8 => ins(Operation::Kil, AddrMode::Implied),
        0xB3u8 => ins(Operation::Lax, AddrMode::IndirectY),
        0xB4u8 => ins(Operation::Ldy, AddrMode::ZeroPageX),
        0xB5u8 => ins(Operation::Lda, AddrMode::ZeroPageX),
        0xB6u8 => ins(Operation::Ldx, AddrMode::ZeroPageY),
        0xB7u8 => ins(Operation::Lax, AddrMode::ZeroPageY),
        0xB8u8 => ins(Operation::Clv, AddrMode::Implied),
        0xB9u8 => ins(Operation::Lda, AddrMode::AbsoluteY),
        0xBAu8 => ins(Operation::Tsx, AddrMode::Implied),
        0xBBu8 => ins(Operation::Kil, AddrMode::Implied),
        0xBCu8 => ins(Operation::Ldy, AddrMode::AbsoluteX),
        0xBDu8 => ins(Operation::Lda, AddrMode::AbsoluteX),
        0xBEu8 => ins(Operation::Ldx, AddrMode::AbsoluteY),
        0xBFu8 => ins(Operation::Lax, AddrMode::AbsoluteY),
        0xC0u8 => ins(Operation::Cpy, AddrMode::Immediate),
        0xC1u8 => ins(Operation::Cmp, AddrMode::IndirectX),
        0xC2u8 => ins(Operation::Nop, AddrMode::Immediate),
        0xC3u8 => ins(Operation::Dcp, AddrMode::IndirectX),
        0xC4u8 => ins(Operation::Cpy, AddrMode::ZeroPage),
        0xC5u8 => ins(Operation::Cmp, AddrMode::ZeroPage),
        0xC6u8 => ins(Operation::Dec, AddrMode::ZeroPage),
        0xC7u8 => ins(Operation::Dcp, AddrMode::ZeroPage),
        0xC8u8 => ins(Operation::Iny, AddrMode::Implied),
        0xC9u8 => ins(Operation::Cmp, AddrMode::Immediate),
        0xCAu8 => ins(Operation::Dex, AddrMode::Implied),
        0xCBu8 => ins(Operation::Axs, AddrMode::Immediate),
        0xCCu8 => ins(Operation::Cpy, AddrMode::Absolute),
        0xCDu8 => ins(Operation::Cmp, AddrMode::Absolute),
        0xCEu8 => ins(Operation::Dec, AddrMode::Absolute),
        0xCFu8 => ins(Operation::Dcp, AddrMode::Absolute),
        0xD0u8 => ins(Operation::Bne, AddrMode::Relative),
        0xD1u8 => ins(Operation::Cmp, AddrMode::IndirectY),
        0xD2u8 => ins(Operation::Kil, AddrMode::Implied),
        0xD3u8 => ins(Operation::Dcp, AddrMode::IndirectY),
        0xD4u8 => ins(Operation::Nop, AddrMode::ZeroPageX),
        0xD5u8 => ins(Operation::Cmp, AddrMode::ZeroPageX),
        0xD6u8 => ins(Operation::Dec, AddrMode::ZeroPageX),
        0xD7u8 => ins(Operation::Dcp, AddrMode::ZeroPageX),
        0xD8u8 => ins(Operation::Cld, AddrMode::Implied),
        0xD9u8 => ins(Operation::Cmp, AddrMode::AbsoluteY),
        0xDAu8 => ins(Operation::Nop, AddrMode::Implied),
        0xDBu8 => ins(Operation::Dcp, AddrMode::AbsoluteY),
        0xDCu8 => ins(Operation::Nop, AddrMode::AbsoluteX),
        0xDDu8 => ins(Operation::Cmp, AddrMode::AbsoluteX),
        0xDEu8 => ins(Operation::Dec, AddrMode::AbsoluteX),
        0xDFu8 => ins(Operation::Dcp, AddrMode::AbsoluteX),
        0xE0u8 => ins(Operation::Cpx, AddrMode::Immediate),
        0xE1u8 => ins(Operation::Sbc, AddrMode::IndirectX),
        0xE2u8 => ins(Operation::Nop, AddrMode::Immediate),
        0xE3u8 => ins(Operation::Isb, AddrMode::IndirectX),
        0xE4u8 => ins(Operation::Cpx, AddrMode::ZeroPage),
        0xE5u8 => ins(Operation::Sbc, AddrMode::ZeroPage),
        0xE6u8 => ins(Operation::Inc, AddrMode::ZeroPage),
        0xE7u8 => ins(Operation::Isb, AddrMode::ZeroPage),
        0xE8u8 => ins(Operation::Inx, AddrMode::Implied),
        0xE9u8 => ins(Operation::Sbc, AddrMode::Immediate),
        0xEAu8 => ins(Operation::Nop, AddrMode::Implied),
        0xEBu8 => ins(Operation::Sbc, AddrMode::Immediate),
        0xECu8 => ins(Operation::Cpx, AddrMode::Absolute),
        0xEDu8 => ins(Operation::Sbc, AddrMode::Absolute),
        0xEEu8 => ins(Operation::Inc, AddrMode::Absolute),
        0xEFu8 => ins(Operation::Isb, AddrMode::Absolute),
        0xF0u8 => ins(Operation::Beq, AddrMode::Relative),
        0xF1u8 => ins(Operation::Sbc, AddrMode::IndirectY),
        0xF2u8 => ins(Operation::Kil, AddrMode::Implied),
        0xF3u8 => ins(Operation::Isb, AddrMode::IndirectY),
        0xF4u8 => ins(Operation::Nop, AddrMode::ZeroPageX),
        0xF5u8 => ins(Operation::Sbc, AddrMode::ZeroPageX),
        0xF6u8 => ins(Operation::Inc, AddrMode::ZeroPageX),
        0xF7u8 => ins(Operation::Isb, AddrMode::ZeroPageX),
        0xF8u8 => ins(Operation::Sed, AddrMode::Implied),
        0xF9u8 => ins(Operation::Sbc, AddrMode::AbsoluteY),
        0xFAu8 => ins(Operation::Nop, AddrMode::Implied),
        0xFBu8 => ins(Operation::Isb, AddrMode::AbsoluteY),
        0xFCu8 => ins(Operation::Nop, AddrMode::AbsoluteX),
        0xFDu8 => ins(Operation::Sbc, AddrMode::AbsoluteX),
        0xFEu8 => ins(Operation::Inc, AddrMode::AbsoluteX),
        _ => ins(Operation::Isb, AddrMode::AbsoluteX),
    }
}

/// Bytes an instruction of addressing mode `m` occupies, opcode included.
pub open spec fn mode_size(m: AddrMode) -> u8 {
    match m {
        AddrMode::Implied | AddrMode::Accumulator => 1,
        AddrMode::Absolute | AddrMode::AbsoluteX | AddrMode::AbsoluteY | AddrMode::Indirect => 3,
        _ => 2,
    }
}

/// Bytes the instruction with opcode `opcode` occupies; BRK skips a padding byte.
pub open spec fn size_of(opcode: u8) -> u8 {
    let i = decode(opcode);
    if i.operation == Operation::Brk { 2 } else { mode_size(i.mode) }
}

/// Every opcode occupies one, two or three bytes, one for the opcode and the rest
/// for the operand its addressing mode reads.
pub proof fn lemma_instruction_size(opcode: u8)
    ensures
        1 <= size_of(opcode) <= 3,
        decode(opcode).operation != Operation::Brk ==> size_of(opcode) == mode_size(decode(opcode).mode),
{
}

/// Looks up an opcode in the table.
pub fn instruction(opcode: u8) -> (r: Instruction)
    ensures
        r == decode(opcode),
{
    let ins = |operation: Operation, mode: AddrMode| -> (r: Instruction)
        ensures
            r == (Instruction { operation, mode }),
        { Instruction { operation, mode } };
    match opcode {
        0x00u8 => ins(Operation::Brk, AddrMode::Implied),
        0x01u8 => ins(Operation::Ora, AddrMode::IndirectX),
        0x02u8 => ins(Operation::Kil, AddrMode::Implied),
        0x03u8 => ins(Operation::Slo, AddrMode::IndirectX),
        0x04u8 => ins(Operation::Nop, AddrMode::ZeroPage),
        0x05u8 => ins(Operation::Ora, AddrMode::ZeroPage),
        0x06u8 => ins(Operation::Asl, AddrMode::ZeroPage),
        0x07u8 => ins(Operation::Slo, AddrMode::ZeroPage),
        0x08u8 => ins(Operation::Php, AddrMode::Implied),
        0x09u8 => ins(Operation::Ora, AddrMode::Immediate),
        0x0Au8 => ins(Operation::Asl, AddrMode::Accumulator),
        0x0Bu8 => ins(Operation::Anc, AddrMode::Immediate),
        0x0Cu8 => ins(Operation::Nop, AddrMode::Absolute),
        0x0Du8 => ins(Operation::Ora, AddrMode::Absolute),
        0x0Eu8 => ins(Operation::Asl, AddrMode::Absolute),
        0x0Fu8 => ins(Operation::Slo, AddrMode::Absolute),
        0x10u8 => ins(Operation::Bpl, AddrMode::Relative),
        0x11u8 => ins(Operation::Ora, AddrMode::IndirectY),
        0x12u8 => ins(Operation::Kil, AddrMode::Implied),
        0x13u8 => ins(Operation::Slo, AddrMode::IndirectY),
        0x14u8 => ins(Operation::Nop, AddrMode::ZeroPageX),
        0x15u8 => ins(Operation::Ora, AddrMode::ZeroPageX),
        0x16u8 => ins(Operation::Asl, AddrMode::ZeroPageX),
        0x17u8 => ins(Operation::Slo, AddrMode::ZeroPageX),
        0x18u8 => ins(Operation::Clc, AddrMode::Implied),
        0x19u8 => ins(Operation::Ora, AddrMode::AbsoluteY),
        0x1Au8 => ins(Operation::Nop, AddrMode::Implied),
        0x1Bu8 => ins(Operation::Slo, AddrMode::AbsoluteY),
        0x1Cu8 => ins(Operation::Nop, AddrMode::AbsoluteX),
        0x1Du8 => ins(Operation::Ora, AddrMode::AbsoluteX),
        0x1Eu8 => ins(Operation::Asl, AddrMode::AbsoluteX),
        0x1Fu8 => ins(Operation::Slo, AddrMode::AbsoluteX),
        0x20u8 => ins(Operation::Jsr, AddrMode::Absolute),
        0x21u8 => ins(Operation::And, AddrMode::IndirectX),
        0x22u8 => ins(Operation::Kil, AddrMode::Implied),
        0x23u8 => ins(Operation::Rla, AddrMode::IndirectX),
        0x24u8 => ins(Operation::Bit, AddrMode::ZeroPage),
        0x25u8 => ins(Operation::And, AddrMode::ZeroPage),
        0x26u8 => ins(Operation::Rol, AddrMode::ZeroPage),
        0x27u8 => ins(Operation::Rla, AddrMode::ZeroPage),
        0x28u8 => ins(Operation::Plp, AddrMode::Implied),
        0x29u8 => ins(Operation::And, AddrMode::Immediate),
        0x2Au8 => ins(Operation::Rol, AddrMode::Accumulator),
        0x2Bu8 => ins(Operation::Anc, AddrMode::Immediate),
        0x2Cu8 => ins(Operation::Bit, AddrMode::Absolute),
        0x2Du8 => ins(Operation::And, AddrMode::Absolute),
        0x2Eu8 => ins(Operation::Rol, AddrMode::Absolute),
        0x2Fu8 => ins(Operation::Rla, AddrMode::Absolute),
        0x30u8 => ins(Operation::Bmi, AddrMode::Relative),
        0x31u8 => ins(Operation::And, AddrMode::IndirectY),
        0x32u8 => ins(Operation::Kil, AddrMode::Implied),
        0x33u8 => ins(Operation::Rla, AddrMode::IndirectY),
        0x34u8 => ins(Operation::Nop, AddrMode::ZeroPageX),
        0x35u8 => ins(Operation::And, AddrMode::ZeroPageX),
        0x36u8 => ins(Operation::Rol, AddrMode::ZeroPageX),
        0x37u8 => ins(Operation::Rla, AddrMode::ZeroPageX),
        0x38u8 => ins(Operation::Sec, AddrMode::Implied),
        0x39u8 => ins(Operation::And, AddrMode::AbsoluteY),
        0x3Au8 => ins(Operation::Nop, AddrMode::Implied),
        0x3Bu8 => ins(Operation::Rla, AddrMode::AbsoluteY),
        0x3Cu8 => ins(Operation::Nop, AddrMode::AbsoluteX),
        0x3Du8 => ins(Operation::And, AddrMode::AbsoluteX),
        0x3Eu8 => ins(Operation::Rol, AddrMode::AbsoluteX),
        0x3Fu8 => ins(Operation::Rla, AddrMode::AbsoluteX),
        0x40u8 => ins(Operation::Rti, AddrMode::Implied),
        0x41u8 => ins(Operation::Eor, AddrMode::IndirectX),
        0x42u8 => ins(Operation::Kil, AddrMode::Implied),
        0x43u8 => ins(Operation::Sre, AddrMode::IndirectX),
        0x44u8 => ins(Operation::Nop, AddrMode::ZeroPage),
        0x45u8 => ins(Operation::Eor, AddrMode::ZeroPage),
        0x46u8 => ins(Operation::Lsr, AddrMode::ZeroPage),
        0x47u8 => ins(Operation::Sre, AddrMode::ZeroPage),
        0x48u8 => ins(Operation::Pha, AddrMode::Implied),
        0x49u8 => ins(Operation::Eor, AddrMode::Immediate),
        0x4Au8 => ins(Operation::Lsr, AddrMode::Accumulator),
        0x4Bu8 => ins(Operation::Alr, AddrMode::Immediate),
        0x4Cu8 => ins(Operation::Jmp, AddrMode::Absolute),
        0x4Du8 => ins(Operation::Eor, AddrMode::Absolute),
        0x4Eu8 => ins(Operation::Lsr, AddrMode::Absolute),
        0x4Fu8 => ins(Operation::Sre, AddrMode::Absolute),
        0x50u8 => ins(Operation::Bvc, AddrMode::Relative),
        0x51u8 => ins(Operation::Eor, AddrMode::IndirectY),
        0x52u8 => ins(Operation::Kil, AddrMode::Implied),
        0x53u8 => ins(Operation::Sre, AddrMode::IndirectY),
        0x54u8 => ins(Operation::Nop, AddrMode::ZeroPageX),
        0x55u8 => ins(Operation::Eor, AddrMode::ZeroPageX),
        0x56u8 => ins(Operation::Lsr, AddrMode::ZeroPageX),
        0x57u8 => ins(Operation::Sre, AddrMode::ZeroPageX),
        0x58u8 => ins(Operation::Cli, AddrMode::Implied),
        0x59u8 => ins(Operation::Eor, AddrMode::AbsoluteY),
        0x5Au8 => ins(Operation::Nop, AddrMode::Implied),
        0x5Bu8 => ins(Operation::Sre, AddrMode::AbsoluteY),
        0x5Cu8 => ins(Operation::Nop, AddrMode::AbsoluteX),
        0x5Du8 => ins(Operation::Eor, AddrMode::AbsoluteX),
        0x5Eu8 => ins(Operation::Lsr, AddrMode::AbsoluteX),
        0x5Fu8 => ins(Operation::Sre, AddrMode::AbsoluteX),
        0x60u8 => ins(Operation::Rts, AddrMode::Implied),
        0x61u8 => ins(Operation::Adc, AddrMode::IndirectX),
        0x62u8 => ins(Operation::Kil, AddrMode::Implied),
        0x63u8 => ins(Operation::Rra, AddrMode::IndirectX),
        0x64u8 => ins(Operation::Nop, AddrMode::ZeroPage),
        0x65u8 => ins(Operation::Adc, AddrMode::ZeroPage),
        0x66u8 => ins(Operation::Ror, AddrMode::ZeroPage),
        0x67u8 => ins(Operation::Rra, AddrMode::ZeroPage),
        0x68u8 => ins(Operation::Pla, AddrMode::Implied),
        0x69u8 => ins(Operation::Adc, AddrMode::Immediate),
        0x6Au8 => ins(Operation::Ror, AddrMode::Accumulator),
        0x6Bu8 => ins(Operation::Arr, AddrMode::Immediate),
        0x6Cu8 => ins(Operation::Jmp, AddrMode::Indirect),
        0x6Du8 => ins(Operation::Adc, AddrMode::Absolute),
        0x6Eu8 => ins(Operation::Ror, AddrMode::Absolute),
        0x6Fu8 => ins(Operation::Rra, AddrMode::Absolute),
        0x70u8 => ins(Operation::Bvs, AddrMode::Relative),
        0x71u8 => ins(Operation::Adc, AddrMode::IndirectY),
        0x72u8 => ins(Operation::Kil, AddrMode::Implied),
        0x73u8 => ins(Operation::Rra, AddrMode::IndirectY),
        0x74u8 => ins(Operation::Nop, AddrMode::ZeroPageX),
        0x75u8 => ins(Operation::Adc, AddrMode::ZeroPageX),
        0x76u8 => ins(Operation::Ror, AddrMode::ZeroPageX),
        0x77u8 => ins(Operation::Rra, AddrMode::ZeroPageX),
        0x78u8 => ins(Operation::Sei, AddrMode::Implied),
        0x79u8 => ins(Operation::Adc, AddrMode::AbsoluteY),
        0x7Au8 => ins(Operation::Nop, AddrMode::Implied),
        0x7Bu8 => ins(Operation::Rra, AddrMode::AbsoluteY),
        0x7Cu8 => ins(Operation::Nop, AddrMode::AbsoluteX),
        0x7Du8 => ins(Operation::Adc, AddrMode::AbsoluteX),
        0x7Eu8 => ins(Operation::Ror, AddrMode::AbsoluteX),
        0x7Fu8 => ins(Operation::Rra, AddrMode::AbsoluteX),
        0x80u8 => ins(Operation::Nop, AddrMode::Immediate),
        0x81u8 => ins(Operation::Sta, AddrMode::IndirectX),
        0x82u8 => ins(Operation::Nop, AddrMode::Immediate),
        0x83u8 => ins(Operation::Sax, AddrMode::IndirectX),
        0x84u8 => ins(Operation::Sty, AddrMode::ZeroPage),
        0x85u8 => ins(Operation::Sta, AddrMode::ZeroPage),
        0x86u8 => ins(Operation::Stx, AddrMode::ZeroPage),
        0x87u8 => ins(Operation::Sax, AddrMode::ZeroPage),
        0x88u8 => ins(Operation::Dey, AddrMode::Implied),
        0x89u8 => ins(Operation::Nop, AddrMode::Immediate),
        0x8Au8 => ins(Operation::Txa, AddrMode::Implied),
        0x8Bu8 => ins(Operation::Kil, AddrMode::Implied),
        0x8Cu8 => ins(Operation::Sty, AddrMode::Absolute),
        0x8Du8 => ins(Operation::Sta, AddrMode::Absolute),
        0x8Eu8 => ins(Operation::Stx, AddrMode::Absolute),
        0x8Fu8 => ins(Operation::Sax, AddrMode::Absolute),
        0x90u8 => ins(Operation::Bcc, AddrMode::Relative),
        0x91u8 => ins(Operation::Sta, AddrMode::IndirectY),
        0x92u8 => ins(Operation::Kil, AddrMode::Implied),
        0x93u8 => ins(Operation::Kil, AddrMode::Implied),
        0x94u8 => ins(Operation::Sty, AddrMode::ZeroPageX),
        0x95u8 => ins(Operation::Sta, AddrMode::ZeroPageX),
        0x96u8 => ins(Operation::Stx, AddrMode::ZeroPageY),
        0x97u8 => ins(Operation::Sax, AddrMode::ZeroPageY),
        0x98u8 => ins(Operation::Tya, AddrMode::Implied),
        0x99u8 => ins(Operation::Sta, AddrMode::AbsoluteY),
        0x9Au8 => ins(Operation::Txs, AddrMode::Implied),
        0x9Bu8 => ins(Operation::Kil, AddrMode::Implied),
        0x9Cu8 => ins(Operation::Kil, AddrMode::Implied),
        0x9Du8 => ins(Operation::Sta, AddrMode::AbsoluteX),
        0x9Eu8 => ins(Operation::Kil, AddrMode::Implied),
        0x9Fu8 => ins(Operation::Kil, AddrMode::Implied),
        0xA0u8 => ins(Operation::Ldy, AddrMode::Immediate),
        0xA1u8 => ins(Operation::Lda, AddrMode::IndirectX),
        0xA2u8 => ins(Operation::Ldx, AddrMode::Immediate),
        0xA3u8 => ins(Operation::Lax, AddrMode::IndirectX),
        0xA4u8 => ins(Operation::Ldy, AddrMode::ZeroPage),
        0xA5u8 => ins(Operation::Lda, AddrMode::ZeroPage),
        0xA6u8 => ins(Operation::Ldx, AddrMode::ZeroPage),
        0xA7u8 => ins(Operation::Lax, AddrMode::ZeroPage),
        0xA8u8 => ins(Operation::Tay, AddrMode::Implied),
        0xA9u8 => ins(Operation::Lda, AddrMode::Immediate),
        0xAAu8 => ins(Operation::Tax, AddrMode::Implied),
        0xABu8 => ins(Operation::Lax, AddrMode::Immediate),
        0xACu8 => ins(Operation::Ldy, AddrMode::Absolute),
        0xADu8 => ins(Operation::Lda, AddrMode::Absolute),
        0xAEu8 => ins(Operation::Ldx, AddrMode::Absolute),
        0xAFu8 => ins(Operation::Lax, AddrMode::Absolute),
        0xB0u8 => ins(Operation::Bcs, AddrMode::Relative),
        0xB1u8 => ins(Operation::Lda, AddrMode::IndirectY),
        0xB2u8 => ins(Operation::Kil, AddrMode::Implied),
        0xB3u8 => ins(Operation::Lax, AddrMode::IndirectY),
        0xB4u8 => ins(Operation::Ldy, AddrMode::ZeroPageX),
        0xB5u8 => ins(Operation::Lda, AddrMode::ZeroPageX),
        0xB6u8 => ins(Operation::Ldx, AddrMode::ZeroPageY),
        0xB7u8 => ins(Operation::Lax, AddrMode::ZeroPageY),
        0xB8u8 => ins(Operation::Clv, AddrMode::Implied),
        0xB9u8 => ins(Operation::Lda, AddrMode::AbsoluteY),
        0xBAu8 => ins(Operation::Tsx, AddrMode::Implied),
        0xBBu8 => ins(Operation::Kil, AddrMode::Implied),
        0xBCu8 => ins(Operation::Ldy, AddrMode::AbsoluteX),
        0xBDu8 => ins(Operation::Lda, AddrMode::AbsoluteX),
        0xBEu8 => ins(Operation::Ldx, AddrMode::AbsoluteY),
        0xBFu8 => ins(Operation::Lax, AddrMode::AbsoluteY),
        0xC0u8 => ins(Operation::Cpy, AddrMode::Immediate),
        0xC1u8 => ins(Operation::Cmp, AddrMode::IndirectX),
        0xC2u8 => ins(Operation::Nop, AddrMode::Immediate),
        0xC3u8 => ins(Operation::Dcp, AddrMode::IndirectX),
        0xC4u8 => ins(Operation::Cpy, AddrMode::ZeroPage),
        0xC5u8 => ins(Operation::Cmp, AddrMode::ZeroPage),
        0xC6u8 => ins(Operation::Dec, AddrMode::ZeroPage),
        0xC7u8 => ins(Operation::Dcp, AddrMode::ZeroPage),
        0xC8u8 => ins(Operation::Iny, AddrMode::Implied),
        0xC9u8 => ins(Operation::Cmp, AddrMode::Immediate),
        0xCAu8 => ins(Operation::Dex, AddrMode::Implied),
        0xCBu8 => ins(Operation::Axs, AddrMode::Immediate),
        0xCCu8 => ins(Operation::Cpy, AddrMode::Absolute),
        0xCDu8 => ins(Operation::Cmp, AddrMode::Absolute),
        0xCEu8 => ins(Operation::Dec, AddrMode::Absolute),
        0xCFu8 => ins(Operation::Dcp, AddrMode::Absolute),
        0xD0u8 => ins(Operation::Bne, AddrMode::Relative),
        0xD1u8 => ins(Operation::Cmp, AddrMode::IndirectY),
        0xD2u8 => ins(Operation::Kil, AddrMode::Implied),
        0xD3u8 => ins(Operation::Dcp, AddrMode::IndirectY),
        0xD4u8 => ins(Operation::Nop, AddrMode::ZeroPageX),
        0xD5u8 => ins(Operation::Cmp, AddrMode::ZeroPageX),
        0xD6u8 => ins(Operation::Dec, AddrMode::ZeroPageX),
        0xD7u8 => ins(Operation::Dcp, AddrMode::ZeroPageX),
        0xD8u8 => ins(Operation::Cld, AddrMode::Implied),
        0xD9u8 => ins(Operation::Cmp, AddrMode::AbsoluteY),
        0xDAu8 => ins(Operation::Nop, AddrMode::Implied),
        0xDBu8 => ins(Operation::Dcp, AddrMode::AbsoluteY),
        0xDCu8 => ins(Operation::Nop, AddrMode::AbsoluteX),
        0xDDu8 => ins(Operation::Cmp, AddrMode::AbsoluteX),
        0xDEu8 => ins(Operation::Dec, AddrMode::AbsoluteX),
        0xDFu8 => ins(Operation::Dcp, AddrMode::AbsoluteX),
        0xE0u8 => ins(Operation::Cpx, AddrMode::Immediate),
        0xE1u8 => ins(Operation::Sbc, AddrMode::IndirectX),
        0xE2u8 => ins(Operation::Nop, AddrMode::Immediate),
        0xE3u8 => ins(Operation::Isb, AddrMode::IndirectX),
        0xE4u8 => ins(Operation::Cpx, AddrMode::ZeroPage),
        0xE5u8 => ins(Operation::Sbc, AddrMode::ZeroPage),
        0xE6u8 => ins(Operation::Inc, AddrMode::ZeroPage),
        0xE7u8 => ins(Operation::Isb, AddrMode::ZeroPage),
        0xE8u8 => ins(Operation::Inx, AddrMode::Implied),
        0xE9u8 => ins(Operation::Sbc, AddrMode::Immediate),
        0xEAu8 => ins(Operation::Nop, AddrMode::Implied),
        0xEBu8 => ins(Operation::Sbc, AddrMode::Immediate),
        0xECu8 => ins(Operation::Cpx, AddrMode::Absolute),
        0xEDu8 => ins(Operation::Sbc, AddrMode::Absolute),
        0xEEu8 => ins(Operation::Inc, AddrMode::Absolute),
        0xEFu8 => ins(Operation::Isb, AddrMode::Absolute),
        0xF0u8 => ins(Operation::Beq, AddrMode::Relative),
        0xF1u8 => ins(Operation::Sbc, AddrMode::IndirectY),
        0xF2u8 => ins(Operation::Kil, AddrMode::Implied),
        0xF3u8 => ins(Operation::Isb, AddrMode::IndirectY),
        0xF4u8 => ins(Operation::Nop, AddrMode::ZeroPageX),
        0xF5u8 => ins(Operation::Sbc, AddrMode::ZeroPageX),
        0xF6u8 => ins(Operation::Inc, AddrMode::ZeroPageX),
        0xF7u8 => ins(Operation::Isb, AddrMode::ZeroPageX),
        0xF8u8 => ins(Operation::Sed, AddrMode::Implied),
        0xF9u8 => ins(Operation::Sbc, AddrMode::AbsoluteY),
        0xFAu8 => ins(Operation::Nop, AddrMode::Implied),
        0xFBu8 => ins(Operation::Isb, AddrMode::AbsoluteY),
        0xFCu8 => ins(Operation::Nop, AddrMode::AbsoluteX),
        0xFDu8 => ins(Operation::Sbc, AddrMode::AbsoluteX),
        0xFEu8 => ins(Operation::Inc, AddrMode::AbsoluteX),
        _ => ins(Operation::Isb, AddrMode::AbsoluteX),
    }
}

/// The size in bytes of the instruction with opcode `opcode`.
pub fn instruction_size(opcode: u8) -> (r: u8)
    ensures
        r == size_of(opcode),
        1 <= r <= 3,
{
    let i = instruction(opcode);
    if let Operation::Brk = i.operation {
        2
    } else {
        match i.mode {
            AddrMode::Implied | AddrMode::Accumulator => 1,
            AddrMode::Absolute | AddrMode::AbsoluteX | AddrMode::AbsoluteY | AddrMode::Indirect => 3,
            _ => 2,
        }
    }
}

} // verus!
