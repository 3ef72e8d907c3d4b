use vstd::prelude::*;
use crate::cpu::{Registers, pack};
use crate::decode::{AddrMode, Instruction, Operation};

verus! {

/// ASCII of an uppercase hexadecimal digit.
pub open spec fn hex_digit(n: int) -> u8 {
    if n < 10 { (48 + n) as u8 } else { (55 + n) as u8 }
}

/// Two uppercase hexadecimal digits.
pub open spec fn hex2(v: u8) -> Seq<u8> {
    seq![hex_digit(v as int / 16), hex_digit(v as int % 16)]
}

/// Four uppercase hexadecimal digits.
pub open spec fn hex4(v: u16) -> Seq<u8> {
    hex2((v as int / 256) as u8) + hex2((v as int % 256) as u8)
}

/// `s` padded with spaces to `width` characters.
pub open spec fn padded(s: Seq<u8>, width: nat) -> Seq<u8> {
    if s.len() < width { s + Seq::new((width - s.len()) as nat, |i: int| 32u8) } else { s }
}

/// The three-letter mnemonic; `???` for the opcodes this core does not execute.
pub open spec fn mnemonic_spec(op: Operation) -> Seq<u8> {
    match op {
        Operation::Adc => seq![65u8, 68u8, 67u8],
        Operation::Alr => seq![65u8, 76u8, 82u8],
        Operation::Anc => seq![65u8, 78u8, 67u8],
        Operation::And => seq![65u8, 78u8, 68u8],
        Operation::Arr => seq![65u8, 82u8, 82u8],
        Operation::Asl => seq![65u8, 83u8, 76u8],
        Operation::Axs => seq![65u8, 88u8, 83u8],
        Operation::Bcc => seq![66u8, 67u8, 67u8],
        Operation::Bcs => seq![66u8, 67u8, 83u8],
        Operation::Beq => seq![66u8, 69u8, 81u8],
        Operation::Bit => seq![66u8, 73u8, 84u8],
        Operation::Bmi => seq![66u8, 77u8, 73u8],
        Operation::Bne => seq![66u8, 78u8, 69u8],
        Operation::Bpl => seq![66u8, 80u8, 76u8],
        Operation::Brk => seq![66u8, 82u8, 75u8],
        Operation::Bvc => seq![66u8, 86u8, 67u8],
        Operation::Bvs => seq![66u8, 86u8, 83u8],
        Operation::Clc => seq![67u8, 76u8, 67u8],
        Operation::Cld => seq![67u8, 76u8, 68u8],
        Operation::Cli => seq![67u8, 76u8, 73u8],
        Operation::Clv => seq![67u8, 76u8, 86u8],
        Operation::Cmp => seq![67u8, 77u8, 80u8],
        Operation::Cpx => seq![67u8, 80u8, 88u8],
        Operation::Cpy => seq![67u8, 80u8, 89u8],
        Operation::Dcp => seq![68u8, 67u8, 80u8],
        Operation::Dec => seq![68u8, 69u8, 67u8],
        Operation::Dex => seq![68u8, 69u8, 88u8],
        Operation::Dey => seq![68u8, 69u8, 89u8],
        Operation::Eor => seq![69u8, 79u8, 82u8],
        Operation::Inc => seq![73u8, 78u8, 67u8],
        Operation::Inx => seq![73u8, 78u8, 88u8],
        Operation::Iny => seq![73u8, 78u8, 89u8],
        Operation::Isb => seq![73u8, 83u8, 66u8],
        Operation::Jmp => seq![74u8, 77u8, 80u8],
        Operation::Jsr => seq![74u8, 83u8, 82u8],
        Operation::Kil => seq![63u8, 63u8, 63u8],
        Operation::Lax => seq![76u8, 65u8, 88u8],
        Operation::Lda => seq![76u8, 68u8, 65u8],
        Operation::Ldx => seq![76u8, 68u8, 88u8],
        Operation::Ldy => seq![76u8, 68u8, 89u8],
        Operation::Lsr => seq![76u8, 83u8, 82u8],
        Operation::Nop => seq![78u8, 79u8, 80u8],
        Operation::Ora => seq![79u8, 82u8, 65u8],
        Operation::Pha => seq![80u8, 72u8, 65u8],
        Operation::Php => seq![80u8, 72u8, 80u8],
        Operation::Pla => seq![80u8, 76u8, 65u8],
        Operation::Plp => seq![80u8, 76u8, 80u8],
        Operation::Rla => seq![82u8, 76u8, 65u8],
        Operation::Rol => seq![82u8, 79u8, 76u8],
        Operation::Ror => seq![82u8, 79u8, 82u8],
        Operation::Rra => seq![82u8, 82u8, 65u8],
        Operation::Rti => seq![82u8, 84u8, 73u8],
        Operation::Rts => seq![82u8, 84u8, 83u8],
        Operation::Sax => seq![83u8, 65u8, 88u8],
        Operation::Sbc => seq![83u8, 66u8, 67u8],
        Operation::Sec => seq![83u8, 69u8, 67u8],
        Operation::Sed => seq![83u8, 69u8, 68u8],
        Operation::Sei => seq![83u8, 69u8, 73u8],
        Operation::Slo => seq![83u8, 76u8, 79u8],
        Operation::Sre => seq![83u8, 82u8, 69u8],
        Operation::Sta => seq![83u8, 84u8, 65u8],
        Operation::Stx => seq![83u8, 84u8, 88u8],
        Operation::Sty => seq![83u8, 84u8, 89u8],
        Operation::Tax => seq![84u8, 65u8, 88u8],
        Operation::Tay => seq![84u8, 65u8, 89u8],
        Operation::Tsx => seq![84u8, 83u8, 88u8],
        Operation::Txa => seq![84u8, 88u8, 65u8],
        Operation::Txs => seq![84u8, 88u8, 83u8],
        Operation::Tya => seq![84u8, 89u8, 65u8],
    }
}

/// A branch offset as a sign and two hexadecimal digits of its magnitude.
pub open spec fn offset_text(v: u8) -> Seq<u8> {
    if v >= 128 { seq![45u8] + hex2((256 - v) as u8) } else { seq![43u8] + hex2(v) }
}

/// The operand as assembly text.
pub open spec fn operand_text(mode: AddrMode, op8: u8, op16: u16) -> Seq<u8> {
    match mode {
        AddrMode::Implied => Seq::empty(),
        AddrMode::Accumulator => seq![65u8],
        AddrMode::Immediate => seq![35u8, 36u8] + hex2(op8),
        AddrMode::Relative => seq![35u8, 36u8] + offset_text(op8),
        AddrMode::ZeroPage => seq![36u8] + hex2(op8),
        AddrMode::ZeroPageX => seq![36u8] + hex2(op8) + seq![44u8, 88u8],
        AddrMode::ZeroPageY => seq![36u8] + hex2(op8) + seq![44u8, 89u8],
        AddrMode::Absolute => seq![36u8] + hex4(op16),
        AddrMode::AbsoluteX => seq![36u8] + hex4(op16) + seq![44u8, 88u8],
        AddrMode::AbsoluteY => seq![36u8] + hex4(op16) + seq![44u8, 89u8],
        AddrMode::IndirectX => seq![40u8, 36u8] + hex2(op8) + seq![44u8, 88u8, 41u8],
        AddrMode::IndirectY => seq![40u8, 36u8] + hex2(op8) + seq![41u8, 44u8, 89u8],
        AddrMode::Indirect => seq![40u8, 36u8] + hex4(op16) + seq![41u8],
    }
}

/// The instruction as assembly text: mnemonic, then a space and the operand if any.
pub open spec fn disassembly(i: Instruction, op8: u8, op16: u16) -> Seq<u8> {
    let operand = operand_text(i.mode, op8, op16);
    if operand.len() == 0 { mnemonic_spec(i.operation) } else { mnemonic_spec(i.operation) + seq![32u8] + operand }
}

/// The instruction bytes, separated by single spaces.
pub open spec fn bytes_text(size: u8, opcode: u8, lo: u8, hi: u8) -> Seq<u8> {
    if size == 1 {
        hex2(opcode)
    } else if size == 2 {
        hex2(opcode) + seq![32u8] + hex2(lo)
    } else {
        hex2(opcode) + seq![32u8] + hex2(lo) + seq![32u8] + hex2(hi)
    }
}

/// One trace record: `PC`, the instruction bytes padded to 8, the disassembly padded
/// to 30, then `A`, `X`, `Y`, the status byte and `S`, all before execution.
pub open spec fn trace_line_spec(pc: u16, bytes: Seq<u8>, text: Seq<u8>, r: Registers) -> Seq<u8> {
    hex4(pc) + seq![32u8, 32u8] + padded(bytes, 8) + seq![32u8, 32u8] + padded(text, 30) + seq![32u8, 32u8, 65u8, 58u8]
        + hex2(r.a) + seq![32u8, 88u8, 58u8] + hex2(r.x) + seq![32u8, 89u8, 58u8] + hex2(r.y) + seq![
        32u8,
        80u8,
        58u8,
    ] + hex2(pack(r.p, false)) + seq![32u8, 83u8, 80u8, 58u8] + hex2(r.s)
}

fn hex_digit_of(n: u8) -> (r: u8)
    requires
        n < 16,
    ensures
        r == hex_digit(n as int),
{
    if n < 10 { 48 + n } else { 55 + n }
}

/// Appends two hexadecimal digits.
fn push_hex2(out: &mut Vec<u8>, v: u8)
    ensures
        final(out)@ == old(out)@ + hex2(v),
{
    out.push(hex_digit_of(v / 16));
    out.push(hex_digit_of(v % 16));
    assert(final(out)@ =~= old(out)@ + hex2(v));
}

/// Appends four hexadecimal digits.
fn push_hex4(out: &mut Vec<u8>, v: u16)
    ensures
        final(out)@ == old(out)@ + hex4(v),
{
    push_hex2(out, (v / 256) as u8);
    push_hex2(out, (v % 256) as u8);
    assert(final(out)@ =~= old(out)@ + hex4(v));
}

/// Appends the bytes of `s`.
fn push_all(out: &mut Vec<u8>, s: &[u8])
    ensures
        final(out)@ == old(out)@ + s@,
{
    let mut i: usize = 0;
    while i < s.len()
        invariant
            i <= s@.len(),
            out@ == old(out)@ + s@.subrange(0, i as int),
        decreases s@.len() - i,
    {
        out.push(s[i]);
        i = i + 1;
        assert(out@ =~= old(out)@ + s@.subrange(0, i as int));
    }
    assert(s@.subrange(0, s@.len() as int) =~= s@);
}

/// Appends `s` padded with spaces to `width` characters.
fn push_padded(out: &mut Vec<u8>, s: &Vec<u8>, width: usize)
    ensures
        final(out)@ == old(out)@ + padded(s@, width as nat),
{
    push_all(out, s.as_slice());
    let mut n: usize = s.len();
    while n < width
        invariant
            s@.len() <= n <= width || (n == s@.len() && n >= width),
            out@ == old(out)@ + s@ + Seq::new((n - s@.len()) as nat, |i: int| 32u8),
        decreases width - n,
    {
        out.push(32u8);
        n = n + 1;
        assert(out@ =~= old(out)@ + s@ + Seq::new((n - s@.len()) as nat, |i: int| 32u8));
    }
    assert(final(out)@ =~= old(out)@ + padded(s@, width as nat));
}

fn mnemonic(op: Operation) -> (r: [u8; 3])
    ensures
        r@ == mnemonic_spec(op),
{
    let r = match op {
        Operation::Adc => [65u8, 68u8, 67u8],
        Operation::Alr => [65u8, 76u8, 82u8],
        Operation::Anc => [65u8, 78u8, 67u8],
        Operation::And => [65u8, 78u8, 68u8],
        Operation::Arr => [65u8, 82u8, 82u8],
        Operation::Asl => [65u8, 83u8, 76u8],
        Operation::Axs => [65u8, 88u8, 83u8],
        Operation::Bcc => [66u8, 67u8, 67u8],
        Operation::Bcs => [66u8, 67u8, 83u8],
        Operation::Beq => [66u8, 69u8, 81u8],
        Operation::Bit => [66u8, 73u8, 84u8],
        Operation::Bmi => [66u8, 77u8, 73u8],
        Operation::Bne => [66u8, 78u8, 69u8],
        Operation::Bpl => [66u8, 80u8, 76u8],
        Operation::Brk => [66u8, 82u8, 75u8],
        Operation::Bvc => [66u8, 86u8, 67u8],
        Operation::Bvs => [66u8, 86u8, 83u8],
        Operation::Clc => [67u8, 76u8, 67u8],
        Operation::Cld => [67u8, 76u8, 68u8],
        Operation::Cli => [67u8, 76u8, 73u8],
        Operation::Clv => [67u8, 76u8, 86u8],
        Operation::Cmp => [67u8, 77u8, 80u8],
        Operation::Cpx => [67u8, 80u8, 88u8],
        Operation::Cpy => [67u8, 80u8, 89u8],
        Operation::Dcp => [68u8, 67u8, 80u8],
        Operation::Dec => [68u8, 69u8, 67u8],
        Operation::Dex => [68u8, 69u8, 88u8],
        Operation::Dey => [68u8, 69u8, 89u8],
        Operation::Eor => [69u8, 79u8, 82u8],
        Operation::Inc => [73u8, 78u8, 67u8],
        Operation::Inx => [73u8, 78u8, 88u8],
        Operation::Iny => [73u8, 78u8, 89u8],
        Operation::Isb => [73u8, 83u8, 66u8],
        Operation::Jmp => [74u8, 77u8, 80u8],
        Operation::Jsr => [74u8, 83u8, 82u8],
        Operation::Kil => [63u8, 63u8, 63u8],
        Operation::Lax => [76u8, 65u8, 88u8],
        Operation::Lda => [76u8, 68u8, 65u8],
        Operation::Ldx => [76u8, 68u8, 88u8],
        Operation::Ldy => [76u8, 68u8, 89u8],
        Operation::Lsr => [76u8, 83u8, 82u8],
        Operation::Nop => [78u8, 79u8, 80u8],
        Operation::Ora => [79u8, 82u8, 65u8],
        Operation::Pha => [80u8, 72u8, 65u8],
        Operation::Php => [80u8, 72u8, 80u8],
        Operation::Pla => [80u8, 76u8, 65u8],
        Operation::Plp => [80u8, 76u8, 80u8],
        Operation::Rla => [82u8, 76u8, 65u8],
        Operation::Rol => [82u8, 79u8, 76u8],
        Operation::Ror => [82u8, 79u8, 82u8],
        Operation::Rra => [82u8, 82u8, 65u8],
        Operation::Rti => [82u8, 84u8, 73u8],
        Operation::Rts => [82u8, 84u8, 83u8],
        Operation::Sax => [83u8, 65u8, 88u8],
        Operation::Sbc => [83u8, 66u8, 67u8],
        Operation::Sec => [83u8, 69u8, 67u8],
        Operation::Sed => [83u8, 69u8, 68u8],
        Operation::Sei => [83u8, 69u8, 73u8],
        Operation::Slo => [83u8, 76u8, 79u8],
        Operation::Sre => [83u8, 82u8, 69u8],
        Operation::Sta => [83u8, 84u8, 65u8],
        Operation::Stx => [83u8, 84u8, 88u8],
        Operation::Sty => [83u8, 84u8, 89u8],
        Operation::Tax => [84u8, 65u8, 88u8],
        Operation::Tay => [84u8, 65u8, 89u8],
        Operation::Tsx => [84u8, 83u8, 88u8],
        Operation::Txa => [84u8, 88u8, 65u8],
        Operation::Txs => [84u8, 88u8, 83u8],
        Operation::Tya => [84u8, 89u8, 65u8],
    };
    assert(r@ =~= mnemonic_spec(op));
    r
}

/// Appends the operand as assembly text.
fn push_operand(out: &mut Vec<u8>, mode: AddrMode, op8: u8, op16: u16)
    ensures
        final(out)@ == old(out)@ + operand_text(mode, op8, op16),
{
    match mode {
        AddrMode::Implied => {},
        AddrMode::Accumulator => out.push(65u8),
        AddrMode::Immediate => {
            push_all(out, &[35u8, 36u8]);
            push_hex2(out, op8);
        },
        AddrMode::Relative => {
            push_all(out, &[35u8, 36u8]);
            if op8 >= 128 {
                out.push(45u8);
                push_hex2(out, (256 - op8 as u16) as u8);
            } else {
                out.push(43u8);
                push_hex2(out, op8);
            }
        },
        AddrMode::ZeroPage => {
            out.push(36u8);
            push_hex2(out, op8);
        },
        AddrMode::ZeroPageX => {
            out.push(36u8);
            push_hex2(out, op8);
            push_all(out, &[44u8, 88u8]);
        },
        AddrMode::ZeroPageY => {
            out.push(36u8);
            push_hex2(out, op8);
            push_all(out, &[44u8, 89u8]);
        },
        AddrMode::Absolute => {
            out.push(36u8);
            push_hex4(out, op16);
        },
        AddrMode::AbsoluteX => {
            out.push(36u8);
            push_hex4(out, op16);
            push_all(out, &[44u8, 88u8]);
        },
        AddrMode::AbsoluteY => {
            out.push(36u8);
            push_hex4(out, op16);
            push_all(out, &[44u8, 89u8]);
        },
        AddrMode::IndirectX => {
            push_all(out, &[40u8, 36u8]);
            push_hex2(out, op8);
            push_all(out, &[44u8, 88u8, 41u8]);
        },
        AddrMode::IndirectY => {
            push_all(out, &[40u8, 36u8]);
            push_hex2(out, op8);
            push_all(out, &[41u8, 44u8, 89u8]);
        },
        AddrMode::Indirect => {
            push_all(out, &[40u8, 36u8]);
            push_hex4(out, op16);
            out.push(41u8);
        },
    }
    assert(final(out)@ =~= old(out)@ + operand_text(mode, op8, op16));
}

/// The instruction as assembly text.
pub fn disassemble(i: Instruction, op8: u8, op16: u16) -> (r: Vec<u8>)
    ensures
        r@ == disassembly(i, op8, op16),
{
    let m = mnemonic(i.operation);
    let mut r: Vec<u8> = Vec::new();
    push_all(&mut r, &m);
    let mut operand: Vec<u8> = Vec::new();
    push_operand(&mut operand, i.mode, op8, op16);
    assert(operand@ =~= operand_text(i.mode, op8, op16));
    if operand.len() > 0 {
        r.push(32u8);
        push_all(&mut r, operand.as_slice());
    }
    assert(r@ =~= disassembly(i, op8, op16));
    r
}

/// One trace record for the instruction at `pc`, from the registers before it runs.
pub fn trace_line(pc: u16, size: u8, opcode: u8, lo: u8, hi: u8, text: &Vec<u8>, r: &Registers) -> (line: Vec<u8>)
    requires
        1 <= size <= 3,
    ensures
        line@ == trace_line_spec(pc, bytes_text(size, opcode, lo, hi), text@, *r),
{
    let mut bytes: Vec<u8> = Vec::new();
    push_hex2(&mut bytes, opcode);
    if size >= 2 {
        bytes.push(32u8);
        push_hex2(&mut bytes, lo);
    }
    if size == 3 {
        bytes.push(32u8);
        push_hex2(&mut bytes, hi);
    }
    assert(bytes@ =~= bytes_text(size, opcode, lo, hi));
    let mut line: Vec<u8> = Vec::new();
    push_hex4(&mut line, pc);
    push_all(&mut line, &[32u8, 32u8]);
    push_padded(&mut line, &bytes, 8);
    push_all(&mut line, &[32u8, 32u8]);
    push_padded(&mut line, text, 30);
    push_all(&mut line, &[32u8, 32u8, 65u8, 58u8]);
    push_hex2(&mut line, r.a);
    push_all(&mut line, &[32u8, 88u8, 58u8]);
    push_hex2(&mut line, r.x);
    push_all(&mut line, &[32u8, 89u8, 58u8]);
    push_hex2(&mut line, r.y);
    push_all(&mut line, &[32u8, 80u8, 58u8]);
    push_hex2(&mut line, r.p.value(false));
    push_all(&mut line, &[32u8, 83u8, 80u8, 58u8]);
    push_hex2(&mut line, r.s);
    assert(line@ =~= trace_line_spec(pc, bytes_text(size, opcode, lo, hi), text@, *r));
    line
}

} // verus!
