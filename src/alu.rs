use vstd::prelude::*;
use crate::cpu::{Registers, Status};

verus! {

/// Zero and negative flags set from a result byte.
pub open spec fn with_zn(p: Status, v: u8) -> Status {
    Status { zero: v == 0, negative: v >= 128, ..p }
}

pub open spec fn carry_in(p: Status) -> int {
    if p.carry { 1 } else { 0 }
}

pub open spec fn load_a(r: Registers, v: u8) -> Registers {
    Registers { a: v, p: with_zn(r.p, v), ..r }
}

pub open spec fn load_x(r: Registers, v: u8) -> Registers {
    Registers { x: v, p: with_zn(r.p, v), ..r }
}

pub open spec fn load_y(r: Registers, v: u8) -> Registers {
    Registers { y: v, p: with_zn(r.p, v), ..r }
}

pub open spec fn and_spec(r: Registers, v: u8) -> Registers {
    load_a(r, r.a & v)
}

pub open spec fn ora_spec(r: Registers, v: u8) -> Registers {
    load_a(r, r.a | v)
}

pub open spec fn eor_spec(r: Registers, v: u8) -> Registers {
    load_a(r, r.a ^ v)
}

/// Binary add with carry: the carry is bit 8 of the sum; overflow when both inputs
/// have the same sign and the result's sign differs. Decimal mode plays no part.
pub open spec fn adc_spec(r: Registers, v: u8) -> Registers {
    let sum = r.a as int + v as int + carry_in(r.p);
    let result = (sum % 256) as u8;
    Registers {
        a: result,
        p: Status {
            carry: sum > 255,
            overflow: (r.a < 128) == (v < 128) && (result < 128) != (r.a < 128),
            ..with_zn(r.p, result)
        },
        ..r
    }
}

/// Subtract with borrow (the carry clear means borrow): carry set when no borrow
/// occurs; overflow when the inputs' signs differ and the result's sign differs
/// from `A`.
pub open spec fn sbc_spec(r: Registers, v: u8) -> Registers {
    let diff = r.a as int - v as int - (1 - carry_in(r.p));
    let result = ((diff + 256) % 256) as u8;
    Registers {
        a: result,
        p: Status {
            carry: diff >= 0,
            overflow: (r.a < 128) != (v < 128) && (result < 128) != (r.a < 128),
            ..with_zn(r.p, result)
        },
        ..r
    }
}

/// Flags of a comparison of `reg` with `v`.
pub open spec fn compare_spec(p: Status, reg: u8, v: u8) -> Status {
    Status { carry: reg >= v, zero: reg == v, negative: (reg as int - v as int + 256) % 256 >= 128, ..p }
}

pub open spec fn bit_spec(r: Registers, v: u8) -> Registers {
    Registers { p: Status { zero: r.a & v == 0, overflow: v & 0x40 != 0, negative: v >= 128, ..r.p }, ..r }
}

/// AND, then the negative flag copied into carry.
pub open spec fn anc_spec(r: Registers, v: u8) -> Registers {
    let t = and_spec(r, v);
    Registers { p: Status { carry: t.p.negative, ..t.p }, ..t }
}

/// AND, then a logical shift right of `A`.
pub open spec fn alr_spec(r: Registers, v: u8) -> Registers {
    let t = r.a & v;
    let result = t / 2;
    Registers { a: result, p: Status { carry: t % 2 == 1, ..with_zn(r.p, result) }, ..r }
}

/// AND, then a rotate right of `A`; carry from bit 6 of the result, overflow from
/// bit 6 xor bit 5.
pub open spec fn arr_spec(r: Registers, v: u8) -> Registers {
    let result = ((r.a & v) / 2 + 128 * carry_in(r.p)) as u8;
    Registers {
        a: result,
        p: Status {
            carry: result & 0x40 != 0,
            overflow: (result & 0x40 != 0) != (result & 0x20 != 0),
            ..with_zn(r.p, result)
        },
        ..r
    }
}

/// `A & X` into `A`, carry set, then a subtraction of the operand.
pub open spec fn axs_spec(r: Registers, v: u8) -> Registers {
    sbc_spec(Registers { a: r.a & r.x, p: Status { carry: true, ..r.p }, ..r }, v)
}

pub open spec fn asl_spec(p: Status, v: u8) -> (u8, Status) {
    let result = ((v as int * 2) % 256) as u8;
    (result, Status { carry: v >= 128, ..with_zn(p, result) })
}

pub open spec fn lsr_spec(p: Status, v: u8) -> (u8, Status) {
    let result = v / 2;
    (result, Status { carry: v % 2 == 1, ..with_zn(p, result) })
}

pub open spec fn rol_spec(p: Status, v: u8) -> (u8, Status) {
    let result = ((v as int * 2 + carry_in(p)) % 256) as u8;
    (result, Status { carry: v >= 128, ..with_zn(p, result) })
}

pub open spec fn ror_spec(p: Status, v: u8) -> (u8, Status) {
    let result = (v / 2 + 128 * carry_in(p)) as u8;
    (result, Status { carry: v % 2 == 1, ..with_zn(p, result) })
}

pub open spec fn inc_spec(p: Status, v: u8) -> (u8, Status) {
    let result = ((v as int + 1) % 256) as u8;
    (result, with_zn(p, result))
}

pub open spec fn dec_spec(p: Status, v: u8) -> (u8, Status) {
    let result = ((v as int + 255) % 256) as u8;
    (result, with_zn(p, result))
}

fn zn(p: &mut Status, v: u8)
    ensures
        *final(p) == with_zn(*old(p), v),
{
    p.zero = v == 0;
    p.negative = v >= 128;
}

pub fn lda(r: &mut Registers, v: u8)
    ensures
        *final(r) == load_a(*old(r), v),
{
    r.a = v;
    zn(&mut r.p, v);
}

pub fn ldx(r: &mut Registers, v: u8)
    ensures
        *final(r) == load_x(*old(r), v),
{
    r.x = v;
    zn(&mut r.p, v);
}

pub fn ldy(r: &mut Registers, v: u8)
    ensures
        *final(r) == load_y(*old(r), v),
{
    r.y = v;
    zn(&mut r.p, v);
}

pub fn and(r: &mut Registers, v: u8)
    ensures
        *final(r) == and_spec(*old(r), v),
{
    let result = r.a & v;
    lda(r, result);
}

pub fn ora(r: &mut Registers, v: u8)
    ensures
        *final(r) == ora_spec(*old(r), v),
{
    let result = r.a | v;
    lda(r, result);
}

pub fn eor(r: &mut Registers, v: u8)
    ensures
        *final(r) == eor_spec(*old(r), v),
{
    let result = r.a ^ v;
    lda(r, result);
}

pub fn adc(r: &mut Registers, v: u8)
    ensures
        *final(r) == adc_spec(*old(r), v),
{
    let a = r.a;
    let sum: u16 = a as u16 + v as u16 + if r.p.carry { 1u16 } else { 0u16 };
    let result = (sum % 256) as u8;
    r.a = result;
    r.p.carry = sum > 255;
    zn(&mut r.p, result);
    r.p.overflow = (a < 128) == (v < 128) && (result < 128) != (a < 128);
}

pub fn sbc(r: &mut Registers, v: u8)
    ensures
        *final(r) == sbc_spec(*old(r), v),
{
    let a = r.a;
    let borrow: u16 = if r.p.carry { 0 } else { 1 };
    let total: u16 = a as u16 + 256 - v as u16 - borrow;
    let result = (total % 256) as u8;
    r.a = result;
    r.p.carry = total >= 256;
    zn(&mut r.p, result);
    r.p.overflow = (a < 128) != (v < 128) && (result < 128) != (a < 128);
}

/// Sets the flags of comparing `reg` with `v`.
pub fn compare(p: &mut Status, reg: u8, v: u8)
    ensures
        *final(p) == compare_spec(*old(p), reg, v),
{
    let diff = reg.wrapping_sub(v);
    p.carry = reg >= v;
    p.zero = reg == v;
    p.negative = diff >= 128;
}

pub fn bit(r: &mut Registers, v: u8)
    ensures
        *final(r) == bit_spec(*old(r), v),
{
    r.p.zero = r.a & v == 0;
    r.p.overflow = v & 0x40 != 0;
    r.p.negative = v >= 128;
}

pub fn anc(r: &mut Registers, v: u8)
    ensures
        *final(r) == anc_spec(*old(r), v),
{
    and(r, v);
    r.p.carry = r.p.negative;
}

pub fn alr(r: &mut Registers, v: u8)
    ensures
        *final(r) == alr_spec(*old(r), v),
{
    and(r, v);
    let t = r.a;
    let result = lsr(&mut r.p, t);
    r.a = result;
}

pub fn arr(r: &mut Registers, v: u8)
    ensures
        *final(r) == arr_spec(*old(r), v),
{
    let result = (r.a & v) / 2 + if r.p.carry { 128u8 } else { 0u8 };
    r.a = result;
    zn(&mut r.p, result);
    r.p.carry = result & 0x40 != 0;
    r.p.overflow = (result & 0x40 != 0) != (result & 0x20 != 0);
}

pub fn axs(r: &mut Registers, v: u8)
    ensures
        *final(r) == axs_spec(*old(r), v),
{
    r.a = r.a & r.x;
    r.p.carry = true;
    sbc(r, v);
}

pub fn asl(p: &mut Status, v: u8) -> (r: u8)
    ensures
        (r, *final(p)) == asl_spec(*old(p), v),
{
    let result = ((v as u16 * 2) % 256) as u8;
    zn(p, result);
    p.carry = v >= 128;
    result
}

pub fn lsr(p: &mut Status, v: u8) -> (r: u8)
    ensures
        (r, *final(p)) == lsr_spec(*old(p), v),
{
    let result = v / 2;
    zn(p, result);
    p.carry = v % 2 == 1;
    result
}

pub fn rol(p: &mut Status, v: u8) -> (r: u8)
    ensures
        (r, *final(p)) == rol_spec(*old(p), v),
{
    let result = ((v as u16 * 2 + if p.carry { 1u16 } else { 0u16 }) % 256) as u8;
    zn(p, result);
    p.carry = v >= 128;
    result
}

pub fn ror(p: &mut Status, v: u8) -> (r: u8)
    ensures
        (r, *final(p)) == ror_spec(*old(p), v),
{
    let result = v / 2 + if p.carry { 128u8 } else { 0u8 };
    zn(p, result);
    p.carry = v % 2 == 1;
    result
}

pub fn inc(p: &mut Status, v: u8) -> (r: u8)
    ensures
        (r, *final(p)) == inc_spec(*old(p), v),
{
    let result = v.wrapping_add(1);
    zn(p, result);
    result
}

pub fn dec(p: &mut Status, v: u8) -> (r: u8)
    ensures
        (r, *final(p)) == dec_spec(*old(p), v),
{
    let result = v.wrapping_sub(1);
    zn(p, result);
    result
}

} // verus!
