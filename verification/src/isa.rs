use vstd::prelude::*;
use crate::register::{hi_byte, lo_byte, wrap16, Registers, FLAG_C, FLAG_H, FLAG_N, FLAG_Z};

verus! {

// The instruction set of the Game Boy CPU, stated by the fields of the opcode byte:
// x = bits 7-6, y = bits 5-3, z = bits 2-0, p = bits 5-4, q = bit 3.
// Register operand 0-7 is B, C, D, E, H, L, (HL), A; register pair 0-3 is BC, DE, HL,
// SP (or AF for PUSH and POP); condition 0-3 is NZ, Z, NC, C.
// The ALU operations 0-7 are ADD, ADC, SUB, SBC, AND, XOR, OR, CP; the CB-prefixed
// operations 0-7 are RLC, RRC, RL, RR, SLA, SRA, SWAP, SRL.

pub open spec fn op_x(op: u8) -> int {
    op as int / 64
}

pub open spec fn op_y(op: u8) -> int {
    (op as int / 8) % 8
}

pub open spec fn op_z(op: u8) -> int {
    op as int % 8
}

pub open spec fn op_p(op: u8) -> int {
    op_y(op) / 2
}

pub open spec fn op_q(op: u8) -> int {
    op_y(op) % 2
}

/// The flag register with the given values of Z, N, H and C.
pub open spec fn flag_byte(z: bool, n: bool, h: bool, c: bool) -> u8 {
    (if z { 0x80u8 } else { 0 }) | (if n { 0x40u8 } else { 0 }) | (if h { 0x20u8 } else { 0 }) | (if c {
        0x10u8
    } else {
        0
    })
}

pub open spec fn set_flags(r: Registers, z: bool, n: bool, h: bool, c: bool) -> Registers {
    Registers { f: flag_byte(z, n, h, c), ..r }
}

pub open spec fn zf(r: Registers) -> bool {
    r.flag_set(FLAG_Z)
}

pub open spec fn nf(r: Registers) -> bool {
    r.flag_set(FLAG_N)
}

pub open spec fn hf(r: Registers) -> bool {
    r.flag_set(FLAG_H)
}

pub open spec fn cf(r: Registers) -> bool {
    r.flag_set(FLAG_C)
}

pub open spec fn u8v(v: int) -> u8 {
    (v % 256) as u8
}

/// The 8-bit register with index `i` (not 6, which stands for memory at HL).
pub open spec fn reg8(r: Registers, i: int) -> u8 {
    if i == 0 {
        r.b
    } else if i == 1 {
        r.c
    } else if i == 2 {
        r.d
    } else if i == 3 {
        r.e
    } else if i == 4 {
        r.h
    } else if i == 5 {
        r.l
    } else {
        r.a
    }
}

pub open spec fn set_reg8(r: Registers, i: int, v: u8) -> Registers {
    if i == 0 {
        Registers { b: v, ..r }
    } else if i == 1 {
        Registers { c: v, ..r }
    } else if i == 2 {
        Registers { d: v, ..r }
    } else if i == 3 {
        Registers { e: v, ..r }
    } else if i == 4 {
        Registers { h: v, ..r }
    } else if i == 5 {
        Registers { l: v, ..r }
    } else {
        Registers { a: v, ..r }
    }
}

/// The register pair with index `p`: BC, DE, HL, SP.
pub open spec fn reg16(r: Registers, p: int) -> u16 {
    if p == 0 {
        r.spec_bc()
    } else if p == 1 {
        r.spec_de()
    } else if p == 2 {
        r.spec_hl()
    } else {
        r.sp
    }
}

pub open spec fn set_reg16(r: Registers, p: int, v: u16) -> Registers {
    if p == 0 {
        Registers { b: hi_byte(v), c: lo_byte(v), ..r }
    } else if p == 1 {
        Registers { d: hi_byte(v), e: lo_byte(v), ..r }
    } else if p == 2 {
        Registers { h: hi_byte(v), l: lo_byte(v), ..r }
    } else {
        Registers { sp: v, ..r }
    }
}

/// Whether condition `cc` holds: NZ, Z, NC, C.
pub open spec fn cond(r: Registers, cc: int) -> bool {
    if cc == 0 {
        !zf(r)
    } else if cc == 1 {
        zf(r)
    } else if cc == 2 {
        !cf(r)
    } else {
        cf(r)
    }
}

pub open spec fn add_spec(r: Registers, b: u8, carry_in: bool) -> Registers {
    let c: int = if carry_in && cf(r) { 1 } else { 0 };
    let sum = r.a + b + c;
    set_flags(Registers { a: u8v(sum), ..r }, sum % 256 == 0, false, r.a % 16 + b % 16 + c > 15, sum > 255)
}

pub open spec fn sub_spec(r: Registers, b: u8, carry_in: bool) -> Registers {
    let c: int = if carry_in && cf(r) { 1 } else { 0 };
    let diff = r.a - b - c;
    set_flags(Registers { a: u8v(diff), ..r }, diff % 256 == 0, true, r.a % 16 < b % 16 + c, r.a < b + c)
}

pub open spec fn and_spec(r: Registers, b: u8) -> Registers {
    set_flags(Registers { a: r.a & b, ..r }, r.a & b == 0, false, true, false)
}

pub open spec fn xor_spec(r: Registers, b: u8) -> Registers {
    set_flags(Registers { a: r.a ^ b, ..r }, r.a ^ b == 0, false, false, false)
}

pub open spec fn or_spec(r: Registers, b: u8) -> Registers {
    set_flags(Registers { a: r.a | b, ..r }, r.a | b == 0, false, false, false)
}

/// CP: the flags of a subtraction; A is kept.
pub open spec fn cp_spec(r: Registers, b: u8) -> Registers {
    Registers { a: r.a, ..sub_spec(r, b, false) }
}

/// ALU operation `k` applied to A and `b`.
pub open spec fn alu8_spec(k: int, r: Registers, b: u8) -> Registers {
    if k == 0 {
        add_spec(r, b, false)
    } else if k == 1 {
        add_spec(r, b, true)
    } else if k == 2 {
        sub_spec(r, b, false)
    } else if k == 3 {
        sub_spec(r, b, true)
    } else if k == 4 {
        and_spec(r, b)
    } else if k == 5 {
        xor_spec(r, b)
    } else if k == 6 {
        or_spec(r, b)
    } else {
        cp_spec(r, b)
    }
}

/// The flags after INC of `v`; C is kept.
pub open spec fn inc_flags(r: Registers, v: u8) -> Registers {
    set_flags(r, v == 255, false, v % 16 == 15, cf(r))
}

/// The flags after DEC of `v`; C is kept.
pub open spec fn dec_flags(r: Registers, v: u8) -> Registers {
    set_flags(r, v == 1, true, v % 16 == 0, cf(r))
}

/// ADD HL, `b`: Z is kept; H is the carry out of bit 11, C the carry out of bit 15.
pub open spec fn add16_spec(r: Registers, b: u16) -> Registers {
    let hl = r.spec_hl();
    let s = hl + b;
    let r2 = Registers { h: hi_byte(wrap16(s)), l: lo_byte(wrap16(s)), ..r };
    set_flags(r2, zf(r), false, hl % 4096 + b % 4096 > 4095, s > 65535)
}

/// The signed offset that a byte stands for.
pub open spec fn signed8(b: u8) -> int {
    if b < 128 {
        b as int
    } else {
        b as int - 256
    }
}

/// `a` plus the signed byte `b`, as in ADD SP, r8 and LD HL, SP + r8.
pub open spec fn add16imm_value(a: u16, b: u8) -> u16 {
    wrap16(a + signed8(b))
}

/// The flags of ADD SP, r8 and LD HL, SP + r8: Z and N clear, H and C the carries out of
/// bits 3 and 7 of the low byte.
pub open spec fn add16imm_flags(r: Registers, a: u16, b: u8) -> Registers {
    set_flags(r, false, false, a % 16 + b % 16 > 15, a % 256 + b > 255)
}

/// The result of CB-prefixed shift or rotate `k` on `v`.
#[verifier::opaque]
pub open spec fn cb_value(k: int, r: Registers, v: u8) -> u8 {
    if k == 0 {
        u8v(v * 2 + v / 128)
    } else if k == 1 {
        u8v(v / 2 + (v % 2) * 128)
    } else if k == 2 {
        u8v(v * 2 + (if cf(r) { 1int } else { 0 }))
    } else if k == 3 {
        u8v(v / 2 + (if cf(r) { 128int } else { 0 }))
    } else if k == 4 {
        u8v(v * 2)
    } else if k == 5 {
        u8v(v / 2 + (v / 128) * 128)
    } else if k == 6 {
        u8v((v % 16) * 16 + v / 16)
    } else {
        u8v(v as int / 2)
    }
}

/// The bit that shift or rotate `k` moves out of `v` into the carry.
#[verifier::opaque]
pub open spec fn cb_carry(k: int, v: u8) -> bool {
    if k == 0 || k == 2 || k == 4 {
        v >= 128
    } else if k == 6 {
        false
    } else {
        v % 2 == 1
    }
}

/// The flags after shift or rotate `k` on `v`: Z from the result, N and H clear,
/// C the bit moved out.
pub open spec fn cb_flags(k: int, r: Registers, v: u8) -> Registers {
    set_flags(r, cb_value(k, r, v) == 0, false, false, cb_carry(k, v))
}

/// RLCA, RRCA, RLA, RRA: the rotation of A, with Z clear.
pub open spec fn rot_a_spec(k: int, r: Registers) -> Registers {
    set_flags(Registers { a: cb_value(k, r, r.a), ..r }, false, false, false, cb_carry(k, r.a))
}

/// BIT `b` of `v`: Z is set when the bit is clear; N clear, H set, C kept.
pub open spec fn bit_flags(r: Registers, v: u8, b: int) -> Registers {
    set_flags(r, (v as int / vstd::arithmetic::power2::pow2(b as nat) as int) % 2 == 0, false, true, cf(r))
}

/// DAA: adjusts A to binary-coded decimal after an addition (N clear) or subtraction (N set).
pub open spec fn daa_spec(r: Registers) -> Registers {
    let low = hf(r) || (!nf(r) && r.a % 16 > 9);
    let high = cf(r) || (!nf(r) && r.a > 0x99);
    let adjust: int = (if high { 0x60int } else { 0 }) + (if low { 0x06int } else { 0 });
    let res = if !nf(r) { u8v(r.a + adjust) } else { u8v(r.a - adjust) };
    set_flags(Registers { a: res, ..r }, res == 0, nf(r), false, high)
}

/// CPL: A is complemented; N and H set.
pub open spec fn cpl_spec(r: Registers) -> Registers {
    set_flags(Registers { a: !r.a, ..r }, zf(r), true, true, cf(r))
}

/// SCF: C set, N and H clear.
pub open spec fn scf_spec(r: Registers) -> Registers {
    set_flags(r, zf(r), false, false, true)
}

/// CCF: C complemented, N and H clear.
pub open spec fn ccf_spec(r: Registers) -> Registers {
    set_flags(r, zf(r), false, false, !cf(r))
}

/// The target of a relative jump by the offset byte `n`, from the address after it.
pub open spec fn jr_target(pc: u16, n: u8) -> u16 {
    wrap16(pc + signed8(n))
}

/// The opcodes that the CPU does not implement.
pub open spec fn is_unimplemented(op: u8) -> bool {
    op == 0xD3 || op == 0xDB || op == 0xDD || op == 0xE3 || op == 0xE4 || op == 0xEB || op == 0xEC
        || op == 0xED || op == 0xF4 || op == 0xFC || op == 0xFD
}

/// The flag bits of a flag byte.
pub broadcast proof fn lemma_flag_byte_bits(z: bool, n: bool, h: bool, c: bool)
    ensures
        (#[trigger] flag_byte(z, n, h, c) & FLAG_Z != 0) == z,
        (flag_byte(z, n, h, c) & FLAG_N != 0) == n,
        (flag_byte(z, n, h, c) & FLAG_H != 0) == h,
        (flag_byte(z, n, h, c) & FLAG_C != 0) == c,
        flag_byte(z, n, h, c) & 0x0F == 0,
{
    assert((flag_byte(z, n, h, c) & 0x80 != 0) == z && (flag_byte(z, n, h, c) & 0x40 != 0) == n
        && (flag_byte(z, n, h, c) & 0x20 != 0) == h && (flag_byte(z, n, h, c) & 0x10 != 0) == c
        && flag_byte(z, n, h, c) & 0x0F == 0) by (bit_vector);
}

} // verus!
