use vstd::prelude::*;
use crate::isa::{
    add16_spec, add16imm_flags, add16imm_value, add_spec, alu8_spec, and_spec, bit_flags, cb_flags,
    cb_carry, cb_value, ccf_spec, cf, cond, cp_spec, cpl_spec, daa_spec, dec_flags, flag_byte, hf,
    inc_flags, is_unimplemented, jr_target, op_p, op_q, op_x, op_y, op_z, or_spec, reg16, reg8,
    rot_a_spec, scf_spec, set_flags, set_reg16, set_reg8, sub_spec, u8v, xor_spec,
};
use crate::mmu::{next_addr, MMU};
use crate::register::{wrap16, Registers, FLAG_C, FLAG_H, FLAG_N, FLAG_Z};
use crate::serial::SerialCallback;

verus! {

/// The processor: its registers, the memory it is attached to, and its interrupt state.
/// `setdi` and `setei` count down the instructions until a DI or EI takes effect.
pub struct CPU<C> {
    pub reg: Registers,
    pub mmu: MMU<C>,
    pub halted: bool,
    pub ime: bool,
    pub setdi: u32,
    pub setei: u32,
}

/// A flag register with a clear low nibble is determined by its four flag bits.
pub proof fn lemma_flags_eq(f: u8, z: bool, n: bool, h: bool, c: bool)
    requires
        f & 0x0F == 0,
        (f & FLAG_Z != 0) == z,
        (f & FLAG_N != 0) == n,
        (f & FLAG_H != 0) == h,
        (f & FLAG_C != 0) == c,
    ensures
        f == flag_byte(z, n, h, c),
{
    assert(f == flag_byte(z, n, h, c)) by (bit_vector)
        requires
            f & 0x0F == 0,
            (f & 0x80 != 0) == z,
            (f & 0x40 != 0) == n,
            (f & 0x20 != 0) == h,
            (f & 0x10 != 0) == c,
    ;
}

pub proof fn lemma_low_nibble(a: u8)
    ensures
        a & 0x0F == a % 16,
        a & 0x0F <= 0x0F,
{
    assert(a & 0x0F == a % 16) by (bit_vector);
}

broadcast use crate::isa::lemma_flag_byte_bits;

impl<C: SerialCallback> CPU<C> {
    pub open spec fn wf(&self) -> bool {
        self.mmu.wf() && self.reg.wf()
    }

    /// The CPU with only the registers replaced.
    pub open spec fn with_reg(self, r: Registers) -> CPU<C> {
        CPU { reg: r, ..self }
    }

    /// Sets the flags one at a time, as the ALU does, and shows the result is the flag byte.
    fn set_all_flags(&mut self, z: bool, n: bool, h: bool, c: bool)
        ensures
            *final(self) == old(self).with_reg(set_flags(old(self).reg, z, n, h, c)),
    {
        self.reg.flag(FLAG_Z, z);
        self.reg.flag(FLAG_N, n);
        assert(self.reg.flag_set(FLAG_Z) == z);
        self.reg.flag(FLAG_H, h);
        assert(self.reg.flag_set(FLAG_Z) == z);
        assert(self.reg.flag_set(FLAG_N) == n);
        self.reg.flag(FLAG_C, c);
        assert(self.reg.flag_set(FLAG_Z) == z);
        assert(self.reg.flag_set(FLAG_N) == n);
        assert(self.reg.flag_set(FLAG_H) == h);
        proof {
            lemma_flags_eq(self.reg.f, z, n, h, c);
            old(self).reg.lemma_with_flags(self.reg.f);
        }
    }

    fn alu_add(&mut self, b: u8, usec: bool)
        ensures
            *final(self) == old(self).with_reg(add_spec(old(self).reg, b, usec)),
    {
        let c: u8 = if usec && self.reg.getflag(FLAG_C) { 1 } else { 0 };
        let a = self.reg.a;
        let r = a.wrapping_add(b).wrapping_add(c);
        proof {
            lemma_low_nibble(a);
            lemma_low_nibble(b);
        }
        let z = r == 0;
        let h = (a & 0xF) + (b & 0xF) + c > 0xF;
        let cy = (a as u16) + (b as u16) + (c as u16) > 0xFF;
        self.reg.a = r;
        self.set_all_flags(z, false, h, cy);
    }

    fn alu_sub(&mut self, b: u8, usec: bool)
        ensures
            *final(self) == old(self).with_reg(sub_spec(old(self).reg, b, usec)),
    {
        let c: u8 = if usec && self.reg.getflag(FLAG_C) { 1 } else { 0 };
        let a = self.reg.a;
        let r = a.wrapping_sub(b).wrapping_sub(c);
        proof {
            lemma_low_nibble(a);
            lemma_low_nibble(b);
        }
        let z = r == 0;
        let h = (a & 0x0F) < (b & 0x0F) + c;
        let cy = (a as u16) < (b as u16) + (c as u16);
        self.reg.a = r;
        self.set_all_flags(z, true, h, cy);
    }

    fn alu_and(&mut self, b: u8)
        ensures
            *final(self) == old(self).with_reg(and_spec(old(self).reg, b)),
    {
        let r = self.reg.a & b;
        self.reg.a = r;
        self.set_all_flags(r == 0, false, true, false);
    }

    fn alu_or(&mut self, b: u8)
        ensures
            *final(self) == old(self).with_reg(or_spec(old(self).reg, b)),
    {
        let r = self.reg.a | b;
        self.reg.a = r;
        self.set_all_flags(r == 0, false, false, false);
    }

    fn alu_xor(&mut self, b: u8)
        ensures
            *final(self) == old(self).with_reg(xor_spec(old(self).reg, b)),
    {
        let r = self.reg.a ^ b;
        self.reg.a = r;
        self.set_all_flags(r == 0, false, false, false);
    }

    fn alu_cp(&mut self, b: u8)
        ensures
            *final(self) == old(self).with_reg(cp_spec(old(self).reg, b)),
    {
        let r = self.reg.a;
        self.alu_sub(b, false);
        self.reg.a = r;
    }

    fn alu_inc(&mut self, a: u8) -> (r: u8)
        ensures
            r == u8v(a + 1),
            *final(self) == old(self).with_reg(inc_flags(old(self).reg, a)),
    {
        let r = a.wrapping_add(1);
        proof {
            lemma_low_nibble(a);
        }
        let c = self.reg.getflag(FLAG_C);
        self.set_all_flags(r == 0, false, (a & 0x0F) + 1 > 0x0F, c);
        r
    }

    fn alu_dec(&mut self, a: u8) -> (r: u8)
        ensures
            r == u8v(a - 1),
            *final(self) == old(self).with_reg(dec_flags(old(self).reg, a)),
    {
        let r = a.wrapping_sub(1);
        proof {
            lemma_low_nibble(a);
        }
        let c = self.reg.getflag(FLAG_C);
        self.set_all_flags(r == 0, true, (a & 0x0F) == 0, c);
        r
    }

    fn alu_add16(&mut self, b: u16)
        ensures
            *final(self) == old(self).with_reg(add16_spec(old(self).reg, b)),
    {
        let a = self.reg.hl();
        let r = a.wrapping_add(b);
        proof {
            assert(a & 0x0FFF == a % 4096 && b & 0x0FFF == b % 4096) by (bit_vector);
        }
        let h = (a & 0x0FFF) + (b & 0x0FFF) > 0x0FFF;
        let cy = a > 0xFFFF - b;
        let z = self.reg.getflag(FLAG_Z);
        self.reg.sethl(r);
        let ghost mid = *self;
        assert(mid == old(self).with_reg(Registers {
            h: crate::register::hi_byte(crate::register::wrap16(a + b)),
            l: crate::register::lo_byte(crate::register::wrap16(a + b)),
            ..old(self).reg
        }));
        self.set_all_flags(z, false, h, cy);
    }

    /// ADD of the sign-extended byte at PC to `a`; returns the sum and sets the flags.
    fn alu_add16imm(&mut self, a: u16) -> (r: u16)
        requires
            old(self).wf(),
        ensures
            r == add16imm_value(a, old(self).mmu.spec_rb(old(self).reg.pc)),
            *final(self) == old(self).with_reg(
                add16imm_flags(
                    CPU::<C>::at_pc(old(self).reg, old(self).reg.pc + 1),
                    a,
                    old(self).mmu.spec_rb(old(self).reg.pc),
                ),
            ),
            final(self).wf(),
    {
        let b8 = self.fetchbyte();
        let b = b8 as i8 as i16 as u16;
        proof {
            assert(b == (if b8 < 128 { b8 as int } else { b8 as int + 0xFF00 }) as u16) by (bit_vector)
                requires b == b8 as i8 as i16 as u16;
            assert(a & 0x000F == a % 16 && b & 0x000F == b8 % 16 && a & 0x00FF == a % 256
                && b & 0x00FF == b8) by (bit_vector)
                requires b == b8 as i8 as i16 as u16;
        }
        let h = (a & 0x000F) + (b & 0x000F) > 0x000F;
        let cy = (a & 0x00FF) + (b & 0x00FF) > 0x00FF;
        self.set_all_flags(false, false, h, cy);
        proof {
            let f = flag_byte(false, false, h, cy);
            assert(f & 0x0F == 0) by (bit_vector)
                requires f == flag_byte(false, false, h, cy);
        }
        a.wrapping_add(b)
    }

    fn alu_swap(&mut self, a: u8) -> (r: u8)
        ensures
            r == cb_value(6, old(self).reg, a),
            *final(self) == old(self).with_reg(cb_flags(6, old(self).reg, a)),
    {
        reveal(cb_value);
        reveal(cb_carry);
        proof {
            assert((a >> 4u8) | (a << 4u8) == ((a % 16) * 16 + a / 16) as u8) by (bit_vector);
            assert(((a % 16) * 16 + a / 16 == 0) == (a == 0)) by (nonlinear_arith);
        }
        self.set_all_flags(a == 0, false, false, false);
        (a >> 4u8) | (a << 4u8)
    }

    fn alu_srflagupdate(&mut self, r: u8, c: bool)
        ensures
            *final(self) == old(self).with_reg(set_flags(old(self).reg, r == 0, false, false, c)),
    {
        self.set_all_flags(r == 0, false, false, c);
    }

    fn alu_rlc(&mut self, a: u8) -> (r: u8)
        ensures
            r == cb_value(0, old(self).reg, a),
            *final(self) == old(self).with_reg(cb_flags(0, old(self).reg, a)),
    {
        reveal(cb_value);
        reveal(cb_carry);
        let c = a & 0x80 == 0x80;
        let r = (a << 1u8) | (if c { 1 } else { 0 });
        proof {
            assert(r == u8v(a * 2 + a / 128) && c == (a >= 128)) by (bit_vector)
                requires c == (a & 0x80 == 0x80), r == (a << 1u8) | (if c { 1u8 } else { 0 });
        }
        self.alu_srflagupdate(r, c);
        r
    }

    fn alu_rl(&mut self, a: u8) -> (r: u8)
        ensures
            r == cb_value(2, old(self).reg, a),
            *final(self) == old(self).with_reg(cb_flags(2, old(self).reg, a)),
    {
        reveal(cb_value);
        reveal(cb_carry);
        let c = a & 0x80 == 0x80;
        let cin = self.reg.getflag(FLAG_C);
        let r = (a << 1u8) | (if cin { 1 } else { 0 });
        proof {
            assert(r == u8v(a * 2 + (if cin { 1int } else { 0 })) && c == (a >= 128)) by (bit_vector)
                requires c == (a & 0x80 == 0x80), r == (a << 1u8) | (if cin { 1u8 } else { 0 });
        }
        self.alu_srflagupdate(r, c);
        r
    }

    fn alu_rrc(&mut self, a: u8) -> (r: u8)
        ensures
            r == cb_value(1, old(self).reg, a),
            *final(self) == old(self).with_reg(cb_flags(1, old(self).reg, a)),
    {
        reveal(cb_value);
        reveal(cb_carry);
        let c = a & 0x01 == 0x01;
        let r = (a >> 1u8) | (if c { 0x80 } else { 0 });
        proof {
            assert(r == u8v(a / 2 + (a % 2) * 128) && c == (a % 2 == 1)) by (bit_vector)
                requires c == (a & 0x01 == 0x01), r == (a >> 1u8) | (if c { 0x80u8 } else { 0 });
        }
        self.alu_srflagupdate(r, c);
        r
    }

    fn alu_rr(&mut self, a: u8) -> (r: u8)
        ensures
            r == cb_value(3, old(self).reg, a),
            *final(self) == old(self).with_reg(cb_flags(3, old(self).reg, a)),
    {
        reveal(cb_value);
        reveal(cb_carry);
        let c = a & 0x01 == 0x01;
        let cin = self.reg.getflag(FLAG_C);
        let r = (a >> 1u8) | (if cin { 0x80 } else { 0 });
        proof {
            assert(r == u8v(a / 2 + (if cin { 128int } else { 0 })) && c == (a % 2 == 1)) by (bit_vector)
                requires c == (a & 0x01 == 0x01), r == (a >> 1u8) | (if cin { 0x80u8 } else { 0 });
        }
        self.alu_srflagupdate(r, c);
        r
    }

    fn alu_sla(&mut self, a: u8) -> (r: u8)
        ensures
            r == cb_value(4, old(self).reg, a),
            *final(self) == old(self).with_reg(cb_flags(4, old(self).reg, a)),
    {
        reveal(cb_value);
        reveal(cb_carry);
        let c = a & 0x80 == 0x80;
        let r = a << 1u8;
        proof {
            assert(r == u8v(a * 2) && c == (a >= 128)) by (bit_vector)
                requires c == (a & 0x80 == 0x80), r == a << 1u8;
        }
        self.alu_srflagupdate(r, c);
        r
    }

    fn alu_sra(&mut self, a: u8) -> (r: u8)
        ensures
            r == cb_value(5, old(self).reg, a),
            *final(self) == old(self).with_reg(cb_flags(5, old(self).reg, a)),
    {
        reveal(cb_value);
        reveal(cb_carry);
        let c = a & 0x01 == 0x01;
        let r = (a >> 1u8) | (a & 0x80);
        proof {
            assert(r == u8v(a / 2 + (a / 128) * 128) && c == (a % 2 == 1)) by (bit_vector)
                requires c == (a & 0x01 == 0x01), r == (a >> 1u8) | (a & 0x80);
        }
        self.alu_srflagupdate(r, c);
        r
    }

    fn alu_srl(&mut self, a: u8) -> (r: u8)
        ensures
            r == cb_value(7, old(self).reg, a),
            *final(self) == old(self).with_reg(cb_flags(7, old(self).reg, a)),
    {
        reveal(cb_value);
        reveal(cb_carry);
        let c = a & 0x01 == 0x01;
        let r = a >> 1u8;
        proof {
            assert(r == u8v(a as int / 2) && c == (a % 2 == 1)) by (bit_vector)
                requires c == (a & 0x01 == 0x01), r == a >> 1u8;
        }
        self.alu_srflagupdate(r, c);
        r
    }

    fn alu_bit(&mut self, a: u8, b: u8)
        requires
            b < 8,
        ensures
            *final(self) == old(self).with_reg(bit_flags(old(self).reg, a, b as int)),
    {
        let r = a & (1u8 << b) == 0;
        proof {
            vstd::arithmetic::power2::lemma2_to64();
            let p = vstd::arithmetic::power2::pow2(b as nat) as int;
            assert(r == ((a as int / p) % 2 == 0)) by {
                assert(b == 0 || b == 1 || b == 2 || b == 3 || b == 4 || b == 5 || b == 6 || b == 7);
                assert((a & (1u8 << b) == 0) == (if b == 0 { (a / 1) % 2 == 0 } else if b == 1 {
                    (a / 2) % 2 == 0
                } else if b == 2 {
                    (a / 4) % 2 == 0
                } else if b == 3 {
                    (a / 8) % 2 == 0
                } else if b == 4 {
                    (a / 16) % 2 == 0
                } else if b == 5 {
                    (a / 32) % 2 == 0
                } else if b == 6 {
                    (a / 64) % 2 == 0
                } else {
                    (a / 128) % 2 == 0
                })) by (bit_vector)
                    requires b < 8;
            }
        }
        let c = self.reg.getflag(FLAG_C);
        self.set_all_flags(r, false, true, c);
    }

    fn alu_daa(&mut self)
        ensures
            *final(self) == old(self).with_reg(daa_spec(old(self).reg)),
    {
        let mut a = self.reg.a;
        let ghost cflag = cf(self.reg);
        let ghost hflag = hf(self.reg);
        let mut adjust: u8 = if self.reg.getflag(FLAG_C) { 0x60 } else { 0x00 };
        if self.reg.getflag(FLAG_H) {
            adjust = adjust | 0x06;
        }
        let n = self.reg.getflag(FLAG_N);
        proof {
            lemma_low_nibble(a);
        }
        let lowcond = !n && a & 0x0F > 0x09;
        let highcond = !n && a > 0x99;
        if !n {
            if a & 0x0F > 0x09 {
                adjust = adjust | 0x06;
            }
            if a > 0x99 {
                adjust = adjust | 0x60;
            }
        }
        let ghost low = hflag || lowcond;
        let ghost high = cflag || highcond;
        proof {
            let x = adjust;
            assert(x == (if high { 0x60u8 } else { 0 }) + (if low { 0x06u8 } else { 0 })) by (bit_vector)
                requires
                    x == ({
                        let x0: u8 = if cflag { 0x60u8 } else { 0 };
                        let x1: u8 = if hflag { x0 | 0x06 } else { x0 };
                        let x2: u8 = if lowcond { x1 | 0x06 } else { x1 };
                        if highcond { x2 | 0x60 } else { x2 }
                    }),
                    low == (hflag || lowcond),
                    high == (cflag || highcond),
            ;
        }
        if !n {
            a = a.wrapping_add(adjust);
        } else {
            a = a.wrapping_sub(adjust);
        }
        let z = self.reg.getflag(FLAG_Z);
        self.reg.a = a;
        self.set_all_flags(a == 0, n, false, adjust >= 0x60);
    }
}

impl<C: SerialCallback> CPU<C> {
    /// The registers with a new program counter.
    pub open spec fn at_pc(r: Registers, pc: int) -> Registers {
        Registers { pc: wrap16(pc), ..r }
    }

    /// An instruction that changes only registers.
    pub open spec fn regs_post(s: CPU<C>, new: CPU<C>, r: Registers) -> bool {
        new == s.with_reg(r)
    }

    /// An instruction that changes registers and writes `v` to `a`.
    pub open spec fn store_post(s: CPU<C>, new: CPU<C>, r: Registers, a: u16, v: u8) -> bool {
        new == CPU { reg: r, mmu: new.mmu, ..s } && MMU::wb_post(s.mmu, new.mmu, a, v)
    }

    /// An instruction that pushes `v` on the stack and then has registers `r` (apart from SP).
    pub open spec fn push_post(s: CPU<C>, new: CPU<C>, r: Registers, v: u16) -> bool {
        let sp = wrap16(s.reg.sp + 65534);
        new == CPU { reg: Registers { sp, ..r }, mmu: new.mmu, ..s } && MMU::ww_post(s.mmu, new.mmu, sp, v)
    }

    /// An instruction that pops a word into `dst` (0 BC, 1 DE, 2 HL, 3 AF, 4 PC).
    pub open spec fn pop_value(s: CPU<C>) -> u16 {
        s.mmu.spec_rw(s.reg.sp)
    }

    /// The effect of executing opcode `op`, whose byte has been fetched: `s` is the state
    /// after the fetch, `new` the state after the instruction, `cycles` the machine cycles taken.
    pub open spec fn op_post(op: u8, s: CPU<C>, new: CPU<C>, cycles: u32) -> bool {
        if op_x(op) == 0 {
            CPU::op_post_x0(op, s, new, cycles)
        } else if op_x(op) == 1 {
            CPU::op_post_x1(op, s, new, cycles)
        } else if op_x(op) == 2 {
            let r = s.reg;
            let z = op_z(op);
            let v = if z == 6 { s.mmu.spec_rb(r.spec_hl()) } else { reg8(r, z) };
            CPU::regs_post(s, new, alu8_spec(op_y(op), r, v)) && cycles == (if z == 6 { 2u32 } else { 1 })
        } else if op == 0xCB {
            CPU::cb_post(
                s.mmu.spec_rb(s.reg.pc),
                s.with_reg(CPU::<C>::at_pc(s.reg, s.reg.pc + 1)),
                new,
                cycles,
            )
        } else {
            CPU::op_post_x3(op, s, new, cycles)
        }
    }

    /// Loads between registers and memory at HL, and HALT (0x40 - 0x7F).
    pub open spec fn op_post_x1(op: u8, s: CPU<C>, new: CPU<C>, cycles: u32) -> bool {
        let r = s.reg;
        let hl = r.spec_hl();
        let y = op_y(op);
        let z = op_z(op);
        if op == 0x76 {
            new == CPU { halted: true, ..s } && cycles == 1
        } else if z == 6 {
            CPU::regs_post(s, new, set_reg8(r, y, s.mmu.spec_rb(hl))) && cycles == 2
        } else if y == 6 {
            CPU::store_post(s, new, r, hl, reg8(r, z)) && cycles == 2
        } else {
            CPU::regs_post(s, new, set_reg8(r, y, reg8(r, z))) && cycles == 1
        }
    }

    /// The block 0x00 - 0x3F.
    pub open spec fn op_post_x0(op: u8, s: CPU<C>, new: CPU<C>, cycles: u32) -> bool {
        let r = s.reg;
        let m = s.mmu;
        let pc = r.pc;
        let hl = r.spec_hl();
        let y = op_y(op);
        let z = op_z(op);
        let p = op_p(op);
        let q = op_q(op);
        let imm8 = m.spec_rb(pc);
        let imm16 = m.spec_rw(pc);
        let r1 = CPU::<C>::at_pc(r, pc + 1);
        let r2 = CPU::<C>::at_pc(r, pc + 2);
        if z == 0 {
            if y == 0 {
                new == s && cycles == 1
            } else if y == 1 {
                new == CPU { reg: r2, mmu: new.mmu, ..s } && MMU::ww_post(m, new.mmu, imm16, r.sp) && cycles
                    == 5
            } else if y == 2 {
                new == CPU { mmu: m.spec_switch_speed(), ..s } && cycles == 1
            } else if y == 3 {
                CPU::regs_post(s, new, Registers { pc: jr_target(r1.pc, imm8), ..r }) && cycles == 3
            } else if cond(r, y - 4) {
                CPU::regs_post(s, new, Registers { pc: jr_target(r1.pc, imm8), ..r }) && cycles == 3
            } else {
                CPU::regs_post(s, new, r1) && cycles == 2
            }
        } else if z == 1 {
            if q == 0 {
                CPU::regs_post(s, new, set_reg16(r2, p, imm16)) && cycles == 3
            } else {
                CPU::regs_post(s, new, add16_spec(r, reg16(r, p))) && cycles == 2
            }
        } else if z == 2 {
            let addr = if p == 0 { r.spec_bc() } else if p == 1 { r.spec_de() } else { hl };
            let ra = if p == 2 {
                set_reg16(r, 2, wrap16(hl + 1))
            } else if p == 3 {
                set_reg16(r, 2, wrap16(hl + 65535))
            } else {
                r
            };
            if q == 0 {
                CPU::store_post(s, new, ra, addr, r.a) && cycles == 2
            } else {
                CPU::regs_post(s, new, Registers { a: m.spec_rb(addr), ..ra }) && cycles == 2
            }
        } else if z == 3 {
            let v = if q == 0 { wrap16(reg16(r, p) + 1) } else { wrap16(reg16(r, p) + 65535) };
            CPU::regs_post(s, new, set_reg16(r, p, v)) && cycles == 2
        } else if z == 4 || z == 5 {
            let v = if y == 6 { m.spec_rb(hl) } else { reg8(r, y) };
            let res = if z == 4 { u8v(v + 1) } else { u8v(v - 1) };
            let rf = if z == 4 { inc_flags(r, v) } else { dec_flags(r, v) };
            if y == 6 {
                CPU::store_post(s, new, rf, hl, res) && cycles == 3
            } else {
                CPU::regs_post(s, new, set_reg8(rf, y, res)) && cycles == 1
            }
        } else if z == 6 {
            if y == 6 {
                CPU::store_post(s, new, r1, hl, imm8) && cycles == 3
            } else {
                CPU::regs_post(s, new, set_reg8(r1, y, imm8)) && cycles == 2
            }
        } else {
            let rr = if y <= 3 {
                rot_a_spec(y, r)
            } else if y == 4 {
                daa_spec(r)
            } else if y == 5 {
                cpl_spec(r)
            } else if y == 6 {
                scf_spec(r)
            } else {
                ccf_spec(r)
            };
            CPU::regs_post(s, new, rr) && cycles == 1
        }
    }

    /// The block 0xC0 - 0xFF, without the CB prefix.
    pub open spec fn op_post_x3(op: u8, s: CPU<C>, new: CPU<C>, cycles: u32) -> bool {
        let r = s.reg;
        let m = s.mmu;
        let pc = r.pc;
        let hl = r.spec_hl();
        let y = op_y(op);
        let z = op_z(op);
        let p = op_p(op);
        let q = op_q(op);
        let imm8 = m.spec_rb(pc);
        let imm16 = m.spec_rw(pc);
        let r1 = CPU::<C>::at_pc(r, pc + 1);
        let r2 = CPU::<C>::at_pc(r, pc + 2);
        let popped = CPU::pop_value(s);
        let rpop = Registers { sp: wrap16(r.sp + 2), ..r };
        if is_unimplemented(op) {
            false
        } else if z == 0 {
            if y <= 3 {
                if cond(r, y) {
                    CPU::regs_post(s, new, Registers { pc: popped, ..rpop }) && cycles == 5
                } else {
                    CPU::regs_post(s, new, r) && cycles == 2
                }
            } else if y == 4 {
                CPU::store_post(s, new, r1, 0xFF00u16 | (imm8 as u16), r.a) && cycles == 3
            } else if y == 5 {
                CPU::regs_post(
                    s,
                    new,
                    Registers { sp: add16imm_value(r.sp, imm8), ..add16imm_flags(r1, r.sp, imm8) },
                ) && cycles == 4
            } else if y == 6 {
                CPU::regs_post(s, new, Registers { a: m.spec_rb(0xFF00u16 | (imm8 as u16)), ..r1 }) && cycles == 3
            } else {
                CPU::regs_post(s, new, set_reg16(add16imm_flags(r1, r.sp, imm8), 2, add16imm_value(r.sp, imm8)))
                    && cycles == 3
            }
        } else if z == 1 {
            if q == 0 {
                if p == 3 {
                    let v = (popped & 0xFFF0) as u16;
                    CPU::regs_post(
                        s,
                        new,
                        Registers { a: crate::register::hi_byte(v), f: crate::register::lo_byte(v) & 0xF0, ..rpop },
                    ) && cycles == 3
                } else {
                    CPU::regs_post(s, new, set_reg16(rpop, p, popped)) && cycles == 3
                }
            } else if p == 0 {
                CPU::regs_post(s, new, Registers { pc: popped, ..rpop }) && cycles == 4
            } else if p == 1 {
                new == CPU { reg: Registers { pc: popped, ..rpop }, setei: 1, ..s } && cycles == 4
            } else if p == 2 {
                CPU::regs_post(s, new, Registers { pc: hl, ..r }) && cycles == 1
            } else {
                CPU::regs_post(s, new, Registers { sp: hl, ..r }) && cycles == 2
            }
        } else if z == 2 {
            if y <= 3 {
                if cond(r, y) {
                    CPU::regs_post(s, new, Registers { pc: imm16, ..r }) && cycles == 4
                } else {
                    CPU::regs_post(s, new, r2) && cycles == 3
                }
            } else if y == 4 {
                CPU::store_post(s, new, r, 0xFF00u16 | (r.c as u16), r.a) && cycles == 2
            } else if y == 5 {
                CPU::store_post(s, new, r2, imm16, r.a) && cycles == 4
            } else if y == 6 {
                CPU::regs_post(s, new, Registers { a: m.spec_rb(0xFF00u16 | (r.c as u16)), ..r }) && cycles == 2
            } else {
                CPU::regs_post(s, new, Registers { a: m.spec_rb(imm16), ..r2 }) && cycles == 4
            }
        } else if z == 3 {
            if y == 0 {
                CPU::regs_post(s, new, Registers { pc: imm16, ..r }) && cycles == 4
            } else if y == 6 {
                new == CPU { setdi: 2, ..s } && cycles == 1
            } else {
                new == CPU { setei: 2, ..s } && cycles == 1
            }
        } else if z == 4 || (z == 5 && q == 1) {
            if z == 5 || cond(r, y) {
                CPU::push_post(s, new, Registers { pc: new.mmu.spec_rw(pc), ..r }, r2.pc) && cycles == 6
            } else {
                CPU::regs_post(s, new, r2) && cycles == 3
            }
        } else if z == 5 {
            let v = if p == 3 { r.spec_af() } else { reg16(r, p) };
            CPU::push_post(s, new, r, v) && cycles == 4
        } else if z == 6 {
            CPU::regs_post(s, new, alu8_spec(y, r1, imm8)) && cycles == 2
        } else {
            CPU::push_post(s, new, Registers { pc: (y * 8) as u16, ..r }, pc) && cycles == 4
        }
    }

    /// The effect of CB-prefixed opcode `op`, fetched, with `s` the state after the fetch.
    pub open spec fn cb_post(op: u8, s: CPU<C>, new: CPU<C>, cycles: u32) -> bool {
        let r = s.reg;
        let hl = r.spec_hl();
        let x = op_x(op);
        let y = op_y(op);
        let z = op_z(op);
        let v = if z == 6 { s.mmu.spec_rb(hl) } else { reg8(r, z) };
        if x == 1 {
            CPU::regs_post(s, new, bit_flags(r, v, y)) && cycles == (if z == 6 { 3u32 } else { 2 })
        } else {
            let res = if x == 0 {
                cb_value(y, r, v)
            } else if x == 2 {
                v & !(1u8 << (y as u8))
            } else {
                v | (1u8 << (y as u8))
            };
            let rf = if x == 0 { cb_flags(y, r, v) } else { r };
            if z == 6 {
                CPU::store_post(s, new, rf, hl, res) && cycles == 4
            } else {
                CPU::regs_post(s, new, set_reg8(rf, z, res)) && cycles == 2
            }
        }
    }
}

impl<C: SerialCallback> CPU<C> {
    pub fn fetchbyte(&mut self) -> (b: u8)
        requires
            old(self).wf(),
        ensures
            b == old(self).mmu.spec_rb(old(self).reg.pc),
            *final(self) == old(self).with_reg(CPU::<C>::at_pc(old(self).reg, old(self).reg.pc + 1)),
            final(self).wf(),
    {
        let b = self.mmu.rb(self.reg.pc);
        self.reg.pc = self.reg.pc.wrapping_add(1);
        b
    }

    pub fn fetchword(&mut self) -> (w: u16)
        requires
            old(self).wf(),
        ensures
            w == old(self).mmu.spec_rw(old(self).reg.pc),
            *final(self) == old(self).with_reg(CPU::<C>::at_pc(old(self).reg, old(self).reg.pc + 2)),
            final(self).wf(),
    {
        let w = self.mmu.rw(self.reg.pc);
        self.reg.pc = self.reg.pc.wrapping_add(2);
        w
    }

    pub fn pushstack(&mut self, value: u16)
        requires
            old(self).wf(),
        ensures
            CPU::push_post(*old(self), *final(self), old(self).reg, value),
            final(self).wf(),
    {
        self.reg.sp = self.reg.sp.wrapping_sub(2);
        self.mmu.ww(self.reg.sp, value);
    }

    pub fn popstack(&mut self) -> (v: u16)
        requires
            old(self).wf(),
        ensures
            v == CPU::pop_value(*old(self)),
            *final(self) == old(self).with_reg(Registers { sp: wrap16(old(self).reg.sp + 2), ..old(self).reg }),
            final(self).wf(),
    {
        let res = self.mmu.rw(self.reg.sp);
        self.reg.sp = self.reg.sp.wrapping_add(2);
        res
    }

    /// A relative jump by the signed offset byte at PC.
    fn cpu_jr(&mut self)
        requires
            old(self).wf(),
        ensures
            *final(self) == old(self).with_reg(Registers {
                pc: jr_target(wrap16(old(self).reg.pc + 1), old(self).mmu.spec_rb(old(self).reg.pc)),
                ..old(self).reg
            }),
            final(self).wf(),
    {
        let n = self.fetchbyte();
        let pc = self.reg.pc;
        proof {
            assert(((pc as u32 as i32) + (n as i8 as i32)) as u16 == jr_target(pc, n)) by (bit_vector);
        }
        self.reg.pc = ((self.reg.pc as u32 as i32) + (n as i8 as i32)) as u16;
    }


    /// Loads, increments, rotates and jumps of the block 0x00 - 0x3F.
    fn call_x0(&mut self, opcode: u8) -> (cycles: u32)
        requires
            old(self).wf(),
            0x00 <= opcode <= 0x3f,
            !is_unimplemented(opcode),
        ensures
            CPU::op_post(opcode, *old(self), *final(self), cycles),
            final(self).wf(),
    {
        if opcode <= 0x0f {
            self.call_x0_0(opcode)
        } else if opcode <= 0x1f {
            self.call_x0_1(opcode)
        } else if opcode <= 0x2f {
            self.call_x0_2(opcode)
        } else {
            self.call_x0_3(opcode)
        }
    }

    fn call_x0_0(&mut self, opcode: u8) -> (cycles: u32)
        requires
            old(self).wf(),
            0x00 <= opcode <= 0x0f,
            !is_unimplemented(opcode),
        ensures
            CPU::op_post(opcode, *old(self), *final(self), cycles),
            final(self).wf(),
    {
        if opcode <= 0x07 {
            self.call_x0_0a(opcode)
        } else {
            self.call_x0_0b(opcode)
        }
    }

    #[verifier::rlimit(80)]
    #[verifier::spinoff_prover]
    fn call_x0_0a(&mut self, opcode: u8) -> (cycles: u32)
        requires
            old(self).wf(),
            0x00 <= opcode <= 0x07,
            !is_unimplemented(opcode),
        ensures
            CPU::op_post(opcode, *old(self), *final(self), cycles),
            final(self).wf(),
    {
        match opcode {
            0x00 => { 1 },
            0x01 => { let v = self.fetchword(); self.reg.setbc(v); 3 },
            0x02 => { self.mmu.wb(self.reg.bc(), self.reg.a); 2 },
            0x03 => { self.reg.setbc(self.reg.bc().wrapping_add(1)); 2 },
            0x04 => { self.reg.b = self.alu_inc(self.reg.b); 1 },
            0x05 => { self.reg.b = self.alu_dec(self.reg.b); 1 },
            0x06 => { self.reg.b = self.fetchbyte(); 2 },
            _ => { self.reg.a = self.alu_rlc(self.reg.a); let c = self.reg.getflag(FLAG_C); self.set_all_flags(false, false, false, c); 1 },
        }
    }

    #[verifier::rlimit(80)]
    #[verifier::spinoff_prover]
    fn call_x0_0b(&mut self, opcode: u8) -> (cycles: u32)
        requires
            old(self).wf(),
            0x08 <= opcode <= 0x0f,
            !is_unimplemented(opcode),
        ensures
            CPU::op_post(opcode, *old(self), *final(self), cycles),
            final(self).wf(),
    {
        match opcode {
            0x08 => { let a = self.fetchword(); self.mmu.ww(a, self.reg.sp); 5 },
            0x09 => { self.alu_add16(self.reg.bc()); 2 },
            0x0A => { self.reg.a = self.mmu.rb(self.reg.bc()); 2 },
            0x0B => { self.reg.setbc(self.reg.bc().wrapping_sub(1)); 2 },
            0x0C => { self.reg.c = self.alu_inc(self.reg.c); 1 },
            0x0D => { self.reg.c = self.alu_dec(self.reg.c); 1 },
            0x0E => { self.reg.c = self.fetchbyte(); 2 },
            _ => { self.reg.a = self.alu_rrc(self.reg.a); let c = self.reg.getflag(FLAG_C); self.set_all_flags(false, false, false, c); 1 },
        }
    }

    fn call_x0_1(&mut self, opcode: u8) -> (cycles: u32)
        requires
            old(self).wf(),
            0x10 <= opcode <= 0x1f,
            !is_unimplemented(opcode),
        ensures
            CPU::op_post(opcode, *old(self), *final(self), cycles),
            final(self).wf(),
    {
        if opcode <= 0x17 {
            self.call_x0_1a(opcode)
        } else {
            self.call_x0_1b(opcode)
        }
    }

    #[verifier::rlimit(80)]
    #[verifier::spinoff_prover]
    fn call_x0_1a(&mut self, opcode: u8) -> (cycles: u32)
        requires
            old(self).wf(),
            0x10 <= opcode <= 0x17,
            !is_unimplemented(opcode),
        ensures
            CPU::op_post(opcode, *old(self), *final(self), cycles),
            final(self).wf(),
    {
        match opcode {
            0x10 => { self.mmu.switch_speed(); 1 }, // STOP
            0x11 => { let v = self.fetchword(); self.reg.setde(v); 3 },
            0x12 => { self.mmu.wb(self.reg.de(), self.reg.a); 2 },
            0x13 => { self.reg.setde(self.reg.de().wrapping_add(1)); 2 },
            0x14 => { self.reg.d = self.alu_inc(self.reg.d); 1 },
            0x15 => { self.reg.d = self.alu_dec(self.reg.d); 1 },
            0x16 => { self.reg.d = self.fetchbyte(); 2 },
            _ => { self.reg.a = self.alu_rl(self.reg.a); let c = self.reg.getflag(FLAG_C); self.set_all_flags(false, false, false, c); 1 },
        }
    }

    #[verifier::rlimit(80)]
    #[verifier::spinoff_prover]
    fn call_x0_1b(&mut self, opcode: u8) -> (cycles: u32)
        requires
            old(self).wf(),
            0x18 <= opcode <= 0x1f,
            !is_unimplemented(opcode),
        ensures
            CPU::op_post(opcode, *old(self), *final(self), cycles),
            final(self).wf(),
    {
        match opcode {
            0x18 => { self.cpu_jr(); 3 },
            0x19 => { self.alu_add16(self.reg.de()); 2 },
            0x1A => { self.reg.a = self.mmu.rb(self.reg.de()); 2 },
            0x1B => { self.reg.setde(self.reg.de().wrapping_sub(1)); 2 },
            0x1C => { self.reg.e = self.alu_inc(self.reg.e); 1 },
            0x1D => { self.reg.e = self.alu_dec(self.reg.e); 1 },
            0x1E => { self.reg.e = self.fetchbyte(); 2 },
            _ => { self.reg.a = self.alu_rr(self.reg.a); let c = self.reg.getflag(FLAG_C); self.set_all_flags(false, false, false, c); 1 },
        }
    }

    fn call_x0_2(&mut self, opcode: u8) -> (cycles: u32)
        requires
            old(self).wf(),
            0x20 <= opcode <= 0x2f,
            !is_unimplemented(opcode),
        ensures
            CPU::op_post(opcode, *old(self), *final(self), cycles),
            final(self).wf(),
    {
        if opcode <= 0x27 {
            self.call_x0_2a(opcode)
        } else {
            self.call_x0_2b(opcode)
        }
    }

    #[verifier::rlimit(80)]
    #[verifier::spinoff_prover]
    fn call_x0_2a(&mut self, opcode: u8) -> (cycles: u32)
        requires
            old(self).wf(),
            0x20 <= opcode <= 0x27,
            !is_unimplemented(opcode),
        ensures
            CPU::op_post(opcode, *old(self), *final(self), cycles),
            final(self).wf(),
    {
        match opcode {
            0x20 => { if !self.reg.getflag(FLAG_Z) { self.cpu_jr(); 3 } else { self.reg.pc = self.reg.pc.wrapping_add(1); 2 } },
            0x21 => { let v = self.fetchword(); self.reg.sethl(v); 3 },
            0x22 => { self.mmu.wb(self.reg.hli(), self.reg.a); 2 },
            0x23 => { let v = self.reg.hl().wrapping_add(1); self.reg.sethl(v); 2 },
            0x24 => { self.reg.h = self.alu_inc(self.reg.h); 1 },
            0x25 => { self.reg.h = self.alu_dec(self.reg.h); 1 },
            0x26 => { self.reg.h = self.fetchbyte(); 2 },
            _ => { self.alu_daa(); 1 },
        }
    }

    #[verifier::rlimit(80)]
    #[verifier::spinoff_prover]
    fn call_x0_2b(&mut self, opcode: u8) -> (cycles: u32)
        requires
            old(self).wf(),
            0x28 <= opcode <= 0x2f,
            !is_unimplemented(opcode),
        ensures
            CPU::op_post(opcode, *old(self), *final(self), cycles),
            final(self).wf(),
    {
        match opcode {
            0x28 => { if self.reg.getflag(FLAG_Z) { self.cpu_jr(); 3 } else { self.reg.pc = self.reg.pc.wrapping_add(1); 2  } },
            0x29 => { let v = self.reg.hl(); self.alu_add16(v); 2 },
            0x2A => { self.reg.a = self.mmu.rb(self.reg.hli()); 2 },
            0x2B => { let v = self.reg.hl().wrapping_sub(1); self.reg.sethl(v); 2 },
            0x2C => { self.reg.l = self.alu_inc(self.reg.l); 1 },
            0x2D => { self.reg.l = self.alu_dec(self.reg.l); 1 },
            0x2E => { self.reg.l = self.fetchbyte(); 2 },
            _ => { self.reg.a = !self.reg.a; let z = self.reg.getflag(FLAG_Z); let c = self.reg.getflag(FLAG_C); self.set_all_flags(z, true, true, c); 1 },
        }
    }

    fn call_x0_3(&mut self, opcode: u8) -> (cycles: u32)
        requires
            old(self).wf(),
            0x30 <= opcode <= 0x3f,
            !is_unimplemented(opcode),
        ensures
            CPU::op_post(opcode, *old(self), *final(self), cycles),
            final(self).wf(),
    {
        if opcode <= 0x37 {
            self.call_x0_3a(opcode)
        } else {
            self.call_x0_3b(opcode)
        }
    }

    #[verifier::rlimit(80)]
    #[verifier::spinoff_prover]
    fn call_x0_3a(&mut self, opcode: u8) -> (cycles: u32)
        requires
            old(self).wf(),
            0x30 <= opcode <= 0x37,
            !is_unimplemented(opcode),
        ensures
            CPU::op_post(opcode, *old(self), *final(self), cycles),
            final(self).wf(),
    {
        match opcode {
            0x30 => { if !self.reg.getflag(FLAG_C) { self.cpu_jr(); 3 } else { self.reg.pc = self.reg.pc.wrapping_add(1); 2 } },
            0x31 => { self.reg.sp = self.fetchword(); 3 },
            0x32 => { self.mmu.wb(self.reg.hld(), self.reg.a); 2 },
            0x33 => { self.reg.sp = self.reg.sp.wrapping_add(1); 2 },
            0x34 => { let a = self.reg.hl(); let v = self.mmu.rb(a); let v2 = self.alu_inc(v); self.mmu.wb(a, v2); 3 },
            0x35 => { let a = self.reg.hl(); let v = self.mmu.rb(a); let v2 = self.alu_dec(v); self.mmu.wb(a, v2); 3 },
            0x36 => { let v = self.fetchbyte(); self.mmu.wb(self.reg.hl(), v); 3 },
            _ => { let z = self.reg.getflag(FLAG_Z); self.set_all_flags(z, false, false, true); 1 },
        }
    }

    #[verifier::rlimit(80)]
    #[verifier::spinoff_prover]
    fn call_x0_3b(&mut self, opcode: u8) -> (cycles: u32)
        requires
            old(self).wf(),
            0x38 <= opcode <= 0x3f,
            !is_unimplemented(opcode),
        ensures
            CPU::op_post(opcode, *old(self), *final(self), cycles),
            final(self).wf(),
    {
        match opcode {
            0x38 => { if self.reg.getflag(FLAG_C) { self.cpu_jr(); 3 } else { self.reg.pc = self.reg.pc.wrapping_add(1); 2  } },
            0x39 => { self.alu_add16(self.reg.sp); 2 },
            0x3A => { self.reg.a = self.mmu.rb(self.reg.hld()); 2 },
            0x3B => { self.reg.sp = self.reg.sp.wrapping_sub(1); 2 },
            0x3C => { self.reg.a = self.alu_inc(self.reg.a); 1 },
            0x3D => { self.reg.a = self.alu_dec(self.reg.a); 1 },
            0x3E => { self.reg.a = self.fetchbyte(); 2 },
            _ => { let z = self.reg.getflag(FLAG_Z); let v = !self.reg.getflag(FLAG_C); self.set_all_flags(z, false, false, v); 1 },
        }
    }

    /// ALU operations on A and a register or memory at HL.
    fn call_x2(&mut self, opcode: u8) -> (cycles: u32)
        requires
            old(self).wf(),
            0x80 <= opcode <= 0xbf,
            !is_unimplemented(opcode),
        ensures
            CPU::op_post(opcode, *old(self), *final(self), cycles),
            final(self).wf(),
    {
        if opcode <= 0x8f {
            self.call_x2_0(opcode)
        } else if opcode <= 0x9f {
            self.call_x2_1(opcode)
        } else if opcode <= 0xaf {
            self.call_x2_2(opcode)
        } else {
            self.call_x2_3(opcode)
        }
    }

    #[verifier::rlimit(60)]
    #[verifier::spinoff_prover]
    fn call_x2_0(&mut self, opcode: u8) -> (cycles: u32)
        requires
            old(self).wf(),
            0x80 <= opcode <= 0x8f,
            !is_unimplemented(opcode),
        ensures
            CPU::op_post(opcode, *old(self), *final(self), cycles),
            final(self).wf(),
    {
        match opcode {
            0x80 => { self.alu_add(self.reg.b, false); 1 },
            0x81 => { self.alu_add(self.reg.c, false); 1 },
            0x82 => { self.alu_add(self.reg.d, false); 1 },
            0x83 => { self.alu_add(self.reg.e, false); 1 },
            0x84 => { self.alu_add(self.reg.h, false); 1 },
            0x85 => { self.alu_add(self.reg.l, false); 1 },
            0x86 => { let v = self.mmu.rb(self.reg.hl()); self.alu_add(v, false); 2 },
            0x87 => { self.alu_add(self.reg.a, false); 1 },
            0x88 => { self.alu_add(self.reg.b, true); 1 },
            0x89 => { self.alu_add(self.reg.c, true); 1 },
            0x8A => { self.alu_add(self.reg.d, true); 1 },
            0x8B => { self.alu_add(self.reg.e, true); 1 },
            0x8C => { self.alu_add(self.reg.h, true); 1 },
            0x8D => { self.alu_add(self.reg.l, true); 1 },
            0x8E => { let v = self.mmu.rb(self.reg.hl()); self.alu_add(v, true); 2 },
            _ => { self.alu_add(self.reg.a, true); 1 },
        }
    }

    #[verifier::rlimit(60)]
    #[verifier::spinoff_prover]
    fn call_x2_1(&mut self, opcode: u8) -> (cycles: u32)
        requires
            old(self).wf(),
            0x90 <= opcode <= 0x9f,
            !is_unimplemented(opcode),
        ensures
            CPU::op_post(opcode, *old(self), *final(self), cycles),
            final(self).wf(),
    {
        match opcode {
            0x90 => { self.alu_sub(self.reg.b, false); 1 },
            0x91 => { self.alu_sub(self.reg.c, false); 1 },
            0x92 => { self.alu_sub(self.reg.d, false); 1 },
            0x93 => { self.alu_sub(self.reg.e, false); 1 },
            0x94 => { self.alu_sub(self.reg.h, false); 1 },
            0x95 => { self.alu_sub(self.reg.l, false); 1 },
            0x96 => { let v = self.mmu.rb(self.reg.hl()); self.alu_sub(v, false); 2 },
            0x97 => { self.alu_sub(self.reg.a, false); 1 },
            0x98 => { self.alu_sub(self.reg.b, true); 1 },
            0x99 => { self.alu_sub(self.reg.c, true); 1 },
            0x9A => { self.alu_sub(self.reg.d, true); 1 },
            0x9B => { self.alu_sub(self.reg.e, true); 1 },
            0x9C => { self.alu_sub(self.reg.h, true); 1 },
            0x9D => { self.alu_sub(self.reg.l, true); 1 },
            0x9E => { let v = self.mmu.rb(self.reg.hl()); self.alu_sub(v, true); 2 },
            _ => { self.alu_sub(self.reg.a, true); 1 },
        }
    }

    #[verifier::rlimit(60)]
    #[verifier::spinoff_prover]
    fn call_x2_2(&mut self, opcode: u8) -> (cycles: u32)
        requires
            old(self).wf(),
            0xa0 <= opcode <= 0xaf,
            !is_unimplemented(opcode),
        ensures
            CPU::op_post(opcode, *old(self), *final(self), cycles),
            final(self).wf(),
    {
        match opcode {
            0xA0 => { self.alu_and(self.reg.b); 1 },
            0xA1 => { self.alu_and(self.reg.c); 1 },
            0xA2 => { self.alu_and(self.reg.d); 1 },
            0xA3 => { self.alu_and(self.reg.e); 1 },
            0xA4 => { self.alu_and(self.reg.h); 1 },
            0xA5 => { self.alu_and(self.reg.l); 1 },
            0xA6 => { let v = self.mmu.rb(self.reg.hl()); self.alu_and(v); 2 },
            0xA7 => { self.alu_and(self.reg.a); 1 },
            0xA8 => { self.alu_xor(self.reg.b); 1 },
            0xA9 => { self.alu_xor(self.reg.c); 1 },
            0xAA => { self.alu_xor(self.reg.d); 1 },
            0xAB => { self.alu_xor(self.reg.e); 1 },
            0xAC => { self.alu_xor(self.reg.h); 1 },
            0xAD => { self.alu_xor(self.reg.l); 1 },
            0xAE => { let v = self.mmu.rb(self.reg.hl()); self.alu_xor(v); 2 },
            _ => { self.alu_xor(self.reg.a); 1 },
        }
    }

    #[verifier::rlimit(60)]
    #[verifier::spinoff_prover]
    fn call_x2_3(&mut self, opcode: u8) -> (cycles: u32)
        requires
            old(self).wf(),
            0xb0 <= opcode <= 0xbf,
            !is_unimplemented(opcode),
        ensures
            CPU::op_post(opcode, *old(self), *final(self), cycles),
            final(self).wf(),
    {
        match opcode {
            0xB0 => { self.alu_or(self.reg.b); 1 },
            0xB1 => { self.alu_or(self.reg.c); 1 },
            0xB2 => { self.alu_or(self.reg.d); 1 },
            0xB3 => { self.alu_or(self.reg.e); 1 },
            0xB4 => { self.alu_or(self.reg.h); 1 },
            0xB5 => { self.alu_or(self.reg.l); 1 },
            0xB6 => { let v = self.mmu.rb(self.reg.hl()); self.alu_or(v); 2 },
            0xB7 => { self.alu_or(self.reg.a); 1 },
            0xB8 => { self.alu_cp(self.reg.b); 1 },
            0xB9 => { self.alu_cp(self.reg.c); 1 },
            0xBA => { self.alu_cp(self.reg.d); 1 },
            0xBB => { self.alu_cp(self.reg.e); 1 },
            0xBC => { self.alu_cp(self.reg.h); 1 },
            0xBD => { self.alu_cp(self.reg.l); 1 },
            0xBE => { let v = self.mmu.rb(self.reg.hl()); self.alu_cp(v); 2 },
            _ => { self.alu_cp(self.reg.a); 1 },
        }
    }

    /// Stack operations, calls, jumps, returns, and operations with immediates.
    fn call_x3(&mut self, opcode: u8) -> (cycles: u32)
        requires
            old(self).wf(),
            0xc0 <= opcode <= 0xff,
            !is_unimplemented(opcode),
        ensures
            CPU::op_post(opcode, *old(self), *final(self), cycles),
            final(self).wf(),
    {
        if opcode <= 0xcf {
            self.call_x3_0(opcode)
        } else if opcode <= 0xdf {
            self.call_x3_1(opcode)
        } else if opcode <= 0xef {
            self.call_x3_2(opcode)
        } else {
            self.call_x3_3(opcode)
        }
    }

    #[verifier::rlimit(60)]
    #[verifier::spinoff_prover]
    fn call_x3_0(&mut self, opcode: u8) -> (cycles: u32)
        requires
            old(self).wf(),
            0xc0 <= opcode <= 0xcf,
            !is_unimplemented(opcode),
        ensures
            CPU::op_post(opcode, *old(self), *final(self), cycles),
            final(self).wf(),
    {
        match opcode {
            0xC0 => { if !self.reg.getflag(FLAG_Z) { self.reg.pc = self.popstack(); 5 } else { 2 } },
            0xC1 => { let v = self.popstack(); self.reg.setbc(v); 3 },
            0xC2 => { if !self.reg.getflag(FLAG_Z) { self.reg.pc = self.fetchword(); 4 } else { self.reg.pc = self.reg.pc.wrapping_add(2); 3 } },
            0xC3 => { self.reg.pc = self.fetchword(); 4 },
            0xC4 => { if !self.reg.getflag(FLAG_Z) { self.pushstack(self.reg.pc.wrapping_add(2)); self.reg.pc = self.fetchword(); 6 } else { self.reg.pc = self.reg.pc.wrapping_add(2); 3 } },
            0xC5 => { self.pushstack(self.reg.bc()); 4 },
            0xC6 => { let v = self.fetchbyte(); self.alu_add(v, false); 2 },
            0xC7 => { self.pushstack(self.reg.pc); self.reg.pc = 0x00; 4 },
            0xC8 => { if self.reg.getflag(FLAG_Z) { self.reg.pc = self.popstack(); 5 } else { 2 } },
            0xC9 => { self.reg.pc = self.popstack(); 4 },
            0xCA => { if self.reg.getflag(FLAG_Z) { self.reg.pc = self.fetchword(); 4 } else { self.reg.pc = self.reg.pc.wrapping_add(2); 3 } },
            0xCB => { self.call_cb() },
            0xCC => { if self.reg.getflag(FLAG_Z) { self.pushstack(self.reg.pc.wrapping_add(2)); self.reg.pc = self.fetchword(); 6 } else { self.reg.pc = self.reg.pc.wrapping_add(2); 3 } },
            0xCD => { self.pushstack(self.reg.pc.wrapping_add(2)); self.reg.pc = self.fetchword(); 6 },
            0xCE => { let v = self.fetchbyte(); self.alu_add(v, true); 2 },
            _ => { self.pushstack(self.reg.pc); self.reg.pc = 0x08; 4 },
        }
    }

    #[verifier::rlimit(60)]
    #[verifier::spinoff_prover]
    fn call_x3_1(&mut self, opcode: u8) -> (cycles: u32)
        requires
            old(self).wf(),
            0xd0 <= opcode <= 0xdf,
            !is_unimplemented(opcode),
        ensures
            CPU::op_post(opcode, *old(self), *final(self), cycles),
            final(self).wf(),
    {
        match opcode {
            0xD0 => { if !self.reg.getflag(FLAG_C) { self.reg.pc = self.popstack(); 5 } else { 2 } },
            0xD1 => { let v = self.popstack(); self.reg.setde(v); 3 },
            0xD2 => { if !self.reg.getflag(FLAG_C) { self.reg.pc = self.fetchword(); 4 } else { self.reg.pc = self.reg.pc.wrapping_add(2); 3 } },
            0xD4 => { if !self.reg.getflag(FLAG_C) { self.pushstack(self.reg.pc.wrapping_add(2)); self.reg.pc = self.fetchword(); 6 } else { self.reg.pc = self.reg.pc.wrapping_add(2); 3 } },
            0xD5 => { self.pushstack(self.reg.de()); 4 },
            0xD6 => { let v = self.fetchbyte(); self.alu_sub(v, false); 2 },
            0xD7 => { self.pushstack(self.reg.pc); self.reg.pc = 0x10; 4 },
            0xD8 => { if self.reg.getflag(FLAG_C) { self.reg.pc = self.popstack(); 5 } else { 2 } },
            0xD9 => { self.reg.pc = self.popstack(); self.setei = 1; 4 },
            0xDA => { if self.reg.getflag(FLAG_C) { self.reg.pc = self.fetchword(); 4 } else { self.reg.pc = self.reg.pc.wrapping_add(2); 3 } },
            0xDC => { if self.reg.getflag(FLAG_C) { self.pushstack(self.reg.pc.wrapping_add(2)); self.reg.pc = self.fetchword(); 6 } else { self.reg.pc = self.reg.pc.wrapping_add(2); 3 } },
            0xDE => { let v = self.fetchbyte(); self.alu_sub(v, true); 2 },
            _ => { self.pushstack(self.reg.pc); self.reg.pc = 0x18; 4 },
        }
    }

    #[verifier::rlimit(60)]
    #[verifier::spinoff_prover]
    fn call_x3_2(&mut self, opcode: u8) -> (cycles: u32)
        requires
            old(self).wf(),
            0xe0 <= opcode <= 0xef,
            !is_unimplemented(opcode),
        ensures
            CPU::op_post(opcode, *old(self), *final(self), cycles),
            final(self).wf(),
    {
        match opcode {
            0xE0 => { let a = 0xFF00 | self.fetchbyte() as u16; self.mmu.wb(a, self.reg.a); 3 },
            0xE1 => { let v = self.popstack(); self.reg.sethl(v); 3 },
            0xE2 => { self.mmu.wb(0xFF00 | self.reg.c as u16, self.reg.a); 2 },
            0xE5 => { self.pushstack(self.reg.hl()); 4 },
            0xE6 => { let v = self.fetchbyte(); self.alu_and(v); 2 },
            0xE7 => { self.pushstack(self.reg.pc); self.reg.pc = 0x20; 4 },
            0xE8 => { self.reg.sp = self.alu_add16imm(self.reg.sp); 4 },
            0xE9 => { self.reg.pc = self.reg.hl(); 1 },
            0xEA => { let a = self.fetchword(); self.mmu.wb(a, self.reg.a); 4 },
            0xEE => { let v = self.fetchbyte(); self.alu_xor(v); 2 },
            _ => { self.pushstack(self.reg.pc); self.reg.pc = 0x28; 4 },
        }
    }

    #[verifier::rlimit(60)]
    #[verifier::spinoff_prover]
    fn call_x3_3(&mut self, opcode: u8) -> (cycles: u32)
        requires
            old(self).wf(),
            0xf0 <= opcode <= 0xff,
            !is_unimplemented(opcode),
        ensures
            CPU::op_post(opcode, *old(self), *final(self), cycles),
            final(self).wf(),
    {
        match opcode {
            0xF0 => { let a = 0xFF00 | self.fetchbyte() as u16; self.reg.a = self.mmu.rb(a); 3 },
            0xF1 => { let v = self.popstack() & 0xFFF0; self.reg.setaf(v); 3 },
            0xF2 => { self.reg.a = self.mmu.rb(0xFF00 | self.reg.c as u16); 2 },
            0xF3 => { self.setdi = 2; 1 },
            0xF5 => { self.pushstack(self.reg.af()); 4 },
            0xF6 => { let v = self.fetchbyte(); self.alu_or(v); 2 },
            0xF7 => { self.pushstack(self.reg.pc); self.reg.pc = 0x30; 4 },
            0xF8 => { let r = self.alu_add16imm(self.reg.sp); self.reg.sethl(r); 3 },
            0xF9 => { self.reg.sp = self.reg.hl(); 2 },
            0xFA => { let a = self.fetchword(); self.reg.a = self.mmu.rb(a); 4 },
            0xFB => { self.setei = 2; 1 },
            0xFE => { let v = self.fetchbyte(); self.alu_cp(v); 2 },
            _ => { self.pushstack(self.reg.pc); self.reg.pc = 0x38; 4 },
        }
    }

    /// Shifts and rotates.
    fn call_cb0(&mut self, opcode: u8) -> (cycles: u32)
        requires
            old(self).wf(),
            0x00 <= opcode <= 0x3f,
        ensures
            CPU::cb_post(opcode, *old(self), *final(self), cycles),
            final(self).wf(),
    {
        if opcode <= 0x0f {
            self.call_cb0_0(opcode)
        } else if opcode <= 0x1f {
            self.call_cb0_1(opcode)
        } else if opcode <= 0x2f {
            self.call_cb0_2(opcode)
        } else {
            self.call_cb0_3(opcode)
        }
    }

    #[verifier::rlimit(60)]
    #[verifier::spinoff_prover]
    fn call_cb0_0(&mut self, opcode: u8) -> (cycles: u32)
        requires
            old(self).wf(),
            0x00 <= opcode <= 0x0f,
        ensures
            CPU::cb_post(opcode, *old(self), *final(self), cycles),
            final(self).wf(),
    {
        match opcode {
            0x00 => { self.reg.b = self.alu_rlc(self.reg.b); 2 },
            0x01 => { self.reg.c = self.alu_rlc(self.reg.c); 2 },
            0x02 => { self.reg.d = self.alu_rlc(self.reg.d); 2 },
            0x03 => { self.reg.e = self.alu_rlc(self.reg.e); 2 },
            0x04 => { self.reg.h = self.alu_rlc(self.reg.h); 2 },
            0x05 => { self.reg.l = self.alu_rlc(self.reg.l); 2 },
            0x06 => { let a = self.reg.hl(); let v = self.mmu.rb(a); let v2 = self.alu_rlc(v); self.mmu.wb(a, v2); 4 },
            0x07 => { self.reg.a = self.alu_rlc(self.reg.a); 2 },
            0x08 => { self.reg.b = self.alu_rrc(self.reg.b); 2 },
            0x09 => { self.reg.c = self.alu_rrc(self.reg.c); 2 },
            0x0A => { self.reg.d = self.alu_rrc(self.reg.d); 2 },
            0x0B => { self.reg.e = self.alu_rrc(self.reg.e); 2 },
            0x0C => { self.reg.h = self.alu_rrc(self.reg.h); 2 },
            0x0D => { self.reg.l = self.alu_rrc(self.reg.l); 2 },
            0x0E => { let a = self.reg.hl(); let v = self.mmu.rb(a); let v2 = self.alu_rrc(v); self.mmu.wb(a, v2); 4 },
            _ => { self.reg.a = self.alu_rrc(self.reg.a); 2 },
        }
    }

    #[verifier::rlimit(60)]
    #[verifier::spinoff_prover]
    fn call_cb0_1(&mut self, opcode: u8) -> (cycles: u32)
        requires
            old(self).wf(),
            0x10 <= opcode <= 0x1f,
        ensures
            CPU::cb_post(opcode, *old(self), *final(self), cycles),
            final(self).wf(),
    {
        match opcode {
            0x10 => { self.reg.b = self.alu_rl(self.reg.b); 2 },
            0x11 => { self.reg.c = self.alu_rl(self.reg.c); 2 },
            0x12 => { self.reg.d = self.alu_rl(self.reg.d); 2 },
            0x13 => { self.reg.e = self.alu_rl(self.reg.e); 2 },
            0x14 => { self.reg.h = self.alu_rl(self.reg.h); 2 },
            0x15 => { self.reg.l = self.alu_rl(self.reg.l); 2 },
            0x16 => { let a = self.reg.hl(); let v = self.mmu.rb(a); let v2 = self.alu_rl(v); self.mmu.wb(a, v2); 4 },
            0x17 => { self.reg.a = self.alu_rl(self.reg.a); 2 },
            0x18 => { self.reg.b = self.alu_rr(self.reg.b); 2 },
            0x19 => { self.reg.c = self.alu_rr(self.reg.c); 2 },
            0x1A => { self.reg.d = self.alu_rr(self.reg.d); 2 },
            0x1B => { self.reg.e = self.alu_rr(self.reg.e); 2 },
            0x1C => { self.reg.h = self.alu_rr(self.reg.h); 2 },
            0x1D => { self.reg.l = self.alu_rr(self.reg.l); 2 },
            0x1E => { let a = self.reg.hl(); let v = self.mmu.rb(a); let v2 = self.alu_rr(v); self.mmu.wb(a, v2); 4 },
            _ => { self.reg.a = self.alu_rr(self.reg.a); 2 },
        }
    }

    #[verifier::rlimit(60)]
    #[verifier::spinoff_prover]
    fn call_cb0_2(&mut self, opcode: u8) -> (cycles: u32)
        requires
            old(self).wf(),
            0x20 <= opcode <= 0x2f,
        ensures
            CPU::cb_post(opcode, *old(self), *final(self), cycles),
            final(self).wf(),
    {
        match opcode {
            0x20 => { self.reg.b = self.alu_sla(self.reg.b); 2 },
            0x21 => { self.reg.c = self.alu_sla(self.reg.c); 2 },
            0x22 => { self.reg.d = self.alu_sla(self.reg.d); 2 },
            0x23 => { self.reg.e = self.alu_sla(self.reg.e); 2 },
            0x24 => { self.reg.h = self.alu_sla(self.reg.h); 2 },
            0x25 => { self.reg.l = self.alu_sla(self.reg.l); 2 },
            0x26 => { let a = self.reg.hl(); let v = self.mmu.rb(a); let v2 = self.alu_sla(v); self.mmu.wb(a, v2); 4 },
            0x27 => { self.reg.a = self.alu_sla(self.reg.a); 2 },
            0x28 => { self.reg.b = self.alu_sra(self.reg.b); 2 },
            0x29 => { self.reg.c = self.alu_sra(self.reg.c); 2 },
            0x2A => { self.reg.d = self.alu_sra(self.reg.d); 2 },
            0x2B => { self.reg.e = self.alu_sra(self.reg.e); 2 },
            0x2C => { self.reg.h = self.alu_sra(self.reg.h); 2 },
            0x2D => { self.reg.l = self.alu_sra(self.reg.l); 2 },
            0x2E => { let a = self.reg.hl(); let v = self.mmu.rb(a); let v2 = self.alu_sra(v); self.mmu.wb(a, v2); 4 },
            _ => { self.reg.a = self.alu_sra(self.reg.a); 2 },
        }
    }

    #[verifier::rlimit(60)]
    #[verifier::spinoff_prover]
    fn call_cb0_3(&mut self, opcode: u8) -> (cycles: u32)
        requires
            old(self).wf(),
            0x30 <= opcode <= 0x3f,
        ensures
            CPU::cb_post(opcode, *old(self), *final(self), cycles),
            final(self).wf(),
    {
        match opcode {
            0x30 => { self.reg.b = self.alu_swap(self.reg.b); 2 },
            0x31 => { self.reg.c = self.alu_swap(self.reg.c); 2 },
            0x32 => { self.reg.d = self.alu_swap(self.reg.d); 2 },
            0x33 => { self.reg.e = self.alu_swap(self.reg.e); 2 },
            0x34 => { self.reg.h = self.alu_swap(self.reg.h); 2 },
            0x35 => { self.reg.l = self.alu_swap(self.reg.l); 2 },
            0x36 => { let a = self.reg.hl(); let v = self.mmu.rb(a); let v2 = self.alu_swap(v); self.mmu.wb(a, v2); 4 },
            0x37 => { self.reg.a = self.alu_swap(self.reg.a); 2 },
            0x38 => { self.reg.b = self.alu_srl(self.reg.b); 2 },
            0x39 => { self.reg.c = self.alu_srl(self.reg.c); 2 },
            0x3A => { self.reg.d = self.alu_srl(self.reg.d); 2 },
            0x3B => { self.reg.e = self.alu_srl(self.reg.e); 2 },
            0x3C => { self.reg.h = self.alu_srl(self.reg.h); 2 },
            0x3D => { self.reg.l = self.alu_srl(self.reg.l); 2 },
            0x3E => { let a = self.reg.hl(); let v = self.mmu.rb(a); let v2 = self.alu_srl(v); self.mmu.wb(a, v2); 4 },
            _ => { self.reg.a = self.alu_srl(self.reg.a); 2 },
        }
    }

    /// Bit tests.
    #[verifier::rlimit(60)]
    #[verifier::spinoff_prover]
    fn call_cb1(&mut self, opcode: u8) -> (cycles: u32)
        requires
            old(self).wf(),
            0x40 <= opcode <= 0x7f,
        ensures
            CPU::cb_post(opcode, *old(self), *final(self), cycles),
            final(self).wf(),
    {
        match opcode {
            0x40 => { self.alu_bit(self.reg.b, 0u8); 2 },
            0x41 => { self.alu_bit(self.reg.c, 0u8); 2 },
            0x42 => { self.alu_bit(self.reg.d, 0u8); 2 },
            0x43 => { self.alu_bit(self.reg.e, 0u8); 2 },
            0x44 => { self.alu_bit(self.reg.h, 0u8); 2 },
            0x45 => { self.alu_bit(self.reg.l, 0u8); 2 },
            0x46 => { let v = self.mmu.rb(self.reg.hl()); self.alu_bit(v, 0u8); 3 },
            0x47 => { self.alu_bit(self.reg.a, 0u8); 2 },
            0x48 => { self.alu_bit(self.reg.b, 1u8); 2 },
            0x49 => { self.alu_bit(self.reg.c, 1u8); 2 },
            0x4A => { self.alu_bit(self.reg.d, 1u8); 2 },
            0x4B => { self.alu_bit(self.reg.e, 1u8); 2 },
            0x4C => { self.alu_bit(self.reg.h, 1u8); 2 },
            0x4D => { self.alu_bit(self.reg.l, 1u8); 2 },
            0x4E => { let v = self.mmu.rb(self.reg.hl()); self.alu_bit(v, 1u8); 3 },
            0x4F => { self.alu_bit(self.reg.a, 1u8); 2 },
            0x50 => { self.alu_bit(self.reg.b, 2u8); 2 },
            0x51 => { self.alu_bit(self.reg.c, 2u8); 2 },
            0x52 => { self.alu_bit(self.reg.d, 2u8); 2 },
            0x53 => { self.alu_bit(self.reg.e, 2u8); 2 },
            0x54 => { self.alu_bit(self.reg.h, 2u8); 2 },
            0x55 => { self.alu_bit(self.reg.l, 2u8); 2 },
            0x56 => { let v = self.mmu.rb(self.reg.hl()); self.alu_bit(v, 2u8); 3 },
            0x57 => { self.alu_bit(self.reg.a, 2u8); 2 },
            0x58 => { self.alu_bit(self.reg.b, 3u8); 2 },
            0x59 => { self.alu_bit(self.reg.c, 3u8); 2 },
            0x5A => { self.alu_bit(self.reg.d, 3u8); 2 },
            0x5B => { self.alu_bit(self.reg.e, 3u8); 2 },
            0x5C => { self.alu_bit(self.reg.h, 3u8); 2 },
            0x5D => { self.alu_bit(self.reg.l, 3u8); 2 },
            0x5E => { let v = self.mmu.rb(self.reg.hl()); self.alu_bit(v, 3u8); 3 },
            0x5F => { self.alu_bit(self.reg.a, 3u8); 2 },
            0x60 => { self.alu_bit(self.reg.b, 4u8); 2 },
            0x61 => { self.alu_bit(self.reg.c, 4u8); 2 },
            0x62 => { self.alu_bit(self.reg.d, 4u8); 2 },
            0x63 => { self.alu_bit(self.reg.e, 4u8); 2 },
            0x64 => { self.alu_bit(self.reg.h, 4u8); 2 },
            0x65 => { self.alu_bit(self.reg.l, 4u8); 2 },
            0x66 => { let v = self.mmu.rb(self.reg.hl()); self.alu_bit(v, 4u8); 3 },
            0x67 => { self.alu_bit(self.reg.a, 4u8); 2 },
            0x68 => { self.alu_bit(self.reg.b, 5u8); 2 },
            0x69 => { self.alu_bit(self.reg.c, 5u8); 2 },
            0x6A => { self.alu_bit(self.reg.d, 5u8); 2 },
            0x6B => { self.alu_bit(self.reg.e, 5u8); 2 },
            0x6C => { self.alu_bit(self.reg.h, 5u8); 2 },
            0x6D => { self.alu_bit(self.reg.l, 5u8); 2 },
            0x6E => { let v = self.mmu.rb(self.reg.hl()); self.alu_bit(v, 5u8); 3 },
            0x6F => { self.alu_bit(self.reg.a, 5u8); 2 },
            0x70 => { self.alu_bit(self.reg.b, 6u8); 2 },
            0x71 => { self.alu_bit(self.reg.c, 6u8); 2 },
            0x72 => { self.alu_bit(self.reg.d, 6u8); 2 },
            0x73 => { self.alu_bit(self.reg.e, 6u8); 2 },
            0x74 => { self.alu_bit(self.reg.h, 6u8); 2 },
            0x75 => { self.alu_bit(self.reg.l, 6u8); 2 },
            0x76 => { let v = self.mmu.rb(self.reg.hl()); self.alu_bit(v, 6u8); 3 },
            0x77 => { self.alu_bit(self.reg.a, 6u8); 2 },
            0x78 => { self.alu_bit(self.reg.b, 7u8); 2 },
            0x79 => { self.alu_bit(self.reg.c, 7u8); 2 },
            0x7A => { self.alu_bit(self.reg.d, 7u8); 2 },
            0x7B => { self.alu_bit(self.reg.e, 7u8); 2 },
            0x7C => { self.alu_bit(self.reg.h, 7u8); 2 },
            0x7D => { self.alu_bit(self.reg.l, 7u8); 2 },
            0x7E => { let v = self.mmu.rb(self.reg.hl()); self.alu_bit(v, 7u8); 3 },
            _ => { self.alu_bit(self.reg.a, 7u8); 2 },
        }
    }

    /// Bit resets.
    #[verifier::rlimit(60)]
    #[verifier::spinoff_prover]
    fn call_cb2(&mut self, opcode: u8) -> (cycles: u32)
        requires
            old(self).wf(),
            0x80 <= opcode <= 0xbf,
        ensures
            CPU::cb_post(opcode, *old(self), *final(self), cycles),
            final(self).wf(),
    {
        match opcode {
            0x80 => { self.reg.b = self.reg.b & !(1u8 << 0u8); 2 },
            0x81 => { self.reg.c = self.reg.c & !(1u8 << 0u8); 2 },
            0x82 => { self.reg.d = self.reg.d & !(1u8 << 0u8); 2 },
            0x83 => { self.reg.e = self.reg.e & !(1u8 << 0u8); 2 },
            0x84 => { self.reg.h = self.reg.h & !(1u8 << 0u8); 2 },
            0x85 => { self.reg.l = self.reg.l & !(1u8 << 0u8); 2 },
            0x86 => { let a = self.reg.hl(); let v = self.mmu.rb(a) & !(1u8 << 0u8); self.mmu.wb(a, v); 4 },
            0x87 => { self.reg.a = self.reg.a & !(1u8 << 0u8); 2 },
            0x88 => { self.reg.b = self.reg.b & !(1u8 << 1u8); 2 },
            0x89 => { self.reg.c = self.reg.c & !(1u8 << 1u8); 2 },
            0x8A => { self.reg.d = self.reg.d & !(1u8 << 1u8); 2 },
            0x8B => { self.reg.e = self.reg.e & !(1u8 << 1u8); 2 },
            0x8C => { self.reg.h = self.reg.h & !(1u8 << 1u8); 2 },
            0x8D => { self.reg.l = self.reg.l & !(1u8 << 1u8); 2 },
            0x8E => { let a = self.reg.hl(); let v = self.mmu.rb(a) & !(1u8 << 1u8); self.mmu.wb(a, v); 4 },
            0x8F => { self.reg.a = self.reg.a & !(1u8 << 1u8); 2 },
            0x90 => { self.reg.b = self.reg.b & !(1u8 << 2u8); 2 },
            0x91 => { self.reg.c = self.reg.c & !(1u8 << 2u8); 2 },
            0x92 => { self.reg.d = self.reg.d & !(1u8 << 2u8); 2 },
            0x93 => { self.reg.e = self.reg.e & !(1u8 << 2u8); 2 },
            0x94 => { self.reg.h = self.reg.h & !(1u8 << 2u8); 2 },
            0x95 => { self.reg.l = self.reg.l & !(1u8 << 2u8); 2 },
            0x96 => { let a = self.reg.hl(); let v = self.mmu.rb(a) & !(1u8 << 2u8); self.mmu.wb(a, v); 4 },
            0x97 => { self.reg.a = self.reg.a & !(1u8 << 2u8); 2 },
            0x98 => { self.reg.b = self.reg.b & !(1u8 << 3u8); 2 },
            0x99 => { self.reg.c = self.reg.c & !(1u8 << 3u8); 2 },
            0x9A => { self.reg.d = self.reg.d & !(1u8 << 3u8); 2 },
            0x9B => { self.reg.e = self.reg.e & !(1u8 << 3u8); 2 },
            0x9C => { self.reg.h = self.reg.h & !(1u8 << 3u8); 2 },
            0x9D => { self.reg.l = self.reg.l & !(1u8 << 3u8); 2 },
            0x9E => { let a = self.reg.hl(); let v = self.mmu.rb(a) & !(1u8 << 3u8); self.mmu.wb(a, v); 4 },
            0x9F => { self.reg.a = self.reg.a & !(1u8 << 3u8); 2 },
            0xA0 => { self.reg.b = self.reg.b & !(1u8 << 4u8); 2 },
            0xA1 => { self.reg.c = self.reg.c & !(1u8 << 4u8); 2 },
            0xA2 => { self.reg.d = self.reg.d & !(1u8 << 4u8); 2 },
            0xA3 => { self.reg.e = self.reg.e & !(1u8 << 4u8); 2 },
            0xA4 => { self.reg.h = self.reg.h & !(1u8 << 4u8); 2 },
            0xA5 => { self.reg.l = self.reg.l & !(1u8 << 4u8); 2 },
            0xA6 => { let a = self.reg.hl(); let v = self.mmu.rb(a) & !(1u8 << 4u8); self.mmu.wb(a, v); 4 },
            0xA7 => { self.reg.a = self.reg.a & !(1u8 << 4u8); 2 },
            0xA8 => { self.reg.b = self.reg.b & !(1u8 << 5u8); 2 },
            0xA9 => { self.reg.c = self.reg.c & !(1u8 << 5u8); 2 },
            0xAA => { self.reg.d = self.reg.d & !(1u8 << 5u8); 2 },
            0xAB => { self.reg.e = self.reg.e & !(1u8 << 5u8); 2 },
            0xAC => { self.reg.h = self.reg.h & !(1u8 << 5u8); 2 },
            0xAD => { self.reg.l = self.reg.l & !(1u8 << 5u8); 2 },
            0xAE => { let a = self.reg.hl(); let v = self.mmu.rb(a) & !(1u8 << 5u8); self.mmu.wb(a, v); 4 },
            0xAF => { self.reg.a = self.reg.a & !(1u8 << 5u8); 2 },
            0xB0 => { self.reg.b = self.reg.b & !(1u8 << 6u8); 2 },
            0xB1 => { self.reg.c = self.reg.c & !(1u8 << 6u8); 2 },
            0xB2 => { self.reg.d = self.reg.d & !(1u8 << 6u8); 2 },
            0xB3 => { self.reg.e = self.reg.e & !(1u8 << 6u8); 2 },
            0xB4 => { self.reg.h = self.reg.h & !(1u8 << 6u8); 2 },
            0xB5 => { self.reg.l = self.reg.l & !(1u8 << 6u8); 2 },
            0xB6 => { let a = self.reg.hl(); let v = self.mmu.rb(a) & !(1u8 << 6u8); self.mmu.wb(a, v); 4 },
            0xB7 => { self.reg.a = self.reg.a & !(1u8 << 6u8); 2 },
            0xB8 => { self.reg.b = self.reg.b & !(1u8 << 7u8); 2 },
            0xB9 => { self.reg.c = self.reg.c & !(1u8 << 7u8); 2 },
            0xBA => { self.reg.d = self.reg.d & !(1u8 << 7u8); 2 },
            0xBB => { self.reg.e = self.reg.e & !(1u8 << 7u8); 2 },
            0xBC => { self.reg.h = self.reg.h & !(1u8 << 7u8); 2 },
            0xBD => { self.reg.l = self.reg.l & !(1u8 << 7u8); 2 },
            0xBE => { let a = self.reg.hl(); let v = self.mmu.rb(a) & !(1u8 << 7u8); self.mmu.wb(a, v); 4 },
            _ => { self.reg.a = self.reg.a & !(1u8 << 7u8); 2 },
        }
    }

    /// Bit sets.
    #[verifier::rlimit(60)]
    #[verifier::spinoff_prover]
    fn call_cb3(&mut self, opcode: u8) -> (cycles: u32)
        requires
            old(self).wf(),
            0xc0 <= opcode <= 0xff,
        ensures
            CPU::cb_post(opcode, *old(self), *final(self), cycles),
            final(self).wf(),
    {
        match opcode {
            0xC0 => { self.reg.b = self.reg.b | (1u8 << 0u8); 2 },
            0xC1 => { self.reg.c = self.reg.c | (1u8 << 0u8); 2 },
            0xC2 => { self.reg.d = self.reg.d | (1u8 << 0u8); 2 },
            0xC3 => { self.reg.e = self.reg.e | (1u8 << 0u8); 2 },
            0xC4 => { self.reg.h = self.reg.h | (1u8 << 0u8); 2 },
            0xC5 => { self.reg.l = self.reg.l | (1u8 << 0u8); 2 },
            0xC6 => { let a = self.reg.hl(); let v = self.mmu.rb(a) | (1u8 << 0u8); self.mmu.wb(a, v); 4 },
            0xC7 => { self.reg.a = self.reg.a | (1u8 << 0u8); 2 },
            0xC8 => { self.reg.b = self.reg.b | (1u8 << 1u8); 2 },
            0xC9 => { self.reg.c = self.reg.c | (1u8 << 1u8); 2 },
            0xCA => { self.reg.d = self.reg.d | (1u8 << 1u8); 2 },
            0xCB => { self.reg.e = self.reg.e | (1u8 << 1u8); 2 },
            0xCC => { self.reg.h = self.reg.h | (1u8 << 1u8); 2 },
            0xCD => { self.reg.l = self.reg.l | (1u8 << 1u8); 2 },
            0xCE => { let a = self.reg.hl(); let v = self.mmu.rb(a) | (1u8 << 1u8); self.mmu.wb(a, v); 4 },
            0xCF => { self.reg.a = self.reg.a | (1u8 << 1u8); 2 },
            0xD0 => { self.reg.b = self.reg.b | (1u8 << 2u8); 2 },
            0xD1 => { self.reg.c = self.reg.c | (1u8 << 2u8); 2 },
            0xD2 => { self.reg.d = self.reg.d | (1u8 << 2u8); 2 },
            0xD3 => { self.reg.e = self.reg.e | (1u8 << 2u8); 2 },
            0xD4 => { self.reg.h = self.reg.h | (1u8 << 2u8); 2 },
            0xD5 => { self.reg.l = self.reg.l | (1u8 << 2u8); 2 },
            0xD6 => { let a = self.reg.hl(); let v = self.mmu.rb(a) | (1u8 << 2u8); self.mmu.wb(a, v); 4 },
            0xD7 => { self.reg.a = self.reg.a | (1u8 << 2u8); 2 },
            0xD8 => { self.reg.b = self.reg.b | (1u8 << 3u8); 2 },
            0xD9 => { self.reg.c = self.reg.c | (1u8 << 3u8); 2 },
            0xDA => { self.reg.d = self.reg.d | (1u8 << 3u8); 2 },
            0xDB => { self.reg.e = self.reg.e | (1u8 << 3u8); 2 },
            0xDC => { self.reg.h = self.reg.h | (1u8 << 3u8); 2 },
            0xDD => { self.reg.l = self.reg.l | (1u8 << 3u8); 2 },
            0xDE => { let a = self.reg.hl(); let v = self.mmu.rb(a) | (1u8 << 3u8); self.mmu.wb(a, v); 4 },
            0xDF => { self.reg.a = self.reg.a | (1u8 << 3u8); 2 },
            0xE0 => { self.reg.b = self.reg.b | (1u8 << 4u8); 2 },
            0xE1 => { self.reg.c = self.reg.c | (1u8 << 4u8); 2 },
            0xE2 => { self.reg.d = self.reg.d | (1u8 << 4u8); 2 },
            0xE3 => { self.reg.e = self.reg.e | (1u8 << 4u8); 2 },
            0xE4 => { self.reg.h = self.reg.h | (1u8 << 4u8); 2 },
            0xE5 => { self.reg.l = self.reg.l | (1u8 << 4u8); 2 },
            0xE6 => { let a = self.reg.hl(); let v = self.mmu.rb(a) | (1u8 << 4u8); self.mmu.wb(a, v); 4 },
            0xE7 => { self.reg.a = self.reg.a | (1u8 << 4u8); 2 },
            0xE8 => { self.reg.b = self.reg.b | (1u8 << 5u8); 2 },
            0xE9 => { self.reg.c = self.reg.c | (1u8 << 5u8); 2 },
            0xEA => { self.reg.d = self.reg.d | (1u8 << 5u8); 2 },
            0xEB => { self.reg.e = self.reg.e | (1u8 << 5u8); 2 },
            0xEC => { self.reg.h = self.reg.h | (1u8 << 5u8); 2 },
            0xED => { self.reg.l = self.reg.l | (1u8 << 5u8); 2 },
            0xEE => { let a = self.reg.hl(); let v = self.mmu.rb(a) | (1u8 << 5u8); self.mmu.wb(a, v); 4 },
            0xEF => { self.reg.a = self.reg.a | (1u8 << 5u8); 2 },
            0xF0 => { self.reg.b = self.reg.b | (1u8 << 6u8); 2 },
            0xF1 => { self.reg.c = self.reg.c | (1u8 << 6u8); 2 },
            0xF2 => { self.reg.d = self.reg.d | (1u8 << 6u8); 2 },
            0xF3 => { self.reg.e = self.reg.e | (1u8 << 6u8); 2 },
            0xF4 => { self.reg.h = self.reg.h | (1u8 << 6u8); 2 },
            0xF5 => { self.reg.l = self.reg.l | (1u8 << 6u8); 2 },
            0xF6 => { let a = self.reg.hl(); let v = self.mmu.rb(a) | (1u8 << 6u8); self.mmu.wb(a, v); 4 },
            0xF7 => { self.reg.a = self.reg.a | (1u8 << 6u8); 2 },
            0xF8 => { self.reg.b = self.reg.b | (1u8 << 7u8); 2 },
            0xF9 => { self.reg.c = self.reg.c | (1u8 << 7u8); 2 },
            0xFA => { self.reg.d = self.reg.d | (1u8 << 7u8); 2 },
            0xFB => { self.reg.e = self.reg.e | (1u8 << 7u8); 2 },
            0xFC => { self.reg.h = self.reg.h | (1u8 << 7u8); 2 },
            0xFD => { self.reg.l = self.reg.l | (1u8 << 7u8); 2 },
            0xFE => { let a = self.reg.hl(); let v = self.mmu.rb(a) | (1u8 << 7u8); self.mmu.wb(a, v); 4 },
            _ => { self.reg.a = self.reg.a | (1u8 << 7u8); 2 },
        }
    }

    /// Executes the CB-prefixed instruction whose second byte is at PC.
    pub fn call_cb(&mut self) -> (cycles: u32)
        requires
            old(self).wf(),
        ensures
            CPU::cb_post(
                old(self).mmu.spec_rb(old(self).reg.pc),
                old(self).with_reg(CPU::<C>::at_pc(old(self).reg, old(self).reg.pc + 1)),
                *final(self),
                cycles,
            ),
            final(self).wf(),
    {
        let opcode = self.fetchbyte();
        if opcode < 0x40 {
            self.call_cb0(opcode)
        } else if opcode < 0x80 {
            self.call_cb1(opcode)
        } else if opcode < 0xC0 {
            self.call_cb2(opcode)
        } else {
            self.call_cb3(opcode)
        }
    }

    /// Executes the instruction at PC; returns the machine cycles it took.
    pub fn call(&mut self) -> (cycles: u32)
        requires
            old(self).wf(),
            !is_unimplemented(old(self).mmu.spec_rb(old(self).reg.pc)),
        ensures
            CPU::op_post(
                old(self).mmu.spec_rb(old(self).reg.pc),
                old(self).with_reg(CPU::<C>::at_pc(old(self).reg, old(self).reg.pc + 1)),
                *final(self),
                cycles,
            ),
            final(self).wf(),
    {
        let opcode = self.fetchbyte();
        if opcode < 0x40 {
            self.call_x0(opcode)
        } else if opcode < 0x80 {
            self.call_x1(opcode)
        } else if opcode < 0xC0 {
            self.call_x2(opcode)
        } else {
            self.call_x3(opcode)
        }
    }

    /// Loads between registers and memory at HL, and HALT.
    #[verifier::rlimit(50)]
    #[verifier::spinoff_prover]
    fn call_x1(&mut self, opcode: u8) -> (cycles: u32)
        requires
            old(self).wf(),
            0x40 <= opcode < 0x80,
        ensures
            CPU::op_post(opcode, *old(self), *final(self), cycles),
            final(self).wf(),
    {
        match opcode {
            0x40 => { 1 },
            0x41 => { self.reg.b = self.reg.c; 1 },
            0x42 => { self.reg.b = self.reg.d; 1 },
            0x43 => { self.reg.b = self.reg.e; 1 },
            0x44 => { self.reg.b = self.reg.h; 1 },
            0x45 => { self.reg.b = self.reg.l; 1 },
            0x46 => { self.reg.b = self.mmu.rb(self.reg.hl()); 2 },
            0x47 => { self.reg.b = self.reg.a; 1 },
            0x48 => { self.reg.c = self.reg.b; 1 },
            0x49 => { 1 },
            0x4A => { self.reg.c = self.reg.d; 1 },
            0x4B => { self.reg.c = self.reg.e; 1 },
            0x4C => { self.reg.c = self.reg.h; 1 },
            0x4D => { self.reg.c = self.reg.l; 1 },
            0x4E => { self.reg.c = self.mmu.rb(self.reg.hl()); 2 },
            0x4F => { self.reg.c = self.reg.a; 1 },
            0x50 => { self.reg.d = self.reg.b; 1 },
            0x51 => { self.reg.d = self.reg.c; 1 },
            0x52 => { 1 },
            0x53 => { self.reg.d = self.reg.e; 1 },
            0x54 => { self.reg.d = self.reg.h; 1 },
            0x55 => { self.reg.d = self.reg.l; 1 },
            0x56 => { self.reg.d = self.mmu.rb(self.reg.hl()); 2 },
            0x57 => { self.reg.d = self.reg.a; 1 },
            0x58 => { self.reg.e = self.reg.b; 1 },
            0x59 => { self.reg.e = self.reg.c; 1 },
            0x5A => { self.reg.e = self.reg.d; 1 },
            0x5B => { 1 },
            0x5C => { self.reg.e = self.reg.h; 1 },
            0x5D => { self.reg.e = self.reg.l; 1 },
            0x5E => { self.reg.e = self.mmu.rb(self.reg.hl()); 2 },
            0x5F => { self.reg.e = self.reg.a; 1 },
            0x60 => { self.reg.h = self.reg.b; 1 },
            0x61 => { self.reg.h = self.reg.c; 1 },
            0x62 => { self.reg.h = self.reg.d; 1 },
            0x63 => { self.reg.h = self.reg.e; 1 },
            0x64 => { 1 },
            0x65 => { self.reg.h = self.reg.l; 1 },
            0x66 => { self.reg.h = self.mmu.rb(self.reg.hl()); 2 },
            0x67 => { self.reg.h = self.reg.a; 1 },
            0x68 => { self.reg.l = self.reg.b; 1 },
            0x69 => { self.reg.l = self.reg.c; 1 },
            0x6A => { self.reg.l = self.reg.d; 1 },
            0x6B => { self.reg.l = self.reg.e; 1 },
            0x6C => { self.reg.l = self.reg.h; 1 },
            0x6D => { 1 },
            0x6E => { self.reg.l = self.mmu.rb(self.reg.hl()); 2 },
            0x6F => { self.reg.l = self.reg.a; 1 },
            0x70 => { self.mmu.wb(self.reg.hl(), self.reg.b); 2 },
            0x71 => { self.mmu.wb(self.reg.hl(), self.reg.c); 2 },
            0x72 => { self.mmu.wb(self.reg.hl(), self.reg.d); 2 },
            0x73 => { self.mmu.wb(self.reg.hl(), self.reg.e); 2 },
            0x74 => { self.mmu.wb(self.reg.hl(), self.reg.h); 2 },
            0x75 => { self.mmu.wb(self.reg.hl(), self.reg.l); 2 },
            0x76 => { self.halted = true; 1 },
            0x77 => { self.mmu.wb(self.reg.hl(), self.reg.a); 2 },
            0x78 => { self.reg.a = self.reg.b; 1 },
            0x79 => { self.reg.a = self.reg.c; 1 },
            0x7A => { self.reg.a = self.reg.d; 1 },
            0x7B => { self.reg.a = self.reg.e; 1 },
            0x7C => { self.reg.a = self.reg.h; 1 },
            0x7D => { self.reg.a = self.reg.l; 1 },
            0x7E => { self.reg.a = self.mmu.rb(self.reg.hl()); 2 },
            _ => { 1 },
        }
    }
}

} // verus!
