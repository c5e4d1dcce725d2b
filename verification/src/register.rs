use vstd::prelude::*;

verus! {

/// Zero flag.
pub const FLAG_Z: u8 = 0x80;
/// Subtract flag.
pub const FLAG_N: u8 = 0x40;
/// Half-carry flag.
pub const FLAG_H: u8 = 0x20;
/// Carry flag.
pub const FLAG_C: u8 = 0x10;

/// The register file of the CPU. The operations of this type keep the low nibble of the
/// flag register `f` at zero (see `wf`).
pub struct Registers {
    pub a: u8,
    pub f: u8,
    pub b: u8,
    pub c: u8,
    pub d: u8,
    pub e: u8,
    pub h: u8,
    pub l: u8,
    pub pc: u16,
    pub sp: u16,
}

/// A 16-bit register pair as a number.
pub open spec fn pair(hi: u8, lo: u8) -> u16 {
    (hi as int * 256 + lo as int) as u16
}

/// The high byte of a 16-bit value.
pub open spec fn hi_byte(v: u16) -> u8 {
    (v as int / 256) as u8
}

/// The low byte of a 16-bit value.
pub open spec fn lo_byte(v: u16) -> u8 {
    (v as int % 256) as u8
}

/// `v` plus `d`, modulo 2^16.
pub open spec fn wrap16(v: int) -> u16 {
    (v % 65536) as u16
}

pub proof fn lemma_pair_bytes(v: u16)
    ensures
        pair(hi_byte(v), lo_byte(v)) == v,
        hi_byte(v) == (v >> 8) as u8,
        lo_byte(v) == (v & 0xFF) as u8,
{
    crate::bits::lemma_u16_bits(v);
}

pub proof fn lemma_pair_bits(hi: u8, lo: u8)
    ensures
        pair(hi, lo) == ((hi as u16) << 8) | (lo as u16),
        pair(hi, lo) == (lo as u16) | ((hi as u16) << 8),
        hi_byte(pair(hi, lo)) == hi,
        lo_byte(pair(hi, lo)) == lo,
{
    assert(((hi as u16) << 8) | (lo as u16) == (hi as int * 256 + lo as int) as u16 && (lo as u16) | ((hi as u16)
        << 8) == (hi as int * 256 + lo as int) as u16) by (bit_vector);
}

impl Registers {
    /// The flag register.
    pub open spec fn flags(&self) -> u8 {
        self.f
    }

    /// The value of a flag of the given mask.
    pub open spec fn flag_set(&self, mask: u8) -> bool {
        self.flags() & mask != 0
    }

    pub open spec fn spec_af(&self) -> u16 {
        pair(self.a, self.flags() & 0xF0)
    }

    pub open spec fn spec_bc(&self) -> u16 {
        pair(self.b, self.c)
    }

    pub open spec fn spec_de(&self) -> u16 {
        pair(self.d, self.e)
    }

    pub open spec fn spec_hl(&self) -> u16 {
        pair(self.h, self.l)
    }

    /// The register file with only the flag register replaced.
    pub open spec fn with_flags(self, f: u8) -> Registers {
        Registers { f, ..self }
    }

    /// One of the four flag bits.
    pub open spec fn is_flag_mask(m: u8) -> bool {
        m == FLAG_Z || m == FLAG_N || m == FLAG_H || m == FLAG_C
    }

    /// The flag register keeps its low nibble clear.
    pub open spec fn wf(&self) -> bool {
        self.flags() & 0x0F == 0
    }

    pub proof fn lemma_with_flags(self, f: u8)
        ensures
            self.with_flags(f).flags() == f,
            self.with_flags(f).a == self.a,
            self.with_flags(f).b == self.b,
            self.with_flags(f).c == self.c,
            self.with_flags(f).d == self.d,
            self.with_flags(f).e == self.e,
            self.with_flags(f).h == self.h,
            self.with_flags(f).l == self.l,
            self.with_flags(f).pc == self.pc,
            self.with_flags(f).sp == self.sp,
            self.with_flags(self.flags()) == self,
    {
    }

    /// The registers as the boot program leaves them, with `a` in the accumulator (0x01 on
    /// the classic model, 0x11 on the colour model).
    pub open spec fn boot_state(&self, a: u8) -> bool {
        &&& self.a == a
        &&& self.flags() == 0xB0
        &&& self.b == 0x00
        &&& self.c == 0x13
        &&& self.d == 0x00
        &&& self.e == 0xD8
        &&& self.h == 0x01
        &&& self.l == 0x4D
        &&& self.pc == 0x0100
        &&& self.sp == 0xFFFE
        &&& self.wf()
    }

    /// The state after boot of a classic Game Boy.
    pub fn new() -> (r: Registers)
        ensures
            r.a == 0x01,
            r.flags() == 0xB0,
            r.b == 0x00,
            r.c == 0x13,
            r.d == 0x00,
            r.e == 0xD8,
            r.h == 0x01,
            r.l == 0x4D,
            r.pc == 0x0100,
            r.sp == 0xFFFE,
            r.wf(),
            r.boot_state(0x01),
    {
        let r = Registers {
            a: 0x01,
            f: 0xB0,
            b: 0x00,
            c: 0x13,
            d: 0x00,
            e: 0xD8,
            h: 0x01,
            l: 0x4D,
            pc: 0x0100,
            sp: 0xFFFE,
        };
        proof {
            crate::bits::lemma_u8_bits(0xB0);
        }
        r
    }

    /// The state after boot of a Game Boy Color: as `new`, with A = 0x11.
    pub fn new_cgb() -> (r: Registers)
        ensures
            r.a == 0x11,
            r.flags() == 0xB0,
            r.b == 0x00,
            r.c == 0x13,
            r.d == 0x00,
            r.e == 0xD8,
            r.h == 0x01,
            r.l == 0x4D,
            r.pc == 0x0100,
            r.sp == 0xFFFE,
            r.wf(),
            r.boot_state(0x11),
    {
        let mut res = Registers::new();
        res.a = 0x11;
        res
    }

    /// The flag register as a byte.
    pub fn f(&self) -> (r: u8)
        ensures
            r == self.flags(),
    {
        self.f
    }

    pub fn af(&self) -> (r: u16)
        ensures
            r == self.spec_af(),
    {
        proof {
            lemma_pair_bits(self.a, self.f & 0xF0);
        }
        ((self.a as u16) << 8) | ((self.f & 0xF0) as u16)
    }

    pub fn bc(&self) -> (r: u16)
        ensures
            r == self.spec_bc(),
    {
        proof {
            lemma_pair_bits(self.b, self.c);
        }
        ((self.b as u16) << 8) | (self.c as u16)
    }

    pub fn de(&self) -> (r: u16)
        ensures
            r == self.spec_de(),
    {
        proof {
            lemma_pair_bits(self.d, self.e);
        }
        ((self.d as u16) << 8) | (self.e as u16)
    }

    pub fn hl(&self) -> (r: u16)
        ensures
            r == self.spec_hl(),
    {
        proof {
            lemma_pair_bits(self.h, self.l);
        }
        ((self.h as u16) << 8) | (self.l as u16)
    }

    /// Returns HL and then decrements it (modulo 2^16).
    pub fn hld(&mut self) -> (r: u16)
        ensures
            r == old(self).spec_hl(),
            final(self).spec_hl() == wrap16(old(self).spec_hl() + 65535),
            *final(self) == (Registers {
                h: hi_byte(wrap16(old(self).spec_hl() + 65535)),
                l: lo_byte(wrap16(old(self).spec_hl() + 65535)),
                ..*old(self)
            }),
    {
        let res = self.hl();
        self.sethl(res.wrapping_sub(1));
        res
    }

    /// Returns HL and then increments it (modulo 2^16).
    pub fn hli(&mut self) -> (r: u16)
        ensures
            r == old(self).spec_hl(),
            final(self).spec_hl() == wrap16(old(self).spec_hl() + 1),
            *final(self) == (Registers {
                h: hi_byte(wrap16(old(self).spec_hl() + 1)),
                l: lo_byte(wrap16(old(self).spec_hl() + 1)),
                ..*old(self)
            }),
    {
        let res = self.hl();
        self.sethl(res.wrapping_add(1));
        res
    }

    /// Sets A to the high byte and F to the high nibble of the low byte.
    pub fn setaf(&mut self, value: u16)
        ensures
            final(self).a == hi_byte(value),
            final(self).flags() == lo_byte(value) & 0xF0,
            final(self).spec_af() == value & 0xFFF0,
            final(self).wf(),
            *final(self) == old(self).with_flags(final(self).flags()).set_a(final(self).a),
    {
        let na = (value >> 8) as u8;
        let nf = (value & 0x00F0) as u8;
        proof {
            lemma_pair_bytes(value);
            lemma_af_bits(value);
        }
        self.a = na;
        self.f = nf;
    }

    /// The register file with only A replaced.
    pub open spec fn set_a(self, a: u8) -> Registers {
        Registers { a, ..self }
    }

    pub fn setbc(&mut self, value: u16)
        ensures
            final(self).spec_bc() == value,
            *final(self) == (Registers { b: hi_byte(value), c: lo_byte(value), ..*old(self) }),
    {
        proof {
            lemma_pair_bytes(value);
        }
        self.b = (value >> 8) as u8;
        self.c = (value & 0x00FF) as u8;
    }

    pub fn setde(&mut self, value: u16)
        ensures
            final(self).spec_de() == value,
            *final(self) == (Registers { d: hi_byte(value), e: lo_byte(value), ..*old(self) }),
    {
        proof {
            lemma_pair_bytes(value);
        }
        self.d = (value >> 8) as u8;
        self.e = (value & 0x00FF) as u8;
    }

    pub fn sethl(&mut self, value: u16)
        ensures
            final(self).spec_hl() == value,
            *final(self) == (Registers { h: hi_byte(value), l: lo_byte(value), ..*old(self) }),
    {
        proof {
            lemma_pair_bytes(value);
        }
        self.h = (value >> 8) as u8;
        self.l = (value & 0x00FF) as u8;
    }

    /// Sets (or clears) the flag bits of `mask`; the low nibble of F stays clear.
    pub fn flag(&mut self, mask: u8, set: bool)
        ensures
            final(self).flags() == (if set {
                old(self).flags() | mask
            } else {
                old(self).flags() & !mask
            }) & 0xF0,
            *final(self) == old(self).with_flags(final(self).flags()),
            final(self).wf(),
            Registers::is_flag_mask(mask) ==> final(self).flag_set(mask) == set,
            Registers::is_flag_mask(mask) ==> forall|m: u8|
                Registers::is_flag_mask(m) && m != mask ==> #[trigger] final(self).flag_set(m)
                    == old(self).flag_set(m),
    {
        let f0 = self.f;
        let v = if set { f0 | mask } else { f0 & !mask };
        proof {
            crate::bits::lemma_u8_bits(v);
            if Registers::is_flag_mask(mask) {
                lemma_flag_bits(f0, mask, mask, set);
                assert forall|k: u8| Registers::is_flag_mask(k) && k != mask implies
                    ((v & 0xF0) & k != 0) == (f0 & k != 0) by {
                    lemma_flag_bits(f0, mask, k, set);
                }
            }
        }
        self.f = v & 0xF0;
    }

    /// Whether any flag bit of `mask` is set.
    pub fn getflag(&self, mask: u8) -> (r: bool)
        ensures
            r == self.flag_set(mask),
    {
        self.f & mask > 0
    }

    /// Replaces the flag register by the high nibble of `flags`.
    pub fn setf(&mut self, flags: u8)
        ensures
            final(self).flags() == flags & 0xF0,
            *final(self) == old(self).with_flags(flags & 0xF0),
            final(self).wf(),
    {
        self.f = flags & 0xF0;
        proof {
            crate::bits::lemma_u8_bits(flags);
        }
    }
}

/// The bytes of AF that a 16-bit write stores: A the high byte, F the high nibble of the
/// low byte.
proof fn lemma_af_bits(value: u16)
    by (bit_vector)
    ensures
        (value & 0x00F0) as u8 == (((value & 0xFF) as u8) & 0xF0),
        ((value & 0x00F0) as u8) & 0x0F == 0,
        (((value >> 8) as u8) as int * 256 + (((value & 0x00F0) as u8) & 0xF0) as int) as u16 == value & 0xFFF0,
{
}

/// Setting or clearing the flag bit `mask` in `f0` gives it the value `set` and leaves every
/// other flag bit `k` as it was.
proof fn lemma_flag_bits(f0: u8, mask: u8, k: u8, set: bool)
    by (bit_vector)
    ensures
        (mask == 0x80 || mask == 0x40 || mask == 0x20 || mask == 0x10) ==> ((((if set { f0 | mask } else { f0
            & !mask }) & 0xF0) & mask != 0) == set),
        (mask == 0x80 || mask == 0x40 || mask == 0x20 || mask == 0x10) && (k == 0x80 || k == 0x40 || k == 0x20
            || k == 0x10) && k != mask ==> (((if set { f0 | mask } else { f0 & !mask }) & 0xF0) & k) == (f0 & k),
{
}

/// Decrementing HL and then incrementing it (HL- then HL+) gives HL back, across the
/// 16-bit wrap too.
pub proof fn lemma_hld_hli_inverse(r: Registers)
    ensures
        wrap16(wrap16(r.spec_hl() + 65535) + 1) == r.spec_hl(),
        wrap16(wrap16(r.spec_hl() + 1) + 65535) == r.spec_hl(),
{
}

} // verus!
