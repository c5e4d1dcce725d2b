use vstd::prelude::*;

verus! {

/// The divider (0xFF04) and the programmable timer (0xFF05 - 0xFF07).
/// The divider counts every 256 ticks; the counter counts every `step` ticks while
/// enabled, and on overflow is reloaded from the modulo and raises interrupt bit 2.
pub struct Timer {
    pub divider: u8,
    pub counter: u8,
    pub modulo: u8,
    pub enabled: bool,
    pub step: u32,
    pub internalcnt: u32,
    pub internaldiv: u32,
    pub interrupt: u8,
}

/// The period, in ticks, that the low two bits of the control register select.
pub open spec fn step_of(v: u8) -> u32 {
    let s = v & 0x3;
    if s == 1 {
        16
    } else if s == 2 {
        64
    } else if s == 3 {
        256
    } else {
        1024
    }
}

/// The counter after one increment: wraps to the modulo on overflow.
pub open spec fn count_once(counter: u8, modulo: u8) -> u8 {
    if counter == 255 {
        modulo
    } else {
        (counter + 1) as u8
    }
}

/// The counter after `n` increments.
pub open spec fn count_n(counter: u8, modulo: u8, n: nat) -> u8
    decreases n,
{
    if n == 0 {
        counter
    } else {
        count_n(count_once(counter, modulo), modulo, (n - 1) as nat)
    }
}

/// Whether the counter overflows within `n` increments.
pub open spec fn overflows_within(counter: u8, modulo: u8, n: nat) -> bool
    decreases n,
{
    if n == 0 {
        false
    } else {
        counter == 255 || overflows_within(count_once(counter, modulo), modulo, (n - 1) as nat)
    }
}

impl Timer {
    pub open spec fn wf(&self) -> bool {
        &&& self.internaldiv < 256
        &&& self.internalcnt < 1024
        &&& (self.step == 16 || self.step == 64 || self.step == 256 || self.step == 1024)
    }

    /// The value of the control register (0xFF07) as read.
    pub open spec fn control_value(&self) -> u8 {
        0xF8 | (if self.enabled { 0x4u8 } else { 0 }) | (if self.step == 16 {
            1u8
        } else if self.step == 64 {
            2
        } else if self.step == 256 {
            3
        } else {
            0
        })
    }

    pub fn new() -> (r: Timer)
        ensures
            r.divider == 0,
            r.counter == 0,
            r.modulo == 0,
            !r.enabled,
            r.step == 1024,
            r.internalcnt == 0,
            r.internaldiv == 0,
            r.interrupt == 0,
            r.wf(),
    {
        Timer {
            divider: 0,
            counter: 0,
            modulo: 0,
            enabled: false,
            step: 1024,
            internalcnt: 0,
            internaldiv: 0,
            interrupt: 0,
        }
    }

    pub open spec fn handles(a: u16) -> bool {
        0xFF04 <= a <= 0xFF07
    }

    pub open spec fn spec_rb(&self, a: u16) -> u8 {
        if a == 0xFF04 {
            self.divider
        } else if a == 0xFF05 {
            self.counter
        } else if a == 0xFF06 {
            self.modulo
        } else {
            self.control_value()
        }
    }

    pub fn rb(&self, a: u16) -> (r: u8)
        requires
            Timer::handles(a),
        ensures
            r == self.spec_rb(a),
    {
        match a {
            0xFF04 => self.divider,
            0xFF05 => self.counter,
            0xFF06 => self.modulo,
            _ => {
                0xF8 | (if self.enabled { 0x4 } else { 0 }) | (match self.step {
                    16 => 1,
                    64 => 2,
                    256 => 3,
                    _ => 0,
                })
            },
        }
    }

    /// The timer after a write of `v` to address `a`.
    pub open spec fn spec_wb(self, a: u16, v: u8) -> Timer {
        if a == 0xFF04 {
            Timer { divider: 0, ..self }
        } else if a == 0xFF05 {
            Timer { counter: v, ..self }
        } else if a == 0xFF06 {
            Timer { modulo: v, ..self }
        } else {
            Timer { enabled: v & 0x4 != 0, step: step_of(v), ..self }
        }
    }

    pub fn wb(&mut self, a: u16, v: u8)
        requires
            Timer::handles(a),
        ensures
            *final(self) == old(self).spec_wb(a, v),
    {
        match a {
            0xFF04 => {
                self.divider = 0;
            },
            0xFF05 => {
                self.counter = v;
            },
            0xFF06 => {
                self.modulo = v;
            },
            _ => {
                self.enabled = v & 0x4 != 0;
                self.step = match v & 0x3 {
                    1 => 16,
                    2 => 64,
                    3 => 256,
                    _ => 1024,
                };
            },
        };
    }

    /// The timer after `ticks` ticks.
    pub open spec fn spec_cycle(self, ticks: u32) -> Timer {
        let tdiv = self.internaldiv + ticks;
        let tcnt = self.internalcnt + ticks;
        let n = (tcnt / (self.step as int)) as nat;
        Timer {
            divider: ((self.divider + tdiv / 256) % 256) as u8,
            internaldiv: (tdiv % 256) as u32,
            counter: if self.enabled {
                count_n(self.counter, self.modulo, n)
            } else {
                self.counter
            },
            internalcnt: if self.enabled {
                (tcnt % (self.step as int)) as u32
            } else {
                self.internalcnt
            },
            interrupt: if self.enabled && overflows_within(self.counter, self.modulo, n) {
                self.interrupt | 0x04
            } else {
                self.interrupt
            },
            ..self
        }
    }

    pub fn do_cycle(&mut self, ticks: u32)
        requires
            old(self).wf(),
            old(self).internaldiv + ticks <= u32::MAX,
            old(self).enabled ==> old(self).internalcnt + ticks <= u32::MAX,
        ensures
            *final(self) == old(self).spec_cycle(ticks),
            final(self).wf(),
    {
        let ghost t0 = *self;
        self.internaldiv = self.internaldiv + ticks;
        let ghost mut k: int = 0;
        while self.internaldiv >= 256
            invariant
                t0.internaldiv + ticks == self.internaldiv + 256 * k,
                *self == (Timer { divider: self.divider, internaldiv: self.internaldiv, ..t0 }),
                t0.wf(),
                t0.enabled ==> t0.internalcnt + ticks <= u32::MAX,
                k >= 0,
                self.divider == (t0.divider + k) % 256,
            decreases self.internaldiv,
        {
            self.divider = self.divider.wrapping_add(1);
            self.internaldiv = self.internaldiv - 256;
            proof {
                k = k + 1;
            }
        }
        proof {
            let tdiv = t0.internaldiv + ticks;
            assert(tdiv / 256 == k && tdiv % 256 == self.internaldiv) by (nonlinear_arith)
                requires
                    tdiv == self.internaldiv + 256 * k,
                    0 <= self.internaldiv < 256,
                    k >= 0,
            ;
        }

        if self.enabled {
            self.internalcnt = self.internalcnt + ticks;
            let ghost mut n: nat = 0;
            let ghost step = self.step as int;
            while self.internalcnt >= self.step
                invariant
                    t0.internalcnt + ticks == self.internalcnt + step * n,
                    step == self.step,
                    step == t0.step,
                    step > 0,
                    self.modulo == t0.modulo,
                    self.enabled == t0.enabled,
                    self.divider == (t0.divider + (t0.internaldiv + ticks) / 256) % 256,
                    self.internaldiv == (t0.internaldiv + ticks) % 256,
                    self.counter == count_n(t0.counter, t0.modulo, n),
                    self.interrupt == if overflows_within(t0.counter, t0.modulo, n) {
                        t0.interrupt | 0x04
                    } else {
                        t0.interrupt
                    },
                decreases self.internalcnt,
            {
                proof {
                    lemma_count_step(t0.counter, t0.modulo, n);
                }
                let was_max = self.counter == 255;
                self.counter = self.counter.wrapping_add(1);
                if self.counter == 0 {
                    self.counter = self.modulo;
                    self.interrupt = self.interrupt | 0x04;
                }
                proof {
                    let i0 = t0.interrupt;
                    crate::bits::lemma_u8_bits(i0);
                    assert(step * (n + 1) == step * n + step) by (nonlinear_arith);
                    n = n + 1;
                }
                self.internalcnt = self.internalcnt - self.step;
            }
            proof {
                let tcnt = t0.internalcnt + ticks;
                assert(tcnt / step == n && tcnt % step == self.internalcnt) by (nonlinear_arith)
                    requires
                        tcnt == self.internalcnt + step * n,
                        0 <= self.internalcnt < step,
                        n >= 0,
                ;
            }
        }
    }
}

/// One more increment extends `count_n` and `overflows_within` by one step.
pub proof fn lemma_count_step(c: u8, m: u8, n: nat)
    ensures
        count_n(c, m, n + 1) == count_once(count_n(c, m, n), m),
        overflows_within(c, m, n + 1) == (overflows_within(c, m, n) || count_n(c, m, n) == 255),
    decreases n,
{
    reveal_with_fuel(count_n, 2);
    reveal_with_fuel(overflows_within, 2);
    if n > 0 {
        lemma_count_step(count_once(c, m), m, (n - 1) as nat);
        assert(count_n(c, m, n) == count_n(count_once(c, m), m, (n - 1) as nat));
        assert(count_n(c, m, n + 1) == count_n(count_once(c, m), m, n));
    }
}

/// Writing the divider register always resets it to zero, whatever is written.
pub proof fn lemma_divider_write_resets(t: Timer, v: u8)
    ensures
        t.spec_wb(0xFF04, v).spec_rb(0xFF04) == 0,
{
}

/// The control register reads back what was written to its low three bits,
/// with the unused upper bits set.
pub proof fn lemma_control_roundtrip(t: Timer, v: u8)
    ensures
        t.spec_wb(0xFF07, v).spec_rb(0xFF07) == 0xF8 | (v & 0x07),
{
    let en = v & 0x4 != 0;
    let sel: u8 = if step_of(v) == 16 {
        1u8
    } else if step_of(v) == 64 {
        2
    } else if step_of(v) == 256 {
        3
    } else {
        0
    };
    crate::bits::lemma_u8_bits(v);
    assert(sel == v & 0x3);
    assert(0xF8 | (if en { 0x4u8 } else { 0 }) | sel == 0xF8 | (v & 0x07)) by (bit_vector)
        requires
            en == (v & 0x4 != 0),
            sel == v & 0x3,
    ;
}

/// Counting `n1` and then `n2` increments is counting `n1 + n2`, and the counter overflows
/// within the whole run exactly when it overflows within one of the two parts.
pub proof fn lemma_count_add(c: u8, m: u8, n1: nat, n2: nat)
    ensures
        count_n(c, m, n1 + n2) == count_n(count_n(c, m, n1), m, n2),
        overflows_within(c, m, n1 + n2) == (overflows_within(c, m, n1) || overflows_within(
            count_n(c, m, n1),
            m,
            n2,
        )),
    decreases n1,
{
    if n1 > 0 {
        lemma_count_add(count_once(c, m), m, (n1 - 1) as nat, n2);
        assert((n1 + n2 - 1) as nat == (n1 - 1) as nat + n2);
    }
}

/// Splitting the quotient and remainder of `x + b` by `s` through `x`'s remainder.
proof fn lemma_split_div(x: int, b: int, s: int)
    requires
        x >= 0,
        b >= 0,
        s > 0,
    ensures
        x / s + (x % s + b) / s == (x + b) / s,
        (x % s + b) % s == (x + b) % s,
{
    let r1 = x % s;
    let n1 = x / s;
    let n2 = (r1 + b) / s;
    let r2 = (r1 + b) % s;
    vstd::arithmetic::div_mod::lemma_fundamental_div_mod(x, s);
    vstd::arithmetic::div_mod::lemma_fundamental_div_mod(r1 + b, s);
    vstd::arithmetic::div_mod::lemma_mod_bound(x, s);
    vstd::arithmetic::div_mod::lemma_mod_bound(r1 + b, s);
    assert(x + b == (n1 + n2) * s + r2) by (nonlinear_arith)
        requires
            x == s * n1 + r1,
            r1 + b == s * n2 + r2,
    ;
    vstd::arithmetic::div_mod::lemma_fundamental_div_mod_converse(x + b, s, n1 + n2, r2);
}

/// Ticks may be split: running the timer for `a` and then `b` ticks gives the timer that
/// running it for `a + b` ticks gives, divider, counter, remainders and interrupt alike.
pub proof fn lemma_cycle_additive(t: Timer, a: u32, b: u32)
    requires
        t.wf(),
        t.internaldiv + a + b <= u32::MAX,
        t.enabled ==> t.internalcnt + a + b <= u32::MAX,
    ensures
        t.spec_cycle(a).spec_cycle(b) == t.spec_cycle((a + b) as u32),
{
    let d = t.internaldiv as int;
    lemma_split_div(d + a, b as int, 256);
    let x = d + a;
    let y = x % 256 + b;
    assert(((t.divider + x / 256) % 256 + y / 256) % 256 == (t.divider + (d + a + b) / 256) % 256) by (nonlinear_arith)
        requires
            x / 256 + y / 256 == (x + b) / 256,
            x == d + a,
            x >= 0,
            y >= 0,
            t.divider >= 0,
    ;
    if t.enabled {
        let s = t.step as int;
        let c = t.internalcnt as int;
        lemma_split_div(c + a, b as int, s);
        let n1 = ((c + a) / s) as nat;
        let n2 = (((c + a) % s + b) / s) as nat;
        lemma_count_add(t.counter, t.modulo, n1, n2);
        assert(((c + a + b) / s) as nat == n1 + n2);
        crate::bits::lemma_u8_bits(t.interrupt);
    }
}

/// The clock select of the control register: a write of `v` to 0xFF07 enables the counter
/// when bit 2 of `v` is set and makes it count once every 1024, 16, 64 or 256 ticks for
/// `v mod 4` equal to 0, 1, 2 or 3.
pub proof fn lemma_control_selects_period(t: Timer, v: u8)
    ensures
        t.spec_wb(0xFF07, v).step == (if v % 4 == 0 {
            1024u32
        } else if v % 4 == 1 {
            16u32
        } else if v % 4 == 2 {
            64u32
        } else {
            256u32
        }),
        t.spec_wb(0xFF07, v).enabled == ((v / 4) % 2 == 1),
{
    crate::bits::lemma_u8_bits(v);
}

/// An enabled counter that has just started a period is not incremented one tick before
/// the period ends, and is incremented by one (or reloaded from the modulo on overflow,
/// raising the timer interrupt) when it ends.
pub proof fn lemma_counter_period(t: Timer)
    requires
        t.wf(),
        t.enabled,
        t.internalcnt == 0,
        t.interrupt & 0x04 == 0,
    ensures
        t.spec_cycle((t.step - 1) as u32).counter == t.counter,
        t.spec_cycle((t.step - 1) as u32).interrupt == t.interrupt,
        t.spec_cycle(t.step).counter == (if t.counter == 255 { t.modulo } else { (t.counter + 1) as u8 }),
        (t.spec_cycle(t.step).interrupt & 0x04 != 0) == (t.counter == 255),
{
    reveal_with_fuel(count_n, 2);
    reveal_with_fuel(overflows_within, 2);
    assert((t.step - 1) as int / (t.step as int) == 0);
    assert((t.step as int) / (t.step as int) == 1);
    let i = t.interrupt;
    assert((i | 0x04) & 0x04 != 0) by (bit_vector);
}

/// The divider counts once every 256 ticks: from the start of a divider period it is
/// unchanged after 255 ticks and one more (modulo 256) after 256.
pub proof fn lemma_divider_period(t: Timer)
    requires
        t.wf(),
        t.internaldiv == 0,
    ensures
        t.spec_cycle(255).divider == t.divider,
        t.spec_cycle(256).divider == (t.divider + 1) % 256,
{
}

} // verus!
