use vstd::prelude::*;
use crate::mbc::{byte_or, get_or, ram_banks, spec_ram_banks, MBC};
use crate::StrResult;

verus! {

/// The MBC3 controller: up to 2 MiB of ROM, 32 KiB of RAM, and on some cartridges a
/// real-time clock, whose five registers (seconds, minutes, hours, low eight bits of
/// the day counter, and the control byte with the ninth day bit, halt bit 6 and
/// day-carry bit 7) are mapped in place of a RAM bank.
pub struct MBC3 {
    pub rom: Vec<u8>,
    pub ram: Vec<u8>,
    pub rombank: usize,
    pub rambank: usize,
    pub rambanks: usize,
    pub selectrtc: bool,
    pub ram_on: bool,
    pub ram_updated: bool,
    pub has_battery: bool,
    pub rtc_ram: Vec<u8>,
    pub rtc_ram_latch: Vec<u8>,
    /// The time (seconds since the Unix epoch) at which the clock read zero;
    /// `None` on cartridges without a clock.
    pub rtc_zero: Option<u64>,
}

/// The seconds that clock registers stand for.
pub open spec fn rtc_secs(regs: Seq<u8>) -> int {
    regs[0] as int + regs[1] as int * 60 + regs[2] as int * 3600 + ((regs[4] & 0x1) as int * 256
        + regs[3] as int) * 86400
}

/// `now` minus the time on the clock registers, not below zero: the moment at which a
/// clock showing these registers started.
pub open spec fn spec_difftime(regs: Seq<u8>, zero: Option<u64>, now: u64) -> Option<u64> {
    match zero {
        None => None,
        Some(_) => Some(if now >= rtc_secs(regs) { (now - rtc_secs(regs)) as u64 } else { 0u64 }),
    }
}

/// The clock registers that show `diff` seconds, keeping bits 1 to 7 of the control byte
/// and setting the day-carry bit when the day counter overflows.
pub open spec fn regs_for(regs: Seq<u8>, diff: u64) -> Seq<u8> {
    let days = diff / 86400;
    let ctrl = (regs[4] & 0xFE) | (((days >> 8) & 0x01) as u8);
    seq![
        (diff % 60) as u8,
        ((diff / 60) % 60) as u8,
        ((diff / 3600) % 24) as u8,
        (days % 256) as u8,
        if days >= 512 { ctrl | 0x80 } else { ctrl },
    ]
}

/// The clock registers and start time after the clock is brought up to date at `now`:
/// unchanged while halted, on a cartridge without a clock, or when no time has passed.
pub open spec fn calc_rtc(regs: Seq<u8>, zero: Option<u64>, now: u64) -> (Seq<u8>, Option<u64>) {
    if regs[4] & 0x40 == 0x40 {
        (regs, zero)
    } else {
        match zero {
            None => (regs, zero),
            Some(t) => {
                if spec_difftime(regs, zero, now) == zero {
                    (regs, zero)
                } else {
                    let diff: u64 = if now >= t { (now - t) as u64 } else { 0 };
                    let nregs = regs_for(regs, diff);
                    if diff / 86400 >= 512 {
                        (nregs, spec_difftime(nregs, zero, now))
                    } else {
                        (nregs, zero)
                    }
                }
            },
        }
    }
}

/// The bits of a clock register that a write keeps.
pub open spec fn rtc_mask(i: int) -> u8 {
    if i == 0 || i == 1 {
        0x3F
    } else if i == 2 {
        0x1F
    } else if i == 4 {
        0xC1
    } else {
        0xFF
    }
}

/// A number as eight bytes, most significant first.
pub open spec fn u64_be(x: u64) -> Seq<u8> {
    seq![
        (x >> 56u64) as u8,
        (x >> 48u64) as u8,
        (x >> 40u64) as u8,
        (x >> 32u64) as u8,
        (x >> 24u64) as u8,
        (x >> 16u64) as u8,
        (x >> 8u64) as u8,
        x as u8,
    ]
}

/// Eight bytes, most significant first, as a number.
pub open spec fn be_u64(b0: u8, b1: u8, b2: u8, b3: u8, b4: u8, b5: u8, b6: u8, b7: u8) -> u64 {
    ((b0 as u64) << 56u64) | ((b1 as u64) << 48u64) | ((b2 as u64) << 40u64) | ((b3 as u64) << 32u64)
        | ((b4 as u64) << 24u64) | ((b5 as u64) << 16u64) | ((b6 as u64) << 8u64) | (b7 as u64)
}

/// The seconds since the Unix epoch, from the standard library's `SystemTime::now`
/// (converted with `duration_since` and `as_secs`), or `None` where the system clock reads
/// a time before the epoch. Nothing is promised of the value: it is the time of the machine.
#[verifier::external_body]
fn unix_now() -> Option<u64> {
    match std::time::SystemTime::now().duration_since(std::time::UNIX_EPOCH) {
        Ok(t) => Some(t.as_secs()),
        Err(_) => None,
    }
}

/// The time at which the clock is brought up to date: the system clock's seconds since
/// the epoch; a clock that reads a time before the epoch counts as the epoch itself.
fn clock_now() -> (r: u64) {
    match unix_now() {
        Some(t) => t,
        None => 0,
    }
}

impl MBC3 {
    /// The controller as `new` makes it from a ROM image: bank 1 selected, RAM and clock
    /// deselected and cleared, the RAM size and battery that the header announces, and a
    /// clock that starts at the epoch on the types that have one.
    pub open spec fn is_new(&self, data: Seq<u8>) -> bool {
        &&& self.rom@ == data
        &&& self.rombank == 1
        &&& self.rambank == 0
        &&& !self.selectrtc
        &&& !self.ram_on
        &&& !self.ram_updated
        &&& self.has_battery == (data[0x147] == 0x0F || data[0x147] == 0x10 || data[0x147] == 0x13)
        &&& self.rambanks == (if data[0x147] == 0x10 || data[0x147] == 0x12 || data[0x147] == 0x13 {
            spec_ram_banks(data[0x149])
        } else {
            0
        })
        &&& self.ram@ == Seq::new((self.rambanks * 0x2000) as nat, |i: int| 0u8)
        &&& self.rtc_ram@ == seq![0u8, 0, 0, 0, 0]
        &&& self.rtc_ram_latch@ == seq![0u8, 0, 0, 0, 0]
        &&& self.rtc_zero == (if data[0x147] == 0x0F || data[0x147] == 0x10 {
            Some(0u64)
        } else {
            None
        })
    }

    pub fn new(data: Vec<u8>) -> (r: StrResult<MBC3>)
        requires
            data@.len() >= 0x150,
        ensures
            r matches Ok(m) && m.wf() && m.is_new(data@),
    {
        let subtype = data[0x147];
        let has_battery = subtype == 0x0F || subtype == 0x10 || subtype == 0x13;
        let rambanks = if subtype == 0x10 || subtype == 0x12 || subtype == 0x13 {
            ram_banks(data[0x149])
        } else {
            0
        };
        let ramsize = rambanks * 0x2000;
        let rtc = if subtype == 0x0F || subtype == 0x10 { Some(0u64) } else { None };
        let ram = vec![0u8; ramsize];
        let rtc_ram = vec![0u8; 5];
        let rtc_ram_latch = vec![0u8; 5];
        assert(ram@ =~= Seq::new((rambanks * 0x2000) as nat, |i: int| 0u8));
        assert(rtc_ram@ =~= seq![0u8, 0, 0, 0, 0]);
        assert(rtc_ram_latch@ =~= seq![0u8, 0, 0, 0, 0]);
        Ok(MBC3 {
            rom: data,
            ram,
            rombank: 1,
            rambank: 0,
            rambanks,
            selectrtc: false,
            ram_on: false,
            ram_updated: false,
            has_battery,
            rtc_ram,
            rtc_ram_latch,
            rtc_zero: rtc,
        })
    }

    /// `now` minus the time on the clock registers (see `spec_difftime`).
    pub fn compute_difftime(&self, now: u64) -> (r: Option<u64>)
        requires
            self.wf(),
        ensures
            r == spec_difftime(self.rtc_ram@, self.rtc_zero, now),
    {
        if self.rtc_zero.is_none() {
            return None;
        }
        let mut difftime = now;
        difftime = difftime.saturating_sub(self.rtc_ram[0] as u64);
        difftime = difftime.saturating_sub((self.rtc_ram[1] as u64) * 60);
        difftime = difftime.saturating_sub((self.rtc_ram[2] as u64) * 3600);
        let days = (((self.rtc_ram[4] as u64) & 0x1) << 8) | (self.rtc_ram[3] as u64);
        proof {
            let r4 = self.rtc_ram@[4];
            let r3 = self.rtc_ram@[3];
            assert((((r4 as u64) & 0x1) << 8) | (r3 as u64) == ((r4 & 0x1) as int * 256 + r3 as int) as u64 && (r4
                & 0x1) <= 1) by (bit_vector);
        }
        difftime = difftime.saturating_sub(days * 3600 * 24);
        Some(difftime)
    }

    /// Sets the clock's start time so that it shows its registers at `now`.
    pub fn calc_rtc_zero(&mut self, now: u64)
        requires
            old(self).wf(),
        ensures
            *final(self) == (MBC3 {
                rtc_zero: spec_difftime(old(self).rtc_ram@, old(self).rtc_zero, now),
                ..*old(self)
            }),
    {
        self.rtc_zero = self.compute_difftime(now);
    }

    /// Brings the clock registers up to date at `now` (see `calc_rtc`).
    pub fn calc_rtc_reg(&mut self, now: u64)
        requires
            old(self).wf(),
        ensures
            *final(self) == (MBC3 { rtc_ram: final(self).rtc_ram, rtc_zero: final(self).rtc_zero, ..*old(self) }),
            (final(self).rtc_ram@, final(self).rtc_zero) == calc_rtc(old(self).rtc_ram@, old(self).rtc_zero, now),
            final(self).wf(),
    {
        if self.rtc_ram[4] & 0x40 == 0x40 {
            return;
        }
        let tzero = match self.rtc_zero {
            Some(t) => t,
            None => return,
        };
        if self.compute_difftime(now) == self.rtc_zero {
            return;
        }
        let difftime = now.saturating_sub(tzero);
        let days = difftime / (3600 * 24);
        let r4 = self.rtc_ram[4];
        let ctrl = (r4 & 0xFE) | (((days >> 8) & 0x01) as u8);
        self.rtc_ram.set(0, (difftime % 60) as u8);
        self.rtc_ram.set(1, ((difftime / 60) % 60) as u8);
        self.rtc_ram.set(2, ((difftime / 3600) % 24) as u8);
        self.rtc_ram.set(3, (days % 256) as u8);
        self.rtc_ram.set(4, ctrl);
        if days >= 512 {
            self.rtc_ram.set(4, ctrl | 0x80);
            self.calc_rtc_zero(now);
        }
        assert(self.rtc_ram@ =~= regs_for(old(self).rtc_ram@, difftime));
    }

    /// Brings the clock up to date and copies its registers to the latched copy that reads see.
    pub fn latch_rtc_reg(&mut self, now: u64)
        requires
            old(self).wf(),
        ensures
            MBC3::latched_at(*old(self), *final(self), now),
            final(self).wf(),
    {
        self.calc_rtc_reg(now);
        self.rtc_ram_latch = self.rtc_ram.clone();
        assert(self.rtc_ram_latch@ =~= self.rtc_ram@);
    }

    pub open spec fn latched_at(old: MBC3, new: MBC3, now: u64) -> bool {
        let (regs, zero) = calc_rtc(old.rtc_ram@, old.rtc_zero, now);
        &&& new == MBC3 { rtc_ram: new.rtc_ram, rtc_ram_latch: new.rtc_ram_latch, rtc_zero: zero, ..old }
        &&& new.rtc_ram@ == regs
        &&& new.rtc_ram_latch@ == regs
    }

    pub open spec fn spec_readrom(&self, a: u16) -> u8 {
        let i = if a < 0x4000 {
            a as int
        } else {
            self.rombank as int * 0x4000 + (a & 0x3FFF) as int
        };
        byte_or(self.rom@, i, 0xFF)
    }

    pub open spec fn ram_index(&self, a: u16) -> int {
        self.rambank as int * 0x2000 + (a & 0x1FFF) as int
    }

    /// The RAM bank, or with the clock selected the latched clock register; 0xFF elsewhere.
    pub open spec fn spec_readram(&self, a: u16) -> u8 {
        if !self.ram_on {
            0xFF
        } else if !self.selectrtc && self.rambank < self.rambanks {
            byte_or(self.ram@, self.ram_index(a), 0xFF)
        } else if self.selectrtc && self.rambank < 5 {
            byte_or(self.rtc_ram_latch@, self.rambank as int, 0xFF)
        } else {
            0xFF
        }
    }

    /// A register write; a write to 0x6000 - 0x7FFF latches the clock at the current
    /// time, which may be any time.
    pub open spec fn writerom_post(old: MBC3, new: MBC3, a: u16, v: u8) -> bool {
        if a <= 0x1FFF {
            new == MBC3 { ram_on: (v & 0x0F) == 0x0A, ..old }
        } else if a <= 0x3FFF {
            new == MBC3 { rombank: if v & 0x7F == 0 { 1 } else { (v & 0x7F) as usize }, ..old }
        } else if a <= 0x5FFF {
            new == MBC3 { selectrtc: v & 0x8 == 0x8, rambank: (v & 0x7) as usize, ..old }
        } else {
            exists|now: u64| #[trigger] MBC3::latched_at(old, new, now)
        }
    }

    /// A write to the RAM area: to the selected RAM bank, or with the clock selected to a
    /// clock register, after the clock has been brought up to date at some time `now`;
    /// the clock's start time then moves so that it shows the new registers at `now`.
    pub open spec fn writeram_post(old: MBC3, new: MBC3, a: u16, v: u8) -> bool {
        if !old.ram_on {
            new == old
        } else if !old.selectrtc && old.rambank < old.rambanks {
            let i = old.ram_index(a);
            &&& new == MBC3 { ram: new.ram, ram_updated: new.ram_updated, ..old }
            &&& new.ram@ == if i < old.ram@.len() { old.ram@.update(i, v) } else { old.ram@ }
            &&& new.ram_updated == (old.ram_updated || i < old.ram@.len())
        } else if old.selectrtc && old.rambank < 5 {
            exists|now: u64| #[trigger] MBC3::rtc_written_at(old, new, v, now)
        } else {
            new == old
        }
    }

    pub open spec fn rtc_written_at(old: MBC3, new: MBC3, v: u8, now: u64) -> bool {
        let (regs, zero) = calc_rtc(old.rtc_ram@, old.rtc_zero, now);
        let nregs = regs.update(old.rambank as int, v & rtc_mask(old.rambank as int));
        &&& new == MBC3 {
            rtc_ram: new.rtc_ram,
            rtc_zero: spec_difftime(nregs, zero, now),
            ram_updated: true,
            ..old
        }
        &&& new.rtc_ram@ == nregs
    }

    /// The save file: the clock's start time as eight big-endian bytes (0 without a
    /// clock), followed by the RAM.
    pub open spec fn spec_dumpram(&self) -> Seq<u8> {
        u64_be(
            match self.rtc_zero {
                Some(t) => t,
                None => 0,
            },
        ) + self.ram@
    }
}

impl MBC for MBC3 {
    open spec fn wf(&self) -> bool {
        &&& self.rom@.len() >= 0x150
        &&& self.rtc_ram@.len() == 5
        &&& self.rtc_ram_latch@.len() == 5
        &&& self.rambank < 8
        &&& self.rombank < 0x80
        &&& self.rambanks <= 16
        &&& self.ram@.len() == self.rambanks * 0x2000
    }

    fn readrom(&self, a: u16) -> (r: u8)
        ensures
            r == self.spec_readrom(a),
    {
        proof {
            crate::bits::lemma_u16_bits(a);
        }
        let idx = if a < 0x4000 {
            a as usize
        } else {
            self.rombank * 0x4000 + ((a & 0x3FFF) as usize)
        };
        get_or(&self.rom, idx, 0xFF)
    }

    fn readram(&self, a: u16) -> (r: u8)
        ensures
            r == self.spec_readram(a),
    {
        if !self.ram_on {
            return 0xFF;
        }
        proof {
            crate::bits::lemma_u16_bits(a);
        }
        if !self.selectrtc && self.rambank < self.rambanks {
            get_or(&self.ram, self.rambank * 0x2000 + ((a & 0x1FFF) as usize), 0xFF)
        } else if self.selectrtc && self.rambank < 5 {
            get_or(&self.rtc_ram_latch, self.rambank, 0xFF)
        } else {
            0xFF
        }
    }

    fn writerom(&mut self, a: u16, v: u8)
        ensures
            MBC3::writerom_post(*old(self), *final(self), a, v),
    {
        if a <= 0x1FFF {
            self.ram_on = (v & 0x0F) == 0x0A;
        } else if a <= 0x3FFF {
            self.rombank = match v & 0x7F {
                0 => 1,
                n => n as usize,
            };
            proof {
                crate::bits::lemma_u8_bits(v);
            }
        } else if a <= 0x5FFF {
            self.selectrtc = v & 0x8 == 0x8;
            self.rambank = (v & 0x7) as usize;
            proof {
                crate::bits::lemma_u8_bits(v);
            }
        } else {
            let now = clock_now();
            self.latch_rtc_reg(now);
        }
    }

    fn writeram(&mut self, a: u16, v: u8)
        ensures
            MBC3::writeram_post(*old(self), *final(self), a, v),
    {
        if !self.ram_on {
            return;
        }
        proof {
            crate::bits::lemma_u16_bits(a);
        }
        if !self.selectrtc && self.rambank < self.rambanks {
            let i = self.rambank * 0x2000 + ((a & 0x1FFF) as usize);
            if i < self.ram.len() {
                self.ram.set(i, v);
                self.ram_updated = true;
            }
        } else if self.selectrtc && self.rambank < 5 {
            let now = clock_now();
            self.calc_rtc_reg(now);
            let vmask: u8 = match self.rambank {
                0 | 1 => 0x3F,
                2 => 0x1F,
                4 => 0xC1,
                _ => 0xFF,
            };
            self.rtc_ram.set(self.rambank, v & vmask);
            self.calc_rtc_zero(now);
            self.ram_updated = true;
            assert(MBC3::rtc_written_at(*old(self), *self, v, now));
        }
    }

    fn check_and_reset_ram_updated(&mut self) -> (r: bool)
        ensures
            r == old(self).ram_updated,
            *final(self) == (MBC3 { ram_updated: false, ..*old(self) }),
    {
        let result = self.ram_updated;
        self.ram_updated = false;
        result
    }

    fn is_battery_backed(&self) -> (r: bool)
        ensures
            r == self.has_battery,
    {
        self.has_battery
    }

    fn loadram(&mut self, ramdata: &[u8]) -> (r: StrResult<()>)
        ensures
            r is Ok <==> ramdata@.len() == 8 + old(self).ram@.len(),
            r is Err ==> r == Err::<(), &'static str>("Loaded ram is too small")
                && *final(self) == *old(self),
            r is Ok ==> {
                let d = ramdata@;
                let t = be_u64(d[0], d[1], d[2], d[3], d[4], d[5], d[6], d[7]);
                &&& *final(self) == (MBC3 {
                    ram: final(self).ram,
                    rtc_zero: if old(self).rtc_zero is Some { Some(t) } else { None },
                    ..*old(self)
                })
                &&& final(self).ram@ == d.subrange(8, d.len() as int)
            },
    {
        if ramdata.len() != 8 + self.ram.len() {
            return Err("Loaded ram is too small");
        }
        let rtc = ((ramdata[0] as u64) << 56u64) | ((ramdata[1] as u64) << 48u64) | ((ramdata[2] as u64)
            << 40u64) | ((ramdata[3] as u64) << 32u64) | ((ramdata[4] as u64) << 24u64) | ((ramdata[5] as u64)
            << 16u64) | ((ramdata[6] as u64) << 8u64) | (ramdata[7] as u64);
        if self.rtc_zero.is_some() {
            self.rtc_zero = Some(rtc);
        }
        let rest = vstd::slice::slice_subrange(ramdata, 8, ramdata.len());
        self.ram = vstd::slice::slice_to_vec(rest);
        Ok(())
    }

    fn dumpram(&self) -> (r: Vec<u8>)
        ensures
            r@ == self.spec_dumpram(),
    {
        let rtc = match self.rtc_zero {
            Some(t) => t,
            None => 0,
        };
        let mut file: Vec<u8> = Vec::new();
        file.push((rtc >> 56u64) as u8);
        file.push((rtc >> 48u64) as u8);
        file.push((rtc >> 40u64) as u8);
        file.push((rtc >> 32u64) as u8);
        file.push((rtc >> 24u64) as u8);
        file.push((rtc >> 16u64) as u8);
        file.push((rtc >> 8u64) as u8);
        file.push(rtc as u8);
        let mut i: usize = 0;
        while i < self.ram.len()
            invariant
                0 <= i <= self.ram@.len(),
                file@ == u64_be(rtc) + self.ram@.subrange(0, i as int),
            decreases self.ram@.len() - i,
        {
            file.push(self.ram[i]);
            i = i + 1;
            assert(file@ =~= u64_be(rtc) + self.ram@.subrange(0, i as int));
        }
        assert(self.ram@.subrange(0, self.ram@.len() as int) =~= self.ram@);
        file
    }
}

/// A save file written by `dumpram` gives back the clock's start time when loaded.
pub proof fn lemma_rtc_bytes_roundtrip(x: u64)
    ensures
        ({
            let d = u64_be(x);
            be_u64(d[0], d[1], d[2], d[3], d[4], d[5], d[6], d[7]) == x
        }),
{
    assert(be_u64((x >> 56u64) as u8, (x >> 48u64) as u8, (x >> 40u64) as u8, (x >> 32u64) as u8, (x
        >> 24u64) as u8, (x >> 16u64) as u8, (x >> 8u64) as u8, x as u8) == x) by (bit_vector);
}

/// Eight bytes read as a big-endian time and written out again are the same bytes.
pub proof fn lemma_be_bytes_roundtrip(b0: u8, b1: u8, b2: u8, b3: u8, b4: u8, b5: u8, b6: u8, b7: u8)
    ensures
        u64_be(be_u64(b0, b1, b2, b3, b4, b5, b6, b7)) == seq![b0, b1, b2, b3, b4, b5, b6, b7],
{
    let x = be_u64(b0, b1, b2, b3, b4, b5, b6, b7);
    assert((x >> 56u64) as u8 == b0 && (x >> 48u64) as u8 == b1 && (x >> 40u64) as u8 == b2 && (x >> 32u64) as u8
        == b3 && (x >> 24u64) as u8 == b4 && (x >> 16u64) as u8 == b5 && (x >> 8u64) as u8 == b6 && x as u8 == b7)
        by (bit_vector)
        requires
            x == ((b0 as u64) << 56u64) | ((b1 as u64) << 48u64) | ((b2 as u64) << 40u64) | ((b3 as u64) << 32u64)
                | ((b4 as u64) << 24u64) | ((b5 as u64) << 16u64) | ((b6 as u64) << 8u64) | (b7 as u64),
    ;
    assert(u64_be(x) =~= seq![b0, b1, b2, b3, b4, b5, b6, b7]);
}

/// Selecting a ROM bank: after a write of `v` to 0x2000 - 0x3FFF, the switchable area
/// 0x4000 - 0x7FFF shows bank `v mod 128` (bank 1 in place of bank 0), byte `o` of the
/// bank at `o`; the fixed area still shows the start of the image.
pub proof fn lemma_mbc3_rom_bank_select(old: MBC3, new: MBC3, a: u16, v: u8, o: u16)
    requires
        0x2000 <= a <= 0x3FFF,
        MBC3::writerom_post(old, new, a, v),
        o < 0x4000,
    ensures
        new.spec_readrom((0x4000 + o) as u16) == byte_or(
            old.rom@,
            (if v % 128 == 0 { 1 } else { v % 128 }) * 0x4000 + o,
            0xFF,
        ),
        new.spec_readrom(o) == byte_or(old.rom@, o as int, 0xFF),
{
    crate::bits::lemma_u8_bits(v);
    crate::bits::lemma_u16_bits((0x4000 + o) as u16);
}

/// The other MBC3 registers: a low nibble of 0xA written to 0x0000 - 0x1FFF enables RAM and
/// the clock; a write to 0x4000 - 0x5FFF selects RAM bank `v mod 8`, and the clock registers
/// instead of RAM when bit 3 of `v` is set.
pub proof fn lemma_mbc3_registers(old: MBC3, new: MBC3, a: u16, v: u8)
    requires
        a <= 0x5FFF,
        MBC3::writerom_post(old, new, a, v),
    ensures
        a <= 0x1FFF ==> new.ram_on == (v % 16 == 10),
        0x4000 <= a ==> new.rambank == v % 8 && new.selectrtc == ((v / 8) % 2 == 1),
{
    crate::bits::lemma_u8_bits(v);
}

/// The MBC3 RAM area: with RAM enabled and a RAM bank selected, address `a` reads byte
/// `rambank * 0x2000 + (a mod 0x2000)` of the RAM, and a write there is read back.
pub proof fn lemma_mbc3_ram_bank(old: MBC3, new: MBC3, a: u16, v: u8)
    requires
        old.wf(),
        old.ram_on,
        !old.selectrtc,
        old.rambank < old.rambanks,
        0xA000 <= a <= 0xBFFF,
        MBC3::writeram_post(old, new, a, v),
    ensures
        old.spec_readram(a) == old.ram@[old.rambank * 0x2000 + a % 0x2000],
        new.spec_readram(a) == v,
{
    crate::bits::lemma_u16_bits(a);
}

} // verus!
