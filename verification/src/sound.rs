use vstd::prelude::*;

verus! {

/// The volume envelope of a sound channel: the volume moves by one step every
/// `period` envelope ticks, up or down, and stays within 0 to 15.
pub struct VolumeEnvelope {
    pub period: u32,
    pub goes_up: bool,
    pub delay: u32,
    pub initial_volume: u32,
    pub volume: u32,
}

impl VolumeEnvelope {
    pub open spec fn wf(&self) -> bool {
        &&& self.period <= 7
        &&& self.delay <= 7
        &&& self.initial_volume <= 15
        &&& self.volume <= 15
    }

    pub fn new() -> (r: VolumeEnvelope)
        ensures
            r == (VolumeEnvelope { period: 0, goes_up: false, delay: 0, initial_volume: 0, volume: 0 }),
            r.wf(),
    {
        VolumeEnvelope { period: 0, goes_up: false, delay: 0, initial_volume: 0, volume: 0 }
    }

    /// A write to an envelope register (0xFF12, 0xFF17, 0xFF21) sets the period, the
    /// direction and the initial volume; a write with bit 7 set to a trigger register
    /// (0xFF14, 0xFF19, 0xFF23) restarts the envelope. Other writes change nothing.
    pub open spec fn spec_wb(self, a: u16, v: u8) -> VolumeEnvelope {
        if a == 0xFF12 || a == 0xFF17 || a == 0xFF21 {
            VolumeEnvelope {
                period: (v & 0x7) as u32,
                goes_up: v & 0x8 == 0x8,
                initial_volume: (v >> 4u8) as u32,
                volume: (v >> 4u8) as u32,
                ..self
            }
        } else if (a == 0xFF14 || a == 0xFF19 || a == 0xFF23) && v & 0x80 == 0x80 {
            VolumeEnvelope { delay: self.period, volume: self.initial_volume, ..self }
        } else {
            self
        }
    }

    pub fn wb(&mut self, a: u16, v: u8)
        requires
            old(self).wf(),
        ensures
            *final(self) == old(self).spec_wb(a, v),
            final(self).wf(),
    {
        match a {
            0xFF12 | 0xFF17 | 0xFF21 => {
                self.period = (v & 0x7) as u32;
                self.goes_up = v & 0x8 == 0x8;
                self.initial_volume = (v >> 4u8) as u32;
                self.volume = self.initial_volume;
                proof {
                    crate::bits::lemma_u8_bits(v);
                }
            },
            0xFF14 | 0xFF19 | 0xFF23 => {
                if v & 0x80 == 0x80 {
                    self.delay = self.period;
                    self.volume = self.initial_volume;
                }
            },
            _ => {},
        }
    }

    /// One envelope tick: the delay counts down, and when it runs out the volume moves one
    /// step in its direction unless it is already at its bound, and the delay restarts.
    pub open spec fn spec_step(self) -> VolumeEnvelope {
        if self.delay > 1 {
            VolumeEnvelope { delay: (self.delay - 1) as u32, ..self }
        } else if self.delay == 1 {
            let volume = if self.goes_up && self.volume < 15 {
                (self.volume + 1) as u32
            } else if !self.goes_up && self.volume > 0 {
                (self.volume - 1) as u32
            } else {
                self.volume
            };
            VolumeEnvelope { delay: self.period, volume, ..self }
        } else {
            self
        }
    }

    pub fn step(&mut self)
        requires
            old(self).wf(),
        ensures
            *final(self) == old(self).spec_step(),
            final(self).wf(),
    {
        if self.delay > 1 {
            self.delay -= 1;
        } else if self.delay == 1 {
            self.delay = self.period;
            if self.goes_up && self.volume < 15 {
                self.volume += 1;
            } else if !self.goes_up && self.volume > 0 {
                self.volume -= 1;
            }
        }
    }
}

/// Number of sound registers from 0xFF10 to 0xFF26.
pub const SOUND_REGS: usize = 0x17;

/// The sound unit's register file (0xFF10 to 0xFF3F) and its frame clock.
pub struct Sound {
    pub on: bool,
    pub registerdata: Vec<u8>,
    pub time: u32,
}

impl Sound {
    pub open spec fn wf(&self) -> bool {
        &&& self.registerdata@.len() == SOUND_REGS
        &&& self.time < 0x10000
    }

    pub fn new() -> (r: Sound)
        ensures
            !r.on,
            r.registerdata@ == Seq::new(SOUND_REGS as nat, |i: int| 0u8),
            r.time == 0,
            r.wf(),
    {
        let r = Sound { on: false, registerdata: vec![0u8; SOUND_REGS], time: 0 };
        assert(r.registerdata@ =~= Seq::new(SOUND_REGS as nat, |i: int| 0u8));
        r
    }

    /// The channel registers read back what was stored; the master control register
    /// reads its stored upper nibble; every other address reads 0.
    pub open spec fn spec_rb(&self, a: u16) -> u8 {
        if 0xFF10 <= a <= 0xFF25 {
            self.registerdata@[a - 0xFF10]
        } else if a == 0xFF26 {
            self.registerdata@[0x16] & 0xF0
        } else {
            0
        }
    }

    pub fn rb(&self, a: u16) -> (r: u8)
        requires
            self.wf(),
        ensures
            r == self.spec_rb(a),
    {
        if 0xFF10 <= a && a <= 0xFF25 {
            self.registerdata[(a - 0xFF10) as usize]
        } else if a == 0xFF26 {
            self.registerdata[0x16] & 0xF0
        } else {
            0
        }
    }

    /// While the unit is off, only the master control register (0xFF26) takes writes;
    /// its bit 7 switches the unit on or off.
    pub open spec fn wb_post(old: Sound, new: Sound, a: u16, v: u8) -> bool {
        if a != 0xFF26 && !old.on {
            new == old
        } else if 0xFF10 <= a <= 0xFF25 {
            new == Sound { registerdata: new.registerdata, ..old }
                && new.registerdata@ == old.registerdata@.update(a - 0xFF10, v)
        } else if a == 0xFF26 {
            new == Sound { on: v & 0x80 == 0x80, ..old }
        } else {
            new == old
        }
    }

    pub fn wb(&mut self, a: u16, v: u8)
        requires
            old(self).wf(),
        ensures
            Sound::wb_post(*old(self), *final(self), a, v),
            final(self).wf(),
    {
        if a != 0xFF26 && !self.on {
            return;
        }
        if 0xFF10 <= a && a <= 0xFF25 {
            self.registerdata.set((a - 0xFF10) as usize, v);
        } else if a == 0xFF26 {
            self.on = v & 0x80 == 0x80;
        }
    }

    /// Advances the frame clock by `cycles` while the unit is on; returns whether a frame
    /// of 2^16 cycles was completed. With the unit off nothing changes.
    pub fn do_cycle(&mut self, cycles: u32) -> (r: bool)
        requires
            old(self).wf(),
        ensures
            final(self).wf(),
            !old(self).on ==> *final(self) == *old(self) && !r,
            old(self).on ==> r == (old(self).time + cycles >= 0x10000) && *final(self) == (Sound {
                time: ((old(self).time + cycles) % 0x10000) as u32,
                ..*old(self)
            }),
    {
        if !self.on {
            return false;
        }
        let t: u64 = self.time as u64 + cycles as u64;
        self.time = (t % 0x10000) as u32;
        t >= 0x10000
    }
}

/// A volume envelope never leaves the range 0 to 15, however many ticks pass.
pub proof fn lemma_envelope_bounded(e: VolumeEnvelope)
    requires
        e.wf(),
    ensures
        e.spec_step().wf(),
        e.spec_step().volume <= 15,
{
}

} // verus!
