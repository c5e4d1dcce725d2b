use vstd::prelude::*;

verus! {

/// What sits on the other end of the link cable. `call` receives the byte that the
/// Game Boy shifts out and may answer with the byte that is shifted in.
pub trait SerialCallback {
    fn call(&mut self, value: u8) -> Option<u8>;
}

/// The serial port: the data register (0xFF01) and the control register (0xFF02).
pub struct Serial<C> {
    pub data: u8,
    pub control: u8,
    pub callback: Option<C>,
    pub interrupt: u8,
}

impl<C: SerialCallback> Serial<C> {
    pub fn new_with_callback(cb: C) -> (r: Serial<C>)
        ensures
            r.data == 0,
            r.control == 0,
            r.callback == Some(cb),
            r.interrupt == 0,
    {
        Serial { data: 0, control: 0, callback: Some(cb), interrupt: 0 }
    }

    pub fn new() -> (r: Serial<C>)
        ensures
            r.data == 0,
            r.control == 0,
            r.callback is None,
            r.interrupt == 0,
    {
        Serial { data: 0, control: 0, callback: None, interrupt: 0 }
    }

    pub open spec fn handles(a: u16) -> bool {
        a == 0xFF01 || a == 0xFF02
    }

    /// A write of `v` to the control register with both the start bit and the
    /// internal-clock bit set starts a transfer, which reaches the callback if there is one.
    pub open spec fn starts_transfer(a: u16, v: u8) -> bool {
        a == 0xFF02 && v & 0x81 == 0x81
    }

    /// The port after the callback has answered `reply` to a transfer.
    pub open spec fn spec_reply(self, reply: Option<u8>) -> Serial<C> {
        match reply {
            Some(r) => Serial { data: r, interrupt: 0x8, ..self },
            None => self,
        }
    }

    /// What a write of `v` to `a` does. A transfer runs the callback, whose answer is
    /// not known here: the data register then holds the answer and the interrupt is 0x8,
    /// or, when it does not answer, both stay as they were; the callback's own state may change.
    pub open spec fn wb_post(old: Serial<C>, new: Serial<C>, a: u16, v: u8) -> bool {
        if a == 0xFF01 {
            new == Serial { data: v, ..old }
        } else if Serial::<C>::starts_transfer(a, v) && old.callback is Some {
            &&& new.control == v
            &&& new.callback is Some
            &&& exists|reply: Option<u8>|
                new == #[trigger] (Serial { control: v, callback: new.callback, ..old }).spec_reply(reply)
        } else {
            new == Serial { control: v, ..old }
        }
    }

    /// The port after the callback answered `reply`: the data register takes the answer
    /// and the serial interrupt is raised; no answer leaves the port as it was.
    pub fn apply_reply(&mut self, reply: Option<u8>)
        ensures
            *final(self) == old(self).spec_reply(reply),
    {
        if let Some(result) = reply {
            self.data = result;
            self.interrupt = 0x8;
        }
    }

    /// The byte that a write of `v` to `a` hands to the callback: the data register, when
    /// the write starts a transfer and a callback is attached; none otherwise.
    pub open spec fn byte_to_send(self, a: u16, v: u8) -> Option<u8> {
        if Serial::<C>::starts_transfer(a, v) && self.callback is Some {
            Some(self.data)
        } else {
            None
        }
    }

    /// Writes `v` to the register at `a` and returns the byte to hand to the callback, if
    /// the write starts a transfer (see `byte_to_send`).
    pub fn write_register(&mut self, a: u16, v: u8) -> (out: Option<u8>)
        requires
            Serial::<C>::handles(a),
        ensures
            out == old(self).byte_to_send(a, v),
            *final(self) == (if a == 0xFF01 {
                Serial { data: v, ..*old(self) }
            } else {
                Serial { control: v, ..*old(self) }
            }),
    {
        let out = if a == 0xFF02 && v & 0x81 == 0x81 && self.callback.is_some() {
            Some(self.data)
        } else {
            None
        };
        if a == 0xFF01 {
            self.data = v;
        } else {
            self.control = v;
        }
        out
    }

    /// Writes `v` to `a`; a write that starts a transfer hands the data register to the
    /// callback (see `write_register`) and applies its answer (see `apply_reply`).
    pub fn wb(&mut self, a: u16, v: u8)
        requires
            Serial::<C>::handles(a),
        ensures
            Serial::wb_post(*old(self), *final(self), a, v),
    {
        let out = self.write_register(a, v);
        if let Some(d) = out {
            let mut cb_opt = None;
            std::mem::swap(&mut cb_opt, &mut self.callback);
            if let Some(mut cb) = cb_opt {
                let reply = cb.call(d);
                self.callback = Some(cb);
                let ghost mid = *self;
                self.apply_reply(reply);
                assert(*self == mid.spec_reply(reply));
            }
        }
    }

    pub open spec fn spec_rb(&self, a: u16) -> u8 {
        if a == 0xFF01 {
            self.data
        } else {
            self.control | 0b01111110
        }
    }

    pub fn rb(&self, a: u16) -> (r: u8)
        requires
            Serial::<C>::handles(a),
        ensures
            r == self.spec_rb(a),
    {
        if a == 0xFF01 {
            self.data
        } else {
            self.control | 0b01111110
        }
    }

    pub fn set_callback(&mut self, cb: C)
        ensures
            *final(self) == (Serial { callback: Some(cb), ..*old(self) }),
    {
        self.callback = Some(cb);
    }

    pub fn unset_callback(&mut self)
        ensures
            *final(self) == (Serial { callback: None, ..*old(self) }),
    {
        self.callback = None;
    }
}

} // verus!
