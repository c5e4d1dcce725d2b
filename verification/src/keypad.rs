use vstd::prelude::*;

verus! {

/// The joypad register (0xFF00). A pressed key reads as a cleared bit.
/// `row0` holds the buttons (A, B, Select, Start) and `row1` the directions
/// (Right, Left, Up, Down), each in its low nibble.
pub struct Keypad {
    pub row0: u8,
    pub row1: u8,
    pub data: u8,
    pub interrupt: u8,
}

#[derive(Clone, Copy, Debug, PartialEq, Eq)]
pub enum KeypadKey {
    Right,
    Left,
    Up,
    Down,
    A,
    B,
    Select,
    Start,
}

/// A key of the host keyboard, as the window system reports it: a key that types one
/// character, one of the named keys that the emulator uses, or any other key.
#[derive(Clone, Copy, Debug, PartialEq, Eq)]
pub enum HostKey {
    Character(char),
    ArrowUp,
    ArrowDown,
    ArrowLeft,
    ArrowRight,
    Space,
    Enter,
    Other,
}

/// The Game Boy key that a host key stands for: Z is A, X is B (either case), the arrows
/// are the directions, Space is Select and Enter is Start; other keys stand for none.
pub open spec fn keypad_key_for(key: HostKey) -> Option<KeypadKey> {
    match key {
        HostKey::Character(c) => if c == 'Z' || c == 'z' {
            Some(KeypadKey::A)
        } else if c == 'X' || c == 'x' {
            Some(KeypadKey::B)
        } else {
            None
        },
        HostKey::ArrowUp => Some(KeypadKey::Up),
        HostKey::ArrowDown => Some(KeypadKey::Down),
        HostKey::ArrowLeft => Some(KeypadKey::Left),
        HostKey::ArrowRight => Some(KeypadKey::Right),
        HostKey::Space => Some(KeypadKey::Select),
        HostKey::Enter => Some(KeypadKey::Start),
        HostKey::Other => None,
    }
}

/// Maps a host key to the Game Boy key it stands for; see `keypad_key_for`.
pub fn winit_to_keypad(key: HostKey) -> (r: Option<KeypadKey>)
    ensures
        r == keypad_key_for(key),
{
    match key {
        HostKey::Character(c) => {
            if c == 'Z' || c == 'z' {
                Some(KeypadKey::A)
            } else if c == 'X' || c == 'x' {
                Some(KeypadKey::B)
            } else {
                None
            }
        },
        HostKey::ArrowUp => Some(KeypadKey::Up),
        HostKey::ArrowDown => Some(KeypadKey::Down),
        HostKey::ArrowLeft => Some(KeypadKey::Left),
        HostKey::ArrowRight => Some(KeypadKey::Right),
        HostKey::Space => Some(KeypadKey::Select),
        HostKey::Enter => Some(KeypadKey::Start),
        HostKey::Other => None,
    }
}

/// Whether the key sits in the button row (`row0`) rather than the direction row.
pub open spec fn in_button_row(key: KeypadKey) -> bool {
    match key {
        KeypadKey::A | KeypadKey::B | KeypadKey::Select | KeypadKey::Start => true,
        _ => false,
    }
}

/// The bit that stands for the key within its row.
pub open spec fn key_bit(key: KeypadKey) -> u8 {
    match key {
        KeypadKey::Right | KeypadKey::A => 0x01,
        KeypadKey::Left | KeypadKey::B => 0x02,
        KeypadKey::Up | KeypadKey::Select => 0x04,
        KeypadKey::Down | KeypadKey::Start => 0x08,
    }
}

/// The value read from the joypad register: the two select bits that were written,
/// combined with the rows that they select.
pub open spec fn joypad_value(select: u8, row0: u8, row1: u8) -> u8 {
    let s = select & 0x30;
    s | (if s & 0x10 == 0x10 { row0 } else { 0 }) | (if s & 0x20 == 0x20 { row1 } else { 0 })
}

impl Keypad {
    /// The row bits stay within the low nibble, and the data register agrees with the
    /// selection and the rows.
    pub open spec fn wf(&self) -> bool {
        &&& self.row0 <= 0x0F
        &&& self.row1 <= 0x0F
        &&& self.consistent()
    }

    /// The data register agrees with the selection and the rows. Closed, so that proofs
    /// about the whole memory map do not unfold it; `lemma_consistent_means` states it.
    pub closed spec fn consistent(&self) -> bool {
        self.data == joypad_value(self.data, self.row0, self.row1)
    }

    pub fn new() -> (r: Keypad)
        ensures
            r.row0 == 0x0F,
            r.row1 == 0x0F,
            r.data == 0,
            r.interrupt == 0,
            r.wf(),
            r.consistent(),
    {
        let mut res = Keypad { row0: 0x0F, row1: 0x0F, data: 0, interrupt: 0 };
        res.update();
        proof {
            lemma_joypad_bits(0x0F, 0x0F, 0, 0);
        }
        res
    }

    pub fn rb(&self) -> (r: u8)
        ensures
            r == self.data,
    {
        self.data
    }

    pub fn wb(&mut self, value: u8)
        requires
            old(self).wf(),
        ensures
            final(self).data == joypad_value(value, old(self).row0, old(self).row1),
            final(self).row0 == old(self).row0,
            final(self).row1 == old(self).row1,
            final(self).interrupt == old(self).interrupt,
            final(self).wf(),
    {
        self.data = value;
        proof {
            lemma_joypad_select(value, self.row0, self.row1, self.row0, self.row1);
        }
        self.update();
    }

    pub fn update(&mut self)
        requires
            old(self).row0 <= 0x0F,
            old(self).row1 <= 0x0F,
        ensures
            final(self).data == joypad_value(old(self).data, old(self).row0, old(self).row1),
            final(self).row0 == old(self).row0,
            final(self).row1 == old(self).row1,
            final(self).interrupt == old(self).interrupt,
    {
        let d0 = self.data;
        let r0 = self.row0;
        let r1 = self.row1;
        let mut d = d0 & 0x30;
        if d & 0x10 == 0x10 {
            d = d | r0;
        }
        if d & 0x20 == 0x20 {
            d = d | r1;
        }
        proof {
            lemma_joypad_bits(r0, r1, d0, 0);
        }
        self.data = d;
    }

    /// The keypad after `keydown(key)`: the key's bit cleared in its row, the data register
    /// read again, and the joypad interrupt raised.
    pub open spec fn keydown_post(old: Keypad, new: Keypad, key: KeypadKey) -> bool {
        &&& in_button_row(key) ==> new.row0 == old.row0 & !key_bit(key) && new.row1 == old.row1
        &&& !in_button_row(key) ==> new.row1 == old.row1 & !key_bit(key) && new.row0 == old.row0
        &&& new.interrupt == old.interrupt | 0x10
        &&& new.data == joypad_value(old.data, new.row0, new.row1)
    }

    /// The keypad after `keyup(key)`: the key's bit set in its row and the data register
    /// read again; no interrupt.
    pub open spec fn keyup_post(old: Keypad, new: Keypad, key: KeypadKey) -> bool {
        &&& in_button_row(key) ==> new.row0 == old.row0 | key_bit(key) && new.row1 == old.row1
        &&& !in_button_row(key) ==> new.row1 == old.row1 | key_bit(key) && new.row0 == old.row0
        &&& new.interrupt == old.interrupt
        &&& new.data == joypad_value(old.data, new.row0, new.row1)
    }

    /// Whether the key is up (its bit set).
    pub open spec fn is_released(&self, key: KeypadKey) -> bool {
        if in_button_row(key) {
            self.row0 & key_bit(key) != 0
        } else {
            self.row1 & key_bit(key) != 0
        }
    }

    /// Presses a key: clears its bit and raises the joypad interrupt.
    pub fn keydown(&mut self, key: KeypadKey)
        requires
            old(self).wf(),
        ensures
            Keypad::keydown_post(*old(self), *final(self), key),
            final(self).wf(),
    {
        match key {
            KeypadKey::Right => self.row1 = self.row1 & !(1u8 << 0u8),
            KeypadKey::Left => self.row1 = self.row1 & !(1u8 << 1u8),
            KeypadKey::Up => self.row1 = self.row1 & !(1u8 << 2u8),
            KeypadKey::Down => self.row1 = self.row1 & !(1u8 << 3u8),
            KeypadKey::A => self.row0 = self.row0 & !(1u8 << 0u8),
            KeypadKey::B => self.row0 = self.row0 & !(1u8 << 1u8),
            KeypadKey::Select => self.row0 = self.row0 & !(1u8 << 2u8),
            KeypadKey::Start => self.row0 = self.row0 & !(1u8 << 3u8),
        }
        proof {
            lemma_joypad_bits(old(self).row0, old(self).row1, 0, key_bit(key));
            lemma_joypad_select(old(self).data, self.row0, self.row1, self.row0, self.row1);
        }
        self.interrupt = self.interrupt | 0x10;
        self.update();
    }

    /// Releases a key: sets its bit again.
    pub fn keyup(&mut self, key: KeypadKey)
        requires
            old(self).wf(),
        ensures
            Keypad::keyup_post(*old(self), *final(self), key),
            final(self).wf(),
    {
        match key {
            KeypadKey::Right => self.row1 = self.row1 | (1u8 << 0u8),
            KeypadKey::Left => self.row1 = self.row1 | (1u8 << 1u8),
            KeypadKey::Up => self.row1 = self.row1 | (1u8 << 2u8),
            KeypadKey::Down => self.row1 = self.row1 | (1u8 << 3u8),
            KeypadKey::A => self.row0 = self.row0 | (1u8 << 0u8),
            KeypadKey::B => self.row0 = self.row0 | (1u8 << 1u8),
            KeypadKey::Select => self.row0 = self.row0 | (1u8 << 2u8),
            KeypadKey::Start => self.row0 = self.row0 | (1u8 << 3u8),
        }
        proof {
            lemma_joypad_bits(old(self).row0, old(self).row1, 0, key_bit(key));
            lemma_joypad_select(old(self).data, self.row0, self.row1, self.row0, self.row1);
        }
        self.update();
    }
}

/// What `consistent` says: the data register reads what its own select bits and the rows
/// give.
pub proof fn lemma_consistent_means(k: Keypad)
    ensures
        k.consistent() == (k.data == joypad_value(k.data, k.row0, k.row1)),
{
}

/// Whether the keypad agrees with itself does not depend on its interrupt flag.
pub proof fn lemma_consistent_without_interrupt(k: Keypad, i: u8)
    ensures
        k.consistent() == (Keypad { interrupt: i, ..k }).consistent(),
{
}

/// Pressing a key that was up and releasing it again gives back the keypad as it was,
/// rows and value read alike, with the joypad interrupt raised by the press.
pub proof fn lemma_keydown_keyup_restores(k0: Keypad, k1: Keypad, k2: Keypad, key: KeypadKey)
    requires
        k0.wf(),
        k0.is_released(key),
        Keypad::keydown_post(k0, k1, key),
        Keypad::keyup_post(k1, k2, key),
    ensures
        k2.row0 == k0.row0,
        k2.row1 == k0.row1,
        k2.data == k0.data,
        k2.interrupt == k0.interrupt | 0x10,
{
    lemma_joypad_bits(k0.row0, k0.row1, 0, key_bit(key));
    lemma_joypad_select(k0.data, k1.row0, k1.row1, k0.row0, k0.row1);
}

/// A pressed key reads as a cleared bit when its row is selected, and the other row's
/// bits are not visible in the value read.
pub proof fn lemma_pressed_key_reads_low(r0: u8, r1: u8, key: KeypadKey)
    requires
        r0 <= 0x0F,
        r1 <= 0x0F,
    ensures
        in_button_row(key) ==> joypad_value(0x10, r0 & !key_bit(key), r1) & key_bit(key) == 0,
        !in_button_row(key) ==> joypad_value(0x20, r0, r1 & !key_bit(key)) & key_bit(key) == 0,
        joypad_value(0x00, r0, r1) == 0,
        joypad_value(0x30, r0, r1) == 0x30 | r0 | r1,
{
    lemma_joypad_bits(r0, r1, 0, key_bit(key));
}

/// The bit arithmetic of the joypad register: rows `r0` and `r1`, a written value `d0`,
/// and a key bit `m`.
proof fn lemma_joypad_bits(r0: u8, r1: u8, d0: u8, m: u8)
    by (bit_vector)
    ensures
        1u8 << 0u8 == 0x01 && 1u8 << 1u8 == 0x02 && 1u8 << 2u8 == 0x04 && 1u8 << 3u8 == 0x08,
        r0 <= 0x0F ==> ({
            let s = d0 & 0x30;
            let t = if s & 0x10 == 0x10 { s | r0 } else { s };
            if t & 0x20 == 0x20 { t | r1 } else { t }
        }) == joypad_value(d0, r0, r1),
        joypad_value(0x00, r0, r1) == 0,
        joypad_value(0x30, r0, r1) == 0x30 | r0 | r1,
        r0 <= 0x0F ==> (r0 & !m) <= 0x0F,
        r1 <= 0x0F ==> (r1 & !m) <= 0x0F,
        r0 <= 0x0F && m <= 0x0F ==> (r0 | m) <= 0x0F,
        r1 <= 0x0F && m <= 0x0F ==> (r1 | m) <= 0x0F,
        (m == 1 || m == 2 || m == 4 || m == 8) && r0 & m != 0 ==> ((r0 & !m) | m) == r0,
        (m == 1 || m == 2 || m == 4 || m == 8) && r1 & m != 0 ==> ((r1 & !m) | m) == r1,
        (m == 1 || m == 2 || m == 4 || m == 8) ==> (joypad_value(0x10, r0 & !m, r1) & m) == 0,
        (m == 1 || m == 2 || m == 4 || m == 8) ==> (joypad_value(0x20, r0, r1 & !m) & m) == 0,
{
}

/// The value read keeps the select bits that were written, so reading it again with any
/// rows gives what the written value gives; in particular a value read is read back as is.
proof fn lemma_joypad_select(d: u8, a: u8, b: u8, c: u8, e: u8)
    by (bit_vector)
    requires
        a <= 0x0F,
        b <= 0x0F,
    ensures
        joypad_value(joypad_value(d, a, b), c, e) == joypad_value(d, c, e),
{
}

} // verus!
