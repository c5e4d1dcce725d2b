use vstd::prelude::*;
use crate::StrResult;

pub mod mbc0;
pub mod mbc1;
pub mod mbc2;
pub mod mbc3;
pub mod mbc5;

pub use mbc0::MBC0;
pub use mbc1::MBC1;
pub use mbc2::MBC2;
pub use mbc3::MBC3;
pub use mbc5::MBC5;

verus! {

/// Address of the cartridge type byte in the header.
pub const HEADER_TYPE: usize = 0x147;
/// Address of the ROM size byte.
pub const HEADER_ROM_SIZE: usize = 0x148;
/// Address of the RAM size byte.
pub const HEADER_RAM_SIZE: usize = 0x149;
/// Address of the header checksum.
pub const HEADER_CHECKSUM: usize = 0x14D;

/// A memory bank controller: the cartridge hardware that maps ROM and RAM banks
/// into the address space.
pub trait MBC {
    /// The controller's registers lie within the ranges that its hardware allows.
    spec fn wf(&self) -> bool;

    fn readrom(&self, a: u16) -> u8
        requires
            self.wf(),
    ;

    fn readram(&self, a: u16) -> u8
        requires
            self.wf(),
    ;

    fn writerom(&mut self, a: u16, v: u8)
        requires
            old(self).wf(),
        ensures
            final(self).wf(),
    ;

    fn writeram(&mut self, a: u16, v: u8)
        requires
            old(self).wf(),
        ensures
            final(self).wf(),
    ;

    fn check_and_reset_ram_updated(&mut self) -> (r: bool)
        requires
            old(self).wf(),
        ensures
            final(self).wf(),
    ;

    fn is_battery_backed(&self) -> bool;

    fn loadram(&mut self, ramdata: &[u8]) -> (r: StrResult<()>)
        requires
            old(self).wf(),
        ensures
            final(self).wf(),
    ;

    fn dumpram(&self) -> Vec<u8>
        requires
            self.wf(),
    ;
}

/// The byte at `i`, or `d` past the end.
pub open spec fn byte_or(s: Seq<u8>, i: int, d: u8) -> u8 {
    if 0 <= i < s.len() {
        s[i]
    } else {
        d
    }
}

/// Reads the byte at `i`, or `d` past the end.
pub fn get_or(v: &Vec<u8>, i: usize, d: u8) -> (r: u8)
    ensures
        r == byte_or(v@, i as int, d),
{
    if i < v.len() {
        v[i]
    } else {
        d
    }
}

/// Writes `x` at `i` when `i` lies within the vector.
pub fn set_if_within(v: &mut Vec<u8>, i: usize, x: u8)
    ensures
        final(v)@ == if i < old(v)@.len() {
            old(v)@.update(i as int, x)
        } else {
            old(v)@
        },
{
    if i < v.len() {
        v.set(i, x);
    }
}

/// The number of 8 KiB RAM banks that the header's RAM size byte announces.
pub open spec fn spec_ram_banks(v: u8) -> usize {
    if v == 1 {
        1
    } else if v == 2 {
        1
    } else if v == 3 {
        4
    } else if v == 4 {
        16
    } else if v == 5 {
        8
    } else {
        0
    }
}

/// The number of 16 KiB ROM banks that the header's ROM size byte announces.
pub open spec fn spec_rom_banks(v: u8) -> usize {
    if v <= 8 {
        vstd::arithmetic::power2::pow2((v + 1) as nat) as usize
    } else {
        0
    }
}

/// The size in bytes of the external RAM that the header's RAM size byte announces:
/// 2 KiB, 8 KiB, 32 KiB or 128 KiB for the codes 1 to 4, none otherwise.
pub fn ram_size(v: u8) -> (r: usize)
    ensures
        r == (if v == 1 {
            0x800usize
        } else if v == 2 {
            0x2000
        } else if v == 3 {
            0x8000
        } else if v == 4 {
            0x20000
        } else {
            0
        }),
{
    match v {
        1 => 0x800,
        2 => 0x2000,
        3 => 0x8000,
        4 => 0x20000,
        _ => 0,
    }
}

pub fn ram_banks(v: u8) -> (r: usize)
    ensures
        r == spec_ram_banks(v),
        r <= 16,
{
    match v {
        1 => 1,
        2 => 1,
        3 => 4,
        4 => 16,
        5 => 8,
        _ => 0,
    }
}

pub fn rom_banks(v: u8) -> (r: usize)
    ensures
        r == spec_rom_banks(v),
        r <= 512,
        v <= 8 ==> 2 <= r && r % 2 == 0,
        v > 8 ==> r == 0,
{
    if v <= 8 {
        proof {
            vstd::arithmetic::power2::lemma2_to64();
            assert((2usize << v) as nat == vstd::arithmetic::power2::pow2((v + 1) as nat)) by {
                vstd::arithmetic::power2::lemma2_to64();
                assert(2usize << 0u8 == 2 && 2usize << 1u8 == 4 && 2usize << 2u8 == 8 && 2usize << 3u8 == 16
                    && 2usize << 4u8 == 32 && 2usize << 5u8 == 64 && 2usize << 6u8 == 128
                    && 2usize << 7u8 == 256 && 2usize << 8u8 == 512) by (bit_vector);
            }
        }
        2usize << v
    } else {
        0
    }
}

/// The header checksum over bytes 0x134 to 0x14C, as the boot ROM computes it:
/// starting from zero, subtract each byte and one more, modulo 256.
pub open spec fn header_checksum(data: Seq<u8>, end: int) -> u8
    decreases end - 0x134,
{
    if end <= 0x134 {
        0
    } else {
        ((header_checksum(data, end - 1) as int - data[end - 1] as int - 1) % 256) as u8
    }
}

/// Checks the header checksum of a ROM image.
pub fn check_checksum(data: &[u8]) -> (r: StrResult<()>)
    requires
        data@.len() > HEADER_CHECKSUM,
    ensures
        r is Ok <==> data@[HEADER_CHECKSUM as int] == header_checksum(data@, 0x14D),
        r is Err ==> r == Err::<(), &'static str>("Cartridge checksum is invalid"),
{
    let mut value: u8 = 0;
    let mut i: usize = 0x134;
    while i < 0x14D
        invariant
            0x134 <= i <= 0x14D,
            data@.len() > HEADER_CHECKSUM,
            value == header_checksum(data@, i as int),
        decreases 0x14D - i,
    {
        value = value.wrapping_sub(data[i]).wrapping_sub(1);
        i = i + 1;
    }
    if data[0x14D] == value {
        Ok(())
    } else {
        Err("Cartridge checksum is invalid")
    }
}

/// Which controller the cartridge type byte selects: 0 for none, 1, 2, 3 or 5;
/// `None` for an unsupported type.
pub open spec fn controller_of(t: u8) -> Option<u8> {
    if t == 0x00 {
        Some(0u8)
    } else if 0x01 <= t <= 0x03 {
        Some(1u8)
    } else if 0x05 <= t <= 0x06 {
        Some(2u8)
    } else if 0x0F <= t <= 0x13 {
        Some(3u8)
    } else if 0x19 <= t <= 0x1E {
        Some(5u8)
    } else {
        None
    }
}

/// A cartridge with one of the supported memory bank controllers.
pub enum Cartridge {
    MBC0(MBC0),
    MBC1(MBC1),
    MBC2(MBC2),
    MBC3(MBC3),
    MBC5(MBC5),
}

impl Cartridge {

    /// The cartridge as `get_mbc` builds it from a ROM image: its controller as that
    /// controller's `new` makes it.
    pub open spec fn is_new(&self, data: Seq<u8>) -> bool {
        match self {
            Cartridge::MBC0(m) => m.is_new(data),
            Cartridge::MBC1(m) => m.is_new(data),
            Cartridge::MBC2(m) => m.is_new(data),
            Cartridge::MBC3(m) => m.is_new(data),
            Cartridge::MBC5(m) => m.is_new(data),
        }
    }

    /// The ROM image the cartridge was made from.
    pub open spec fn rom(&self) -> Seq<u8> {
        match self {
            Cartridge::MBC0(m) => m.rom@,
            Cartridge::MBC1(m) => m.rom@,
            Cartridge::MBC2(m) => m.rom@,
            Cartridge::MBC3(m) => m.rom@,
            Cartridge::MBC5(m) => m.rom@,
        }
    }

    pub open spec fn spec_readrom(&self, a: u16) -> u8 {
        match self {
            Cartridge::MBC0(m) => m.spec_readrom(a),
            Cartridge::MBC1(m) => m.spec_readrom(a),
            Cartridge::MBC2(m) => m.spec_readrom(a),
            Cartridge::MBC3(m) => m.spec_readrom(a),
            Cartridge::MBC5(m) => m.spec_readrom(a),
        }
    }

    pub open spec fn spec_readram(&self, a: u16) -> u8 {
        match self {
            Cartridge::MBC0(m) => m.spec_readram(a),
            Cartridge::MBC1(m) => m.spec_readram(a),
            Cartridge::MBC2(m) => m.spec_readram(a),
            Cartridge::MBC3(m) => m.spec_readram(a),
            Cartridge::MBC5(m) => m.spec_readram(a),
        }
    }

    /// What a write to the ROM area (the controller's registers) does.
    pub open spec fn writerom_post(old: Cartridge, new: Cartridge, a: u16, v: u8) -> bool {
        match (old, new) {
            (Cartridge::MBC0(o), Cartridge::MBC0(n)) => n == o,
            (Cartridge::MBC1(o), Cartridge::MBC1(n)) => n == o.spec_writerom(a, v),
            (Cartridge::MBC2(o), Cartridge::MBC2(n)) => n == o.spec_writerom(a, v),
            (Cartridge::MBC3(o), Cartridge::MBC3(n)) => MBC3::writerom_post(o, n, a, v),
            (Cartridge::MBC5(o), Cartridge::MBC5(n)) => n == o.spec_writerom(a, v),
            _ => false,
        }
    }

    /// What a write to the external RAM area does.
    pub open spec fn writeram_post(old: Cartridge, new: Cartridge, a: u16, v: u8) -> bool {
        match (old, new) {
            (Cartridge::MBC0(o), Cartridge::MBC0(n)) => n == o,
            (Cartridge::MBC1(o), Cartridge::MBC1(n)) => MBC1::writeram_post(o, n, a, v),
            (Cartridge::MBC2(o), Cartridge::MBC2(n)) => MBC2::writeram_post(o, n, a, v),
            (Cartridge::MBC3(o), Cartridge::MBC3(n)) => MBC3::writeram_post(o, n, a, v),
            (Cartridge::MBC5(o), Cartridge::MBC5(n)) => MBC5::writeram_post(o, n, a, v),
            _ => false,
        }
    }

    pub open spec fn spec_battery(&self) -> bool {
        match self {
            Cartridge::MBC0(m) => false,
            Cartridge::MBC1(m) => m.has_battery,
            Cartridge::MBC2(m) => m.has_battery,
            Cartridge::MBC3(m) => m.has_battery,
            Cartridge::MBC5(m) => m.has_battery,
        }
    }

    /// The bytes that a save file holds for this cartridge.
    pub open spec fn spec_dumpram(&self) -> Seq<u8> {
        match self {
            Cartridge::MBC0(m) => Seq::empty(),
            Cartridge::MBC1(m) => m.ram@,
            Cartridge::MBC2(m) => m.ram@,
            Cartridge::MBC3(m) => m.spec_dumpram(),
            Cartridge::MBC5(m) => m.ram@,
        }
    }

    /// The message with which a save file of the wrong length is refused.
    pub open spec fn load_error(&self) -> &'static str {
        match self {
            Cartridge::MBC3(_) => "Loaded ram is too small",
            _ => "Loaded RAM has incorrect length",
        }
    }

    /// The length that a save file for this cartridge must have.
    pub open spec fn save_len(&self) -> nat {
        match self {
            Cartridge::MBC0(m) => 0,
            Cartridge::MBC1(m) => m.ram@.len(),
            Cartridge::MBC2(m) => m.ram@.len(),
            Cartridge::MBC3(m) => 8 + m.ram@.len(),
            Cartridge::MBC5(m) => m.ram@.len(),
        }
    }

    /// The cartridge after a save file of the right length was loaded: the RAM takes the
    /// file's contents; a clock cartridge takes its start time from the first eight bytes.
    pub open spec fn loaded_post(old: Cartridge, new: Cartridge, d: Seq<u8>) -> bool {
        match (old, new) {
            (Cartridge::MBC0(o), Cartridge::MBC0(n)) => n == o,
            (Cartridge::MBC1(o), Cartridge::MBC1(n)) => n == MBC1 { ram: n.ram, ..o } && n.ram@ == d,
            (Cartridge::MBC2(o), Cartridge::MBC2(n)) => n == MBC2 { ram: n.ram, ..o } && n.ram@ == d,
            (Cartridge::MBC3(o), Cartridge::MBC3(n)) => {
                let t = mbc3::be_u64(d[0], d[1], d[2], d[3], d[4], d[5], d[6], d[7]);
                &&& n == MBC3 {
                    ram: n.ram,
                    rtc_zero: if o.rtc_zero is Some { Some(t) } else { None },
                    ..o
                }
                &&& n.ram@ == d.subrange(8, d.len() as int)
            },
            (Cartridge::MBC5(o), Cartridge::MBC5(n)) => n == MBC5 { ram: n.ram, ..o } && n.ram@ == d,
            _ => false,
        }
    }

    pub open spec fn spec_ram_updated(&self) -> bool {
        match self {
            Cartridge::MBC0(m) => false,
            Cartridge::MBC1(m) => m.ram_updated,
            Cartridge::MBC2(m) => m.ram_updated,
            Cartridge::MBC3(m) => m.ram_updated,
            Cartridge::MBC5(m) => m.ram_updated,
        }
    }

    /// The characters of the game title in the header: up to 16 bytes from 0x134
    /// (11 on colour cartridges), ending at the first zero byte.
    pub open spec fn spec_title(&self) -> Seq<char> {
        let size: int = if self.spec_readrom(0x143) & 0x80 == 0x80 { 11 } else { 16 };
        title_chars(self, 0, size)
    }
}

/// The title characters from position `i` on, stopping at `size` or a zero byte.
pub open spec fn title_chars(c: &Cartridge, i: int, size: int) -> Seq<char>
    decreases size - i,
{
    if i >= size || i < 0 {
        Seq::empty()
    } else {
        let b = c.spec_readrom((0x134 + i) as u16);
        if b == 0 {
            Seq::empty()
        } else {
            seq![b as char].add(title_chars(c, i + 1, size))
        }
    }
}

/// Appends a character to a string with the standard library's `String::push`: the
/// string's characters gain `c` at their end.
#[verifier::external_body]
fn push_char(s: &mut String, c: char)
    ensures
        final(s)@ == old(s)@.push(c),
{
    s.push(c);
}

impl MBC for Cartridge {
    open spec fn wf(&self) -> bool {
        match self {
            Cartridge::MBC0(m) => m.wf(),
            Cartridge::MBC1(m) => m.wf(),
            Cartridge::MBC2(m) => m.wf(),
            Cartridge::MBC3(m) => m.wf(),
            Cartridge::MBC5(m) => m.wf(),
        }
    }

    fn readrom(&self, a: u16) -> (r: u8)
        ensures
            r == self.spec_readrom(a),
    {
        match self {
            Cartridge::MBC0(m) => m.readrom(a),
            Cartridge::MBC1(m) => m.readrom(a),
            Cartridge::MBC2(m) => m.readrom(a),
            Cartridge::MBC3(m) => m.readrom(a),
            Cartridge::MBC5(m) => m.readrom(a),
        }
    }

    fn readram(&self, a: u16) -> (r: u8)
        ensures
            r == self.spec_readram(a),
    {
        match self {
            Cartridge::MBC0(m) => m.readram(a),
            Cartridge::MBC1(m) => m.readram(a),
            Cartridge::MBC2(m) => m.readram(a),
            Cartridge::MBC3(m) => m.readram(a),
            Cartridge::MBC5(m) => m.readram(a),
        }
    }

    fn writerom(&mut self, a: u16, v: u8)
        ensures
            Cartridge::writerom_post(*old(self), *final(self), a, v),
    {
        match self {
            Cartridge::MBC0(m) => m.writerom(a, v),
            Cartridge::MBC1(m) => m.writerom(a, v),
            Cartridge::MBC2(m) => m.writerom(a, v),
            Cartridge::MBC3(m) => m.writerom(a, v),
            Cartridge::MBC5(m) => m.writerom(a, v),
        }
    }

    fn writeram(&mut self, a: u16, v: u8)
        ensures
            Cartridge::writeram_post(*old(self), *final(self), a, v),
    {
        match self {
            Cartridge::MBC0(m) => m.writeram(a, v),
            Cartridge::MBC1(m) => m.writeram(a, v),
            Cartridge::MBC2(m) => m.writeram(a, v),
            Cartridge::MBC3(m) => m.writeram(a, v),
            Cartridge::MBC5(m) => m.writeram(a, v),
        }
    }

    fn check_and_reset_ram_updated(&mut self) -> (r: bool)
        ensures
            r == old(self).spec_ram_updated(),
            !final(self).spec_ram_updated(),
    {
        match self {
            Cartridge::MBC0(m) => m.check_and_reset_ram_updated(),
            Cartridge::MBC1(m) => m.check_and_reset_ram_updated(),
            Cartridge::MBC2(m) => m.check_and_reset_ram_updated(),
            Cartridge::MBC3(m) => m.check_and_reset_ram_updated(),
            Cartridge::MBC5(m) => m.check_and_reset_ram_updated(),
        }
    }

    fn is_battery_backed(&self) -> (r: bool)
        ensures
            r == self.spec_battery(),
    {
        match self {
            Cartridge::MBC0(m) => m.is_battery_backed(),
            Cartridge::MBC1(m) => m.is_battery_backed(),
            Cartridge::MBC2(m) => m.is_battery_backed(),
            Cartridge::MBC3(m) => m.is_battery_backed(),
            Cartridge::MBC5(m) => m.is_battery_backed(),
        }
    }

    fn loadram(&mut self, ramdata: &[u8]) -> (r: StrResult<()>)
        ensures
            r is Ok <==> ramdata@.len() == old(self).save_len(),
            r is Ok ==> Cartridge::loaded_post(*old(self), *final(self), ramdata@),
            r is Err ==> *final(self) == *old(self) && r == Err::<(), &'static str>(old(self).load_error()),
    {
        match self {
            Cartridge::MBC0(m) => m.loadram(ramdata),
            Cartridge::MBC1(m) => m.loadram(ramdata),
            Cartridge::MBC2(m) => m.loadram(ramdata),
            Cartridge::MBC3(m) => m.loadram(ramdata),
            Cartridge::MBC5(m) => m.loadram(ramdata),
        }
    }

    fn dumpram(&self) -> (r: Vec<u8>)
        ensures
            r@ == self.spec_dumpram(),
    {
        match self {
            Cartridge::MBC0(m) => m.dumpram(),
            Cartridge::MBC1(m) => m.dumpram(),
            Cartridge::MBC2(m) => m.dumpram(),
            Cartridge::MBC3(m) => m.dumpram(),
            Cartridge::MBC5(m) => m.dumpram(),
        }
    }
}

impl Cartridge {
    /// The game title from the cartridge header.
    pub fn romname(&self) -> (r: String)
        requires
            self.wf(),
        ensures
            r@ == self.spec_title(),
    {
        let title_size: u16 = if self.readrom(0x143) & 0x80 == 0x80 { 11 } else { 16 };
        let mut result = String::new();
        let mut i: u16 = 0;
        let mut done = false;
        while i < title_size && !done
            invariant
                0 <= i <= title_size,
                self.wf(),
                title_size == (if self.spec_readrom(0x143) & 0x80 == 0x80 { 11u16 } else { 16u16 }),
                done ==> result@ == self.spec_title(),
                !done ==> result@ + title_chars(self, i as int, title_size as int) == self.spec_title(),
            decreases title_size - i, if done { 0int } else { 1int },
        {
            let b = self.readrom(0x134 + i);
            if b == 0 {
                done = true;
                assert(result@ + Seq::<char>::empty() =~= result@);
            } else {
                let ghost before = result@;
                push_char(&mut result, b as char);
                assert(title_chars(self, i as int, title_size as int) == seq![b as char].add(
                    title_chars(self, i + 1, title_size as int),
                ));
                assert(before + title_chars(self, i as int, title_size as int) =~= result@ + title_chars(
                    self,
                    i + 1,
                    title_size as int,
                ));
                i = i + 1;
            }
        }
        if !done {
            assert(title_chars(self, i as int, title_size as int) == Seq::<char>::empty());
            assert(result@ + Seq::<char>::empty() =~= result@);
        }
        result
    }
}

/// Why a ROM image cannot be made a cartridge, if it cannot: too short for a header, a
/// wrong header checksum (unless it is skipped), or an unsupported cartridge type.
pub open spec fn mbc_error(data: Seq<u8>, skip_checksum: bool) -> Option<&'static str> {
    if data.len() < 0x150 {
        Some("Rom size to small")
    } else if !skip_checksum && data[HEADER_CHECKSUM as int] != header_checksum(data, 0x14D) {
        Some("Cartridge checksum is invalid")
    } else if controller_of(data[HEADER_TYPE as int]) is None {
        Some("Unsupported MBC type")
    } else {
        None
    }
}

/// Builds the cartridge that a ROM image asks for.
pub fn get_mbc(data: Vec<u8>, skip_checksum: bool) -> (r: StrResult<Cartridge>)
    ensures
        r is Err <==> mbc_error(data@, skip_checksum) is Some,
        r matches Err(e) ==> mbc_error(data@, skip_checksum) == Some(e),
        data@.len() < 0x150 ==> r == Err::<Cartridge, &'static str>("Rom size to small"),
        data@.len() >= 0x150 && !skip_checksum && data@[HEADER_CHECKSUM as int] != header_checksum(data@, 0x14D)
            ==> r == Err::<Cartridge, &'static str>("Cartridge checksum is invalid"),
        data@.len() >= 0x150 && (skip_checksum || data@[HEADER_CHECKSUM as int] == header_checksum(data@, 0x14D))
            ==> match controller_of(data@[HEADER_TYPE as int]) {
                None => r == Err::<Cartridge, &'static str>("Unsupported MBC type"),
                Some(k) => r matches Ok(c) && c.rom() == data@ && c.wf() && c.is_new(data@)
                    && (forall|a: u16| a < 0x4000 && (a as int) < data@.len() ==> #[trigger] c.spec_readrom(a) == data@[a as int])
                    && match c {
                    Cartridge::MBC0(_) => k == 0,
                    Cartridge::MBC1(_) => k == 1,
                    Cartridge::MBC2(_) => k == 2,
                    Cartridge::MBC3(_) => k == 3,
                    Cartridge::MBC5(_) => k == 5,
                },
            },
{
    if data.len() < 0x150 {
        return Err("Rom size to small");
    }
    if !skip_checksum {
        let c = check_checksum(data.as_slice());
        if c.is_err() {
            return Err("Cartridge checksum is invalid");
        }
    }
    let t = data[0x147];
    if t == 0x00 {
        match MBC0::new(data) {
            Ok(m) => {
                proof { lemma_new_reads_rom(Cartridge::MBC0(m), data@); }
                Ok(Cartridge::MBC0(m))
            },
            Err(e) => Err(e),
        }
    } else if 0x01 <= t && t <= 0x03 {
        match MBC1::new(data) {
            Ok(m) => {
                proof { lemma_new_reads_rom(Cartridge::MBC1(m), data@); }
                Ok(Cartridge::MBC1(m))
            },
            Err(e) => Err(e),
        }
    } else if 0x05 <= t && t <= 0x06 {
        match MBC2::new(data) {
            Ok(m) => {
                proof { lemma_new_reads_rom(Cartridge::MBC2(m), data@); }
                Ok(Cartridge::MBC2(m))
            },
            Err(e) => Err(e),
        }
    } else if 0x0F <= t && t <= 0x13 {
        match MBC3::new(data) {
            Ok(m) => {
                proof { lemma_new_reads_rom(Cartridge::MBC3(m), data@); }
                Ok(Cartridge::MBC3(m))
            },
            Err(e) => Err(e),
        }
    } else if 0x19 <= t && t <= 0x1E {
        match MBC5::new(data) {
            Ok(m) => {
                proof { lemma_new_reads_rom(Cartridge::MBC5(m), data@); }
                Ok(Cartridge::MBC5(m))
            },
            Err(e) => Err(e),
        }
    } else {
        Err("Unsupported MBC type")
    }
}

/// A freshly built cartridge reads the ROM image itself below 0x4000.
proof fn lemma_new_reads_rom(c: Cartridge, data: Seq<u8>)
    requires
        c.is_new(data),
    ensures
        forall|a: u16| a < 0x4000 && (a as int) < data.len() ==> #[trigger] c.spec_readrom(a) == data[a as int],
{
    assert forall|a: u16| a < 0x4000 && (a as int) < data.len() implies #[trigger] c.spec_readrom(a) == data[a as int] by {
        crate::bits::lemma_u16_bits(a);
    }
}

/// A save file of the right length, loaded and then saved again, gives the same bytes: the
/// RAM takes the file's contents, and a clock cartridge that keeps a start time takes it
/// from the first eight bytes.
pub proof fn lemma_save_roundtrip(old: Cartridge, new: Cartridge, d: Seq<u8>)
    requires
        d.len() == old.save_len(),
        Cartridge::loaded_post(old, new, d),
        old matches Cartridge::MBC3(m) ==> m.rtc_zero is Some,
    ensures
        new.spec_dumpram() == d,
{
    match (old, new) {
        (Cartridge::MBC0(o), Cartridge::MBC0(n)) => {
            assert(d =~= Seq::<u8>::empty());
        },
        (Cartridge::MBC3(o), Cartridge::MBC3(n)) => {
            mbc3::lemma_be_bytes_roundtrip(d[0], d[1], d[2], d[3], d[4], d[5], d[6], d[7]);
            assert(d =~= seq![d[0], d[1], d[2], d[3], d[4], d[5], d[6], d[7]] + d.subrange(8, d.len() as int));
        },
        _ => {},
    }
}

} // verus!
