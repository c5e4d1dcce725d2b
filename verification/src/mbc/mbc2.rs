use vstd::prelude::*;
use crate::mbc::{byte_or, get_or, rom_banks, spec_rom_banks, MBC};
use crate::StrResult;

verus! {

/// The MBC2 controller: up to 256 KiB of ROM and 512 half-bytes of built-in RAM.
pub struct MBC2 {
    pub rom: Vec<u8>,
    pub ram: Vec<u8>,
    pub ram_on: bool,
    pub rombank: usize,
    pub rombanks: usize,
    pub has_battery: bool,
    pub ram_updated: bool,
}

impl MBC2 {
    /// The controller as `new` makes it from a ROM image: bank 1 selected, RAM disabled
    /// and cleared, and the battery that the header announces.
    pub open spec fn is_new(&self, data: Seq<u8>) -> bool {
        &&& self.rom@ == data
        &&& self.rombank == 1
        &&& !self.ram_on
        &&& !self.ram_updated
        &&& self.has_battery == (data[0x147] == 0x06)
        &&& self.rombanks == spec_rom_banks(data[0x148])
        &&& self.ram@ == Seq::new(512, |i: int| 0u8)
    }

    pub fn new(data: Vec<u8>) -> (r: StrResult<MBC2>)
        requires
            data@.len() >= 0x150,
        ensures
            r matches Ok(m) && m.wf() && m.is_new(data@),
    {
        let t = data[0x147];
        let rombanks = rom_banks(data[0x148]);
        let ram = vec![0u8; 512];
        assert(ram@ =~= Seq::new(512, |i: int| 0u8));
        Ok(MBC2 { rom: data, ram, ram_on: false, rombank: 1, rombanks, has_battery: t == 0x06, ram_updated: false })
    }

    pub open spec fn spec_readrom(&self, a: u16) -> u8 {
        let bank = if a < 0x4000 { 0 } else { self.rombank };
        byte_or(self.rom@, bank as int * 0x4000 + (a & 0x3FFF) as int, 0xFF)
    }

    /// The built-in RAM stores four bits per address; the upper four read as ones.
    pub open spec fn spec_readram(&self, a: u16) -> u8 {
        if !self.ram_on {
            0xFF
        } else {
            byte_or(self.ram@, (a & 0x1FF) as int, 0xFF) | 0xF0
        }
    }

    /// The controller after a register write: address bit 8 chooses between the RAM
    /// enable and the ROM bank number.
    pub open spec fn spec_writerom(self, a: u16, v: u8) -> MBC2 {
        if a <= 0x3FFF {
            if a & 0x100 == 0 {
                MBC2 { ram_on: v & 0xF == 0xA, ..self }
            } else if self.rombanks == 0 {
                self
            } else {
                let n: usize = if v & 0x0F == 0 { 1 } else { (v & 0x0F) as usize };
                MBC2 { rombank: (n % self.rombanks) as usize, ..self }
            }
        } else {
            self
        }
    }

    pub open spec fn writeram_post(old: MBC2, new: MBC2, a: u16, v: u8) -> bool {
        if !old.ram_on {
            new == old
        } else {
            &&& new == MBC2 { ram: new.ram, ram_updated: true, ..old }
            &&& new.ram@ == if ((a & 0x1FF) as int) < old.ram@.len() {
                old.ram@.update((a & 0x1FF) as int, v | 0xF0)
            } else {
                old.ram@
            }
        }
    }
}

impl MBC for MBC2 {
    open spec fn wf(&self) -> bool {
        &&& self.rom@.len() >= 0x150
        &&& self.ram@.len() == 512
        &&& self.rombank < 0x200
        &&& self.rombanks <= 512
    }

    fn readrom(&self, a: u16) -> (r: u8)
        ensures
            r == self.spec_readrom(a),
    {
        let bank = if a < 0x4000 { 0 } else { self.rombank };
        proof {
            crate::bits::lemma_u16_bits(a);
        }
        get_or(&self.rom, bank * 0x4000 + ((a & 0x3FFF) as usize), 0xFF)
    }

    fn readram(&self, a: u16) -> (r: u8)
        ensures
            r == self.spec_readram(a),
    {
        if !self.ram_on {
            return 0xFF;
        }
        proof {
            crate::bits::lemma_u16_bits(a);
        }
        get_or(&self.ram, (a & 0x1FF) as usize, 0xFF) | 0xF0
    }

    fn writerom(&mut self, a: u16, v: u8)
        ensures
            *final(self) == old(self).spec_writerom(a, v),
    {
        if a <= 0x3FFF {
            if a & 0x100 == 0 {
                self.ram_on = v & 0xF == 0xA;
            } else if self.rombanks != 0 {
                let n: usize = match (v as usize) & 0x0F {
                    0 => 1,
                    n => n,
                };
                proof {
                    crate::bits::lemma_u8_bits(v);
                }
                self.rombank = n % self.rombanks;
            }
        }
    }

    fn writeram(&mut self, a: u16, v: u8)
        ensures
            MBC2::writeram_post(*old(self), *final(self), a, v),
    {
        if !self.ram_on {
            return;
        }
        proof {
            crate::bits::lemma_u16_bits(a);
        }
        let i = (a & 0x1FF) as usize;
        if i < self.ram.len() {
            self.ram.set(i, v | 0xF0);
        }
        self.ram_updated = true;
    }

    fn check_and_reset_ram_updated(&mut self) -> (r: bool)
        ensures
            r == old(self).ram_updated,
            *final(self) == (MBC2 { ram_updated: false, ..*old(self) }),
    {
        let result = self.ram_updated;
        self.ram_updated = false;
        result
    }

    fn is_battery_backed(&self) -> (r: bool)
        ensures
            r == self.has_battery,
    {
        self.has_battery
    }

    fn loadram(&mut self, ramdata: &[u8]) -> (r: StrResult<()>)
        ensures
            r is Ok <==> ramdata@.len() == old(self).ram@.len(),
            r is Err ==> r == Err::<(), &'static str>("Loaded RAM has incorrect length")
                && *final(self) == *old(self),
            r is Ok ==> *final(self) == (MBC2 { ram: final(self).ram, ..*old(self) })
                && final(self).ram@ == ramdata@,
    {
        if ramdata.len() != self.ram.len() {
            return Err("Loaded RAM has incorrect length");
        }
        self.ram = vstd::slice::slice_to_vec(ramdata);
        Ok(())
    }

    fn dumpram(&self) -> (r: Vec<u8>)
        ensures
            r@ == self.ram@,
    {
        let r = self.ram.clone();
        assert(r@ =~= self.ram@);
        r
    }
}

/// The MBC2 registers, told apart by bit 8 of the address: with it clear a write enables RAM
/// for a low nibble of 0xA; with it set it selects ROM bank `v mod 16` (0 selects 1), wrapping
/// at the number of banks. The switchable area then shows the selected bank.
pub proof fn lemma_mbc2_registers(old: MBC2, a: u16, v: u8, o: u16)
    requires
        a <= 0x3FFF,
        o < 0x4000,
    ensures
        (a / 256) % 2 == 0 ==> old.spec_writerom(a, v).ram_on == (v % 16 == 10),
        (a / 256) % 2 == 1 && old.rombanks > 0 ==> old.spec_writerom(a, v).rombank == (if v % 16 == 0 {
            1int
        } else {
            (v % 16) as int
        }) % (old.rombanks as int),
        old.spec_readrom((0x4000 + o) as u16) == byte_or(old.rom@, old.rombank * 0x4000 + o, 0xFF),
{
    crate::bits::lemma_u8_bits(v);
    crate::bits::lemma_u16_bits((0x4000 + o) as u16);
    crate::bits::lemma_u16_bits(a);
    assert((a & 0x100 == 0) == ((a / 256) % 2 == 0)) by (bit_vector);
}

/// The MBC2 built-in RAM: 512 half-bytes, repeated through 0xA000 - 0xBFFF. With RAM
/// enabled, a write of `v` to `a` is read back at every address with the same `a mod 512`
/// as `v` with the upper four bits set; with RAM disabled reads give 0xFF and writes are
/// ignored.
pub proof fn lemma_mbc2_ram(old: MBC2, new: MBC2, a: u16, v: u8, b: u16)
    requires
        old.wf(),
        0xA000 <= a <= 0xBFFF,
        0xA000 <= b <= 0xBFFF,
        MBC2::writeram_post(old, new, a, v),
    ensures
        old.ram_on && a % 512 == b % 512 ==> new.spec_readram(b) == v | 0xF0,
        old.ram_on && a % 512 != b % 512 ==> new.spec_readram(b) == old.spec_readram(b),
        !old.ram_on ==> old.spec_readram(b) == 0xFF && new == old,
{
    crate::bits::lemma_u16_bits(a);
    crate::bits::lemma_u16_bits(b);
    assert((v | 0xF0) | 0xF0 == v | 0xF0) by (bit_vector);
}

} // verus!
