use vstd::prelude::*;
use crate::mbc::{byte_or, get_or, ram_banks, rom_banks, spec_ram_banks, spec_rom_banks, MBC};
use crate::StrResult;

verus! {

/// The MBC5 controller: up to 8 MiB of ROM (a nine-bit bank number) and 128 KiB of RAM.
pub struct MBC5 {
    pub rom: Vec<u8>,
    pub ram: Vec<u8>,
    pub rombank: usize,
    pub rambank: usize,
    pub ram_on: bool,
    pub ram_updated: bool,
    pub has_battery: bool,
    pub rombanks: usize,
    pub rambanks: usize,
}

impl MBC5 {
    /// The controller as `new` makes it from a ROM image: bank 1 selected, RAM disabled
    /// and cleared, and the RAM size and battery that the header announces.
    pub open spec fn is_new(&self, data: Seq<u8>) -> bool {
        &&& self.rom@ == data
        &&& self.rombank == 1
        &&& self.rambank == 0
        &&& !self.ram_on
        &&& !self.ram_updated
        &&& self.has_battery == (data[0x147] == 0x1B || data[0x147] == 0x1E)
        &&& self.rombanks == spec_rom_banks(data[0x148])
        &&& self.rambanks == (if data[0x147] == 0x1A || data[0x147] == 0x1B || data[0x147] == 0x1D
            || data[0x147] == 0x1E {
            spec_ram_banks(data[0x149])
        } else {
            0
        })
        &&& self.ram@ == Seq::new((self.rambanks * 0x2000) as nat, |i: int| 0u8)
    }

    pub fn new(data: Vec<u8>) -> (r: StrResult<MBC5>)
        requires
            data@.len() >= 0x150,
        ensures
            r matches Ok(m) && m.wf() && m.is_new(data@),
    {
        let t = data[0x147];
        let has_battery = t == 0x1B || t == 0x1E;
        let rambanks = if t == 0x1A || t == 0x1B || t == 0x1D || t == 0x1E {
            ram_banks(data[0x149])
        } else {
            0
        };
        let ramsize = 0x2000 * rambanks;
        let rombanks = rom_banks(data[0x148]);
        let ram = vec![0u8; ramsize];
        assert(ram@ =~= Seq::new((rambanks * 0x2000) as nat, |i: int| 0u8));
        Ok(MBC5 {
            rom: data,
            ram,
            rombank: 1,
            rambank: 0,
            ram_updated: false,
            ram_on: false,
            has_battery,
            rombanks,
            rambanks,
        })
    }

    /// Past the end of the image, ROM reads 0.
    pub open spec fn spec_readrom(&self, a: u16) -> u8 {
        let i = if a < 0x4000 {
            a as int
        } else {
            self.rombank as int * 0x4000 + (a & 0x3FFF) as int
        };
        byte_or(self.rom@, i, 0)
    }

    pub open spec fn ram_index(&self, a: u16) -> int {
        self.rambank as int * 0x2000 + (a & 0x1FFF) as int
    }

    /// Disabled RAM reads 0; RAM that the cartridge lacks reads 0xFF.
    pub open spec fn spec_readram(&self, a: u16) -> u8 {
        if !self.ram_on {
            0
        } else {
            byte_or(self.ram@, self.ram_index(a), 0xFF)
        }
    }

    /// The controller after a register write. A bank write leaves the bank unchanged
    /// on a cartridge whose header announces no banks of that kind.
    pub open spec fn spec_writerom(self, a: u16, v: u8) -> MBC5 {
        if a <= 0x1FFF {
            MBC5 { ram_on: v & 0x0F == 0x0A, ..self }
        } else if a <= 0x2FFF {
            if self.rombanks == 0 {
                self
            } else {
                MBC5 { rombank: (((self.rombank & 0x100) | (v as usize)) % self.rombanks) as usize, ..self }
            }
        } else if a <= 0x3FFF {
            if self.rombanks == 0 {
                self
            } else {
                MBC5 {
                    rombank: (((self.rombank & 0x0FF) | (((v & 0x1) as usize) << 8)) % self.rombanks) as usize,
                    ..self
                }
            }
        } else if a <= 0x5FFF {
            if self.rambanks == 0 {
                self
            } else {
                MBC5 { rambank: (((v & 0x0F) as usize) % self.rambanks) as usize, ..self }
            }
        } else {
            self
        }
    }

    pub open spec fn writeram_post(old: MBC5, new: MBC5, a: u16, v: u8) -> bool {
        if !old.ram_on {
            new == old
        } else {
            let i = old.ram_index(a);
            &&& new == MBC5 { ram: new.ram, ram_updated: new.ram_updated, ..old }
            &&& new.ram@ == if i < old.ram@.len() { old.ram@.update(i, v) } else { old.ram@ }
            &&& new.ram_updated == (old.ram_updated || i < old.ram@.len())
        }
    }
}

impl MBC for MBC5 {
    open spec fn wf(&self) -> bool {
        &&& self.rom@.len() >= 0x150
        &&& self.rombank < 0x200
        &&& self.rambank < 16
        &&& self.rombanks <= 512
        &&& self.rambanks <= 16
        &&& self.ram@.len() == self.rambanks * 0x2000
    }

    fn readrom(&self, a: u16) -> (r: u8)
        ensures
            r == self.spec_readrom(a),
    {
        proof {
            crate::bits::lemma_u16_bits(a);
        }
        let idx = if a < 0x4000 {
            a as usize
        } else {
            self.rombank * 0x4000 + ((a & 0x3FFF) as usize)
        };
        get_or(&self.rom, idx, 0)
    }

    fn readram(&self, a: u16) -> (r: u8)
        ensures
            r == self.spec_readram(a),
    {
        if !self.ram_on {
            return 0;
        }
        proof {
            crate::bits::lemma_u16_bits(a);
        }
        get_or(&self.ram, self.rambank * 0x2000 + ((a & 0x1FFF) as usize), 0xFF)
    }

    fn writerom(&mut self, a: u16, v: u8)
        ensures
            *final(self) == old(self).spec_writerom(a, v),
    {
        if a <= 0x1FFF {
            self.ram_on = v & 0x0F == 0x0A;
        } else if a <= 0x2FFF {
            if self.rombanks != 0 {
                self.rombank = ((self.rombank & 0x100) | (v as usize)) % self.rombanks;
            }
        } else if a <= 0x3FFF {
            if self.rombanks != 0 {
                self.rombank = ((self.rombank & 0x0FF) | (((v & 0x1) as usize) << 8)) % self.rombanks;
            }
        } else if a <= 0x5FFF {
            if self.rambanks != 0 {
                self.rambank = ((v & 0x0F) as usize) % self.rambanks;
            }
        }
    }

    fn writeram(&mut self, a: u16, v: u8)
        ensures
            MBC5::writeram_post(*old(self), *final(self), a, v),
    {
        if self.ram_on == false {
            return;
        }
        proof {
            crate::bits::lemma_u16_bits(a);
        }
        let i = self.rambank * 0x2000 + ((a & 0x1FFF) as usize);
        if i < self.ram.len() {
            self.ram.set(i, v);
            self.ram_updated = true;
        }
    }

    fn check_and_reset_ram_updated(&mut self) -> (r: bool)
        ensures
            r == old(self).ram_updated,
            *final(self) == (MBC5 { ram_updated: false, ..*old(self) }),
    {
        let result = self.ram_updated;
        self.ram_updated = false;
        result
    }

    fn is_battery_backed(&self) -> (r: bool)
        ensures
            r == self.has_battery,
    {
        self.has_battery
    }

    fn loadram(&mut self, ramdata: &[u8]) -> (r: StrResult<()>)
        ensures
            r is Ok <==> ramdata@.len() == old(self).ram@.len(),
            r is Err ==> r == Err::<(), &'static str>("Loaded RAM has incorrect length")
                && *final(self) == *old(self),
            r is Ok ==> *final(self) == (MBC5 { ram: final(self).ram, ..*old(self) })
                && final(self).ram@ == ramdata@,
    {
        if ramdata.len() != self.ram.len() {
            return Err("Loaded RAM has incorrect length");
        }
        self.ram = vstd::slice::slice_to_vec(ramdata);
        Ok(())
    }

    fn dumpram(&self) -> (r: Vec<u8>)
        ensures
            r@ == self.ram@,
    {
        let r = self.ram.clone();
        assert(r@ =~= self.ram@);
        r
    }
}

/// The MBC5 registers: 0x2000 - 0x2FFF sets the low eight bits of the nine-bit ROM bank to
/// `v`, 0x3000 - 0x3FFF its ninth bit to bit 0 of `v`, both wrapping at the number of banks;
/// 0x4000 - 0x5FFF selects RAM bank `v mod 16`, wrapping at the number of RAM banks; a low
/// nibble of 0xA written to 0x0000 - 0x1FFF enables RAM. The switchable area shows the
/// selected bank, and the fixed area bank 0 (bytes past the image read 0).
pub proof fn lemma_mbc5_registers(old: MBC5, a: u16, v: u8, o: u16)
    requires
        o < 0x4000,
    ensures
        a <= 0x1FFF ==> old.spec_writerom(a, v).ram_on == (v % 16 == 10),
        0x2000 <= a <= 0x2FFF && old.rombanks > 0 ==> old.spec_writerom(a, v).rombank == (((old.rombank / 256)
            % 2) * 256 + v) % (old.rombanks as int),
        0x3000 <= a <= 0x3FFF && old.rombanks > 0 ==> old.spec_writerom(a, v).rombank == (old.rombank % 256 + (v
            % 2) * 256) % (old.rombanks as int),
        0x4000 <= a <= 0x5FFF && old.rambanks > 0 ==> old.spec_writerom(a, v).rambank == ((v % 16) as int) % (
        old.rambanks as int),
        old.spec_readrom((0x4000 + o) as u16) == byte_or(old.rom@, old.rombank * 0x4000 + o, 0),
        old.spec_readrom(o) == byte_or(old.rom@, o as int, 0),
{
    crate::bits::lemma_u8_bits(v);
    crate::bits::lemma_u16_bits((0x4000 + o) as u16);
    crate::bits::lemma_bank_fields(old.rombank, v as usize, (v & 0x1) as usize);
}

/// The MBC5 RAM area: with RAM enabled and a RAM bank selected that the cartridge has,
/// address `a` reads byte `rambank * 0x2000 + (a mod 0x2000)` of the RAM, and a write there
/// is read back; with RAM disabled it reads 0 and writes are ignored.
pub proof fn lemma_mbc5_ram_bank(old: MBC5, new: MBC5, a: u16, v: u8)
    requires
        old.wf(),
        0xA000 <= a <= 0xBFFF,
        MBC5::writeram_post(old, new, a, v),
    ensures
        old.ram_on && old.rambank < old.rambanks ==> old.spec_readram(a) == old.ram@[old.rambank * 0x2000 + a % 0x2000]
            && new.spec_readram(a) == v,
        !old.ram_on ==> old.spec_readram(a) == 0 && new == old,
{
    crate::bits::lemma_u16_bits(a);
}

} // verus!
