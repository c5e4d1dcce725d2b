use vstd::prelude::*;
use crate::mbc::{byte_or, get_or, set_if_within, ram_banks, rom_banks, spec_ram_banks, spec_rom_banks, MBC};
use crate::StrResult;

verus! {

/// The MBC1 controller: up to 2 MiB of ROM and 32 KiB of RAM, with a banking mode
/// that lets the upper bank bits select either ROM or RAM.
pub struct MBC1 {
    pub rom: Vec<u8>,
    pub ram: Vec<u8>,
    pub ram_on: bool,
    pub banking_mode: u8,
    pub rombank: usize,
    pub rambank: usize,
    pub rombanks: usize,
    pub rambanks: usize,
    pub has_battery: bool,
    pub ram_updated: bool,
}

impl MBC1 {
    /// The controller as `new` makes it from a ROM image: bank 1 selected, banking mode
    /// 0, RAM disabled and cleared, and the RAM size and battery that the header announces.
    pub open spec fn is_new(&self, data: Seq<u8>) -> bool {
        &&& self.rom@ == data
        &&& self.rombank == 1
        &&& self.rambank == 0
        &&& !self.ram_on
        &&& self.banking_mode == 0
        &&& !self.ram_updated
        &&& self.has_battery == (data[0x147] == 0x03)
        &&& self.rombanks == spec_rom_banks(data[0x148])
        &&& self.rambanks == (if data[0x147] == 0x02 || data[0x147] == 0x03 {
            spec_ram_banks(data[0x149])
        } else {
            0
        })
        &&& self.ram@ == Seq::new((self.rambanks * 0x2000) as nat, |i: int| 0u8)
    }

    pub fn new(data: Vec<u8>) -> (r: StrResult<MBC1>)
        requires
            data@.len() >= 0x150,
        ensures
            r matches Ok(m) && m.wf() && m.is_new(data@),
    {
        let t = data[0x147];
        let rambanks = if t == 0x02 || t == 0x03 { ram_banks(data[0x149]) } else { 0 };
        let rombanks = rom_banks(data[0x148]);
        let ramsize = rambanks * 0x2000;
        let ram = vec![0u8; ramsize];
        assert(ram@ =~= Seq::new((rambanks * 0x2000) as nat, |i: int| 0u8));
        Ok(MBC1 {
            rom: data,
            ram,
            ram_on: false,
            banking_mode: 0,
            rombank: 1,
            rambank: 0,
            rombanks,
            rambanks,
            has_battery: t == 0x03,
            ram_updated: false,
        })
    }

    /// The bank that the address selects in the ROM area.
    pub open spec fn rom_bank_at(&self, a: u16) -> usize {
        if a < 0x4000 {
            if self.banking_mode == 0 {
                0
            } else {
                self.rombank & 0xE0
            }
        } else {
            self.rombank
        }
    }

    pub open spec fn spec_readrom(&self, a: u16) -> u8 {
        byte_or(self.rom@, self.rom_bank_at(a) as int * 0x4000 + (a & 0x3FFF) as int, 0xFF)
    }

    /// The RAM position that an address in the external RAM area selects.
    pub open spec fn ram_index(&self, a: u16) -> int {
        (if self.banking_mode == 1 { self.rambank } else { 0 }) as int * 0x2000 + (a & 0x1FFF) as int
    }

    pub open spec fn spec_readram(&self, a: u16) -> u8 {
        if !self.ram_on {
            0xFF
        } else {
            byte_or(self.ram@, self.ram_index(a), 0xFF)
        }
    }

    /// The controller after a write to its registers. A bank-number write leaves the
    /// bank unchanged on a cartridge whose header announces no ROM banks.
    pub open spec fn spec_writerom(self, a: u16, v: u8) -> MBC1 {
        if a <= 0x1FFF {
            MBC1 { ram_on: v & 0xF == 0xA, ..self }
        } else if a <= 0x3FFF {
            let lower: usize = if v & 0x1F == 0 { 1 } else { (v & 0x1F) as usize };
            if self.rombanks == 0 {
                self
            } else {
                MBC1 { rombank: (((self.rombank & 0x60) | lower) % self.rombanks) as usize, ..self }
            }
        } else if a <= 0x5FFF {
            let rb = if self.rombanks > 0x20 {
                self.rombank & 0x1F | ((((v & 0x03) as usize) % (self.rombanks >> 5)) << 5)
            } else {
                self.rombank
            };
            let ramb = if self.rambanks > 1 { (v & 0x03) as usize } else { self.rambank };
            MBC1 { rombank: rb, rambank: ramb, ..self }
        } else {
            MBC1 { banking_mode: v & 0x01, ..self }
        }
    }

    pub open spec fn writeram_post(old: MBC1, new: MBC1, a: u16, v: u8) -> bool {
        if !old.ram_on {
            new == old
        } else {
            let i = old.ram_index(a);
            &&& new == MBC1 { ram: new.ram, ram_updated: new.ram_updated, ..old }
            &&& new.ram@ == if i < old.ram@.len() { old.ram@.update(i, v) } else { old.ram@ }
            &&& new.ram_updated == (old.ram_updated || i < old.ram@.len())
        }
    }
}

impl MBC for MBC1 {
    open spec fn wf(&self) -> bool {
        &&& self.rom@.len() >= 0x150
        &&& self.rombank < 0x200
        &&& self.rambank < 4
        &&& self.rombanks <= 512
        &&& self.rambanks <= 16
        &&& self.ram@.len() == self.rambanks * 0x2000
    }

    fn readrom(&self, a: u16) -> (r: u8)
        ensures
            r == self.spec_readrom(a),
    {
        let bank = if a < 0x4000 {
            if self.banking_mode == 0 {
                0
            } else {
                self.rombank & 0xE0
            }
        } else {
            self.rombank
        };
        proof {
            crate::bits::lemma_usize_bits(self.rombank);
            crate::bits::lemma_u16_bits(a);
        }
        get_or(&self.rom, bank * 0x4000 + ((a & 0x3FFF) as usize), 0xFF)
    }

    fn readram(&self, a: u16) -> (r: u8)
        ensures
            r == self.spec_readram(a),
    {
        if !self.ram_on {
            return 0xFF;
        }
        let rambank = if self.banking_mode == 1 { self.rambank } else { 0 };
        proof {
            crate::bits::lemma_u16_bits(a);
        }
        get_or(&self.ram, rambank * 0x2000 + ((a & 0x1FFF) as usize), 0xFF)
    }

    fn writerom(&mut self, a: u16, v: u8)
        ensures
            *final(self) == old(self).spec_writerom(a, v),
    {
        proof {
            crate::bits::lemma_usize_bits(self.rombank);
            crate::bits::lemma_usize_bits(self.rombanks);
            crate::bits::lemma_u8_bits(v);
        }
        if a <= 0x1FFF {
            self.ram_on = v & 0xF == 0xA;
        } else if a <= 0x3FFF {
            let lower_bits: usize = match (v as usize) & 0x1F {
                0 => 1,
                n => n,
            };
            if self.rombanks != 0 {
                self.rombank = ((self.rombank & 0x60) | lower_bits) % self.rombanks;
            }
        } else if a <= 0x5FFF {
            if self.rombanks > 0x20 {
                let upper_bits = (v as usize & 0x03) % (self.rombanks >> 5);
                let nb = self.rombank & 0x1F | (upper_bits << 5);
                proof {
                    let rb = self.rombank;
                    let ub = upper_bits;
                    let rbs = self.rombanks;
                    assert(ub < 16 ==> rb & 0x1F | (ub << 5) < 0x200) by (bit_vector);
                }
                self.rombank = nb;
            }
            if self.rambanks > 1 {
                self.rambank = (v as usize) & 0x03;
            }
        } else {
            self.banking_mode = v & 0x01;
        }
    }

    fn writeram(&mut self, a: u16, v: u8)
        ensures
            MBC1::writeram_post(*old(self), *final(self), a, v),
    {
        if !self.ram_on {
            return;
        }
        let rambank = if self.banking_mode == 1 { self.rambank } else { 0 };
        proof {
            crate::bits::lemma_u16_bits(a);
        }
        let address = rambank * 0x2000 + ((a & 0x1FFF) as usize);
        if address < self.ram.len() {
            self.ram.set(address, v);
            self.ram_updated = true;
        }
    }

    fn check_and_reset_ram_updated(&mut self) -> (r: bool)
        ensures
            r == old(self).ram_updated,
            *final(self) == (MBC1 { ram_updated: false, ..*old(self) }),
    {
        let result = self.ram_updated;
        self.ram_updated = false;
        result
    }

    fn is_battery_backed(&self) -> (r: bool)
        ensures
            r == self.has_battery,
    {
        self.has_battery
    }

    fn loadram(&mut self, ramdata: &[u8]) -> (r: StrResult<()>)
        ensures
            r is Ok <==> ramdata@.len() == old(self).ram@.len(),
            r is Err ==> r == Err::<(), &'static str>("Loaded RAM has incorrect length")
                && *final(self) == *old(self),
            r is Ok ==> *final(self) == (MBC1 { ram: final(self).ram, ..*old(self) })
                && final(self).ram@ == ramdata@,
    {
        if ramdata.len() != self.ram.len() {
            return Err("Loaded RAM has incorrect length");
        }
        self.ram = vstd::slice::slice_to_vec(ramdata);
        Ok(())
    }

    fn dumpram(&self) -> (r: Vec<u8>)
        ensures
            r@ == self.ram@,
    {
        let r = self.ram.clone();
        assert(r@ =~= self.ram@);
        r
    }
}

/// The MBC1 registers: 0x0000 - 0x1FFF enables RAM for a low nibble of 0xA; 0x2000 - 0x3FFF
/// sets the five low bits of the ROM bank (0 selects 1), keeping the two upper bits, the
/// bank wrapping at the number of banks; 0x6000 - 0x7FFF sets the banking mode to bit 0.
/// The switchable area then shows the selected bank.
pub proof fn lemma_mbc1_registers(old: MBC1, a: u16, v: u8, o: u16)
    requires
        o < 0x4000,
    ensures
        a <= 0x1FFF ==> old.spec_writerom(a, v).ram_on == (v % 16 == 10),
        0x2000 <= a <= 0x3FFF && old.rombanks > 0 ==> old.spec_writerom(a, v).rombank == (((old.rombank / 32)
            % 4) * 32 + (if v % 32 == 0 { 1 } else { v % 32 })) % (old.rombanks as int),
        0x6000 <= a ==> old.spec_writerom(a, v).banking_mode == v % 2,
        old.spec_readrom((0x4000 + o) as u16) == byte_or(old.rom@, old.rombank * 0x4000 + o, 0xFF),
{
    crate::bits::lemma_u8_bits(v);
    crate::bits::lemma_u16_bits((0x4000 + o) as u16);
    let lower: usize = if v & 0x1F == 0 { 1 } else { (v & 0x1F) as usize };
    crate::bits::lemma_bank_fields(old.rombank, lower, 0);
}

/// The MBC1 RAM area: with RAM enabled, address `a` reads byte `b * 0x2000 + (a mod 0x2000)`
/// of the RAM, where `b` is the selected RAM bank in banking mode 1 and bank 0 in mode 0;
/// a write there is read back; with RAM disabled it reads 0xFF and writes are ignored.
pub proof fn lemma_mbc1_ram_bank(old: MBC1, new: MBC1, a: u16, v: u8)
    requires
        old.wf(),
        0xA000 <= a <= 0xBFFF,
        MBC1::writeram_post(old, new, a, v),
    ensures
        old.ram_on && old.banking_mode == 1 && old.rambank < old.rambanks ==> old.spec_readram(a)
            == old.ram@[old.rambank * 0x2000 + a % 0x2000] && new.spec_readram(a) == v,
        old.ram_on && old.banking_mode == 0 && old.rambanks > 0 ==> old.spec_readram(a) == old.ram@[(a % 0x2000) as int]
            && new.spec_readram(a) == v,
        !old.ram_on ==> old.spec_readram(a) == 0xFF && new == old,
{
    crate::bits::lemma_u16_bits(a);
}

} // verus!
