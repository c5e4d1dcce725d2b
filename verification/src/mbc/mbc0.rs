use vstd::prelude::*;
use crate::mbc::{byte_or, get_or, MBC};
use crate::StrResult;

verus! {

/// A cartridge without a bank controller: up to 32 KiB of ROM and no RAM.
pub struct MBC0 {
    pub rom: Vec<u8>,
}

impl MBC0 {
    /// The controller as `new` makes it from a ROM image.
    pub open spec fn is_new(&self, data: Seq<u8>) -> bool {
        self.rom@ == data
    }

    pub fn new(data: Vec<u8>) -> (r: StrResult<MBC0>)
        ensures
            r matches Ok(m) && m.is_new(data@),
    {
        Ok(MBC0 { rom: data })
    }

    /// ROM is read directly; past the end of the image it reads 0xFF.
    pub open spec fn spec_readrom(&self, a: u16) -> u8 {
        byte_or(self.rom@, a as int, 0xFF)
    }

    pub open spec fn spec_readram(&self, a: u16) -> u8 {
        0
    }
}

impl MBC for MBC0 {
    open spec fn wf(&self) -> bool {
        self.rom@.len() >= 0x150
    }

    fn readrom(&self, a: u16) -> (r: u8)
        ensures
            r == self.spec_readrom(a),
    {
        get_or(&self.rom, a as usize, 0xFF)
    }

    fn readram(&self, _a: u16) -> (r: u8)
        ensures
            r == 0,
    {
        0
    }

    fn writerom(&mut self, _a: u16, _v: u8)
        ensures
            *final(self) == *old(self),
    {
    }

    fn writeram(&mut self, _a: u16, _v: u8)
        ensures
            *final(self) == *old(self),
    {
    }

    fn check_and_reset_ram_updated(&mut self) -> (r: bool)
        ensures
            !r,
            *final(self) == *old(self),
    {
        false
    }

    fn is_battery_backed(&self) -> (r: bool)
        ensures
            !r,
    {
        false
    }

    fn loadram(&mut self, ramdata: &[u8]) -> (r: StrResult<()>)
        ensures
            r is Ok <==> ramdata@.len() == 0,
            r is Ok ==> ramdata@ == Seq::<u8>::empty(),
            r is Err ==> r == Err::<(), &'static str>("Loaded RAM has incorrect length"),
            *final(self) == *old(self),
    {
        if ramdata.len() != 0 {
            return Err("Loaded RAM has incorrect length");
        }
        assert(ramdata@ =~= Seq::<u8>::empty());
        Ok(())
    }

    fn dumpram(&self) -> (r: Vec<u8>)
        ensures
            r@ == Seq::<u8>::empty(),
    {
        Vec::new()
    }
}

} // verus!
