use vstd::prelude::*;
use crate::cpu::CPU;
use crate::cpu_cycle::StepError;
use crate::gbmode::GbMode;
use crate::keypad::{Keypad, KeypadKey};
use crate::mbc::{get_mbc, mbc_error, Cartridge, MBC};
use crate::mmu::{classic_refusal, mode_for_header, MMU};
use crate::printer::GbPrinter;
use crate::serial::{Serial, SerialCallback};
use crate::StrResult;

verus! {

/// A Game Boy around a cartridge: what a front end drives. It steps the machine, hands on
/// key presses, and gives access to the screen, the game title and the save RAM.
pub struct Device<C> {
    pub cpu: CPU<C>,
}

impl<C: SerialCallback> Device<C> {
    pub open spec fn wf(&self) -> bool {
        self.cpu.wf()
    }

    /// The device with only the memory map replaced.
    pub open spec fn with_mmu(self, m: MMU<C>) -> Device<C> {
        Device { cpu: CPU { mmu: m, ..self.cpu } }
    }

    /// A classic Game Boy around the cartridge that the ROM image asks for, with nothing on
    /// the link cable. A ROM image that makes no cartridge (see `mbc_error`) and a game for
    /// the colour model only are refused.
    pub fn new_from_buffer(romdata: Vec<u8>, skip_checksum: bool) -> (r: StrResult<Device<C>>)
        ensures
            match mbc_error(romdata@, skip_checksum) {
                Some(e) => r == Err::<Device<C>, &'static str>(e),
                None => if romdata@[0x143] == 0xC0 {
                    r == Err::<Device<C>, &'static str>(classic_refusal())
                } else {
                    r matches Ok(d) && d.wf() && d.cpu.mmu.mbc.is_new(romdata@) && d.cpu.mmu.boot_state()
                        && d.cpu.mmu.gbmode == GbMode::Classic && d.cpu.mmu.serial.callback is None
                        && d.cpu.reg.boot_state(0x01) && !d.cpu.halted && d.cpu.ime && d.cpu.setdi == 0
                        && d.cpu.setei == 0
                },
            },
    {
        let ghost data = romdata@;
        let cart = match get_mbc(romdata, skip_checksum) {
            Ok(c) => c,
            Err(e) => {
                return Err(e);
            },
        };
        assert(cart.spec_readrom(0x0143) == data[0x143]);
        match CPU::new(cart, None) {
            Ok(cpu) => Ok(Device { cpu }),
            Err(e) => Err(e),
        }
    }

    /// A Game Boy Color around the cartridge that the ROM image asks for, with nothing on
    /// the link cable; the header decides whether the game runs in colour (see
    /// `mode_for_header`). A ROM image that makes no cartridge is refused.
    pub fn new_cgb_from_buffer(romdata: Vec<u8>, skip_checksum: bool) -> (r: StrResult<Device<C>>)
        ensures
            match mbc_error(romdata@, skip_checksum) {
                Some(e) => r == Err::<Device<C>, &'static str>(e),
                None => r matches Ok(d) && d.wf() && d.cpu.mmu.mbc.is_new(romdata@) && d.cpu.mmu.boot_state()
                    && d.cpu.mmu.gbmode == mode_for_header(romdata@[0x143]) && d.cpu.mmu.serial.callback is None
                    && d.cpu.reg.boot_state(0x11) && !d.cpu.halted && d.cpu.ime && d.cpu.setdi == 0
                    && d.cpu.setei == 0,
            },
    {
        let ghost data = romdata@;
        let cart = match get_mbc(romdata, skip_checksum) {
            Ok(c) => c,
            Err(e) => {
                return Err(e);
            },
        };
        assert(cart.spec_readrom(0x0143) == data[0x143]);
        match CPU::new_cgb(cart, None) {
            Ok(cpu) => Ok(Device { cpu }),
            Err(e) => Err(e),
        }
    }

    /// Whether the next step can run; see `CPU::check_step`.
    pub fn check_step(&self) -> (r: Result<(), StepError>)
        requires
            self.wf(),
        ensures
            r is Ok <==> CPU::can_step(self.cpu),
            r == Err::<(), StepError>(StepError::InvalidInterrupt) <==> (CPU::services_irq(
                CPU::ime_updated(self.cpu),
            ) && CPU::triggered(CPU::ime_updated(self.cpu)) & 0x1F == 0),
            r matches Err(StepError::Unimplemented(op)) ==> op == self.cpu.mmu.spec_rb(self.cpu.reg.pc),
    {
        self.cpu.check_step()
    }

    /// Runs one step of the processor and the devices; returns the ticks at the current
    /// speed (see `CPU::do_cycle_post`).
    pub fn do_cycle(&mut self) -> (r: u32)
        requires
            old(self).wf(),
            CPU::can_step(old(self).cpu),
        ensures
            final(self).wf(),
            CPU::do_cycle_post(old(self).cpu, final(self).cpu, r),
    {
        self.cpu.do_cycle()
    }

    /// Connects `cb` to the link cable.
    pub fn set_serial_callback(&mut self, cb: C)
        requires
            old(self).wf(),
        ensures
            final(self).wf(),
            *final(self) == old(self).with_mmu(
                MMU { serial: Serial { callback: Some(cb), ..old(self).cpu.mmu.serial }, ..old(self).cpu.mmu },
            ),
    {
        self.cpu.mmu.serial.set_callback(cb);
    }

    /// Disconnects the link cable.
    pub fn unset_serial_callback(&mut self)
        requires
            old(self).wf(),
        ensures
            final(self).wf(),
            *final(self) == old(self).with_mmu(
                MMU { serial: Serial { callback: None, ..old(self).cpu.mmu.serial }, ..old(self).cpu.mmu },
            ),
    {
        self.cpu.mmu.serial.unset_callback();
    }

    /// Whether a frame was completed since the last call; clears the mark.
    #[verifier::spinoff_prover]
    #[verifier::rlimit(40)]
    pub fn check_and_reset_gpu_updated(&mut self) -> (r: bool)
        requires
            old(self).wf(),
        ensures
            final(self).wf(),
            r == old(self).cpu.mmu.gpu.updated,
            *final(self) == old(self).with_mmu(MMU { gpu: final(self).cpu.mmu.gpu, ..old(self).cpu.mmu }),
            final(self).cpu.mmu.gpu == (crate::gpu::GPU { updated: false, ..old(self).cpu.mmu.gpu }),
    {
        self.cpu.mmu.gpu.check_and_reset_updated()
    }

    /// The screen: three bytes (red, green, blue) per pixel, row after row.
    pub fn get_gpu_data(&self) -> (r: &[u8])
        ensures
            r@ == self.cpu.mmu.gpu.data@,
    {
        self.cpu.mmu.gpu.data.as_slice()
    }

    /// Releases a key; see `Keypad::keyup_post`.
    pub fn keyup(&mut self, key: KeypadKey)
        requires
            old(self).wf(),
        ensures
            final(self).wf(),
            *final(self) == old(self).with_mmu(MMU { keypad: final(self).cpu.mmu.keypad, ..old(self).cpu.mmu }),
            Keypad::keyup_post(old(self).cpu.mmu.keypad, final(self).cpu.mmu.keypad, key),
    {
        self.cpu.mmu.keypad.keyup(key);
    }

    /// Presses a key; see `Keypad::keydown_post`.
    pub fn keydown(&mut self, key: KeypadKey)
        requires
            old(self).wf(),
        ensures
            final(self).wf(),
            *final(self) == old(self).with_mmu(MMU { keypad: final(self).cpu.mmu.keypad, ..old(self).cpu.mmu }),
            Keypad::keydown_post(old(self).cpu.mmu.keypad, final(self).cpu.mmu.keypad, key),
    {
        self.cpu.mmu.keypad.keydown(key);
    }

    /// The game title from the cartridge header.
    pub fn romname(&self) -> (r: String)
        requires
            self.wf(),
        ensures
            r@ == self.cpu.mmu.mbc.spec_title(),
    {
        self.cpu.mmu.mbc.romname()
    }

    /// Loads a save file into the cartridge RAM; see `Cartridge::loadram`.
    pub fn loadram(&mut self, ramdata: &[u8]) -> (r: StrResult<()>)
        requires
            old(self).wf(),
        ensures
            final(self).wf(),
            *final(self) == old(self).with_mmu(MMU { mbc: final(self).cpu.mmu.mbc, ..old(self).cpu.mmu }),
            r is Ok <==> ramdata@.len() == old(self).cpu.mmu.mbc.save_len(),
            r is Ok ==> Cartridge::loaded_post(old(self).cpu.mmu.mbc, final(self).cpu.mmu.mbc, ramdata@),
            r is Err ==> *final(self) == *old(self) && r == Err::<(), &'static str>(
                old(self).cpu.mmu.mbc.load_error(),
            ),
    {
        self.cpu.mmu.mbc.loadram(ramdata)
    }

    /// The save file of the cartridge RAM; see `Cartridge::dumpram`.
    pub fn dumpram(&self) -> (r: Vec<u8>)
        requires
            self.wf(),
        ensures
            r@ == self.cpu.mmu.mbc.spec_dumpram(),
    {
        self.cpu.mmu.mbc.dumpram()
    }

    /// Whether the cartridge keeps its RAM on a battery.
    pub fn ram_is_battery_backed(&self) -> (r: bool)
        requires
            self.wf(),
        ensures
            r == self.cpu.mmu.mbc.spec_battery(),
    {
        self.cpu.mmu.mbc.is_battery_backed()
    }

    /// Whether the cartridge RAM was written since the last call; clears the mark.
    pub fn check_and_reset_ram_updated(&mut self) -> (r: bool)
        requires
            old(self).wf(),
        ensures
            final(self).wf(),
            *final(self) == old(self).with_mmu(MMU { mbc: final(self).cpu.mmu.mbc, ..old(self).cpu.mmu }),
            r == old(self).cpu.mmu.mbc.spec_ram_updated(),
            !final(self).cpu.mmu.mbc.spec_ram_updated(),
    {
        self.cpu.mmu.mbc.check_and_reset_ram_updated()
    }
}

impl Device<GbPrinter> {
    /// Connects a fresh Game Boy Printer to the link cable.
    pub fn attach_printer(&mut self)
        requires
            old(self).wf(),
        ensures
            final(self).wf(),
            *final(self) == old(self).with_mmu(
                MMU {
                    serial: Serial { callback: final(self).cpu.mmu.serial.callback, ..old(self).cpu.mmu.serial },
                    ..old(self).cpu.mmu
                },
            ),
            final(self).cpu.mmu.serial.callback matches Some(p) && p.wf() && p@ == GbPrinter::fresh_view(),
    {
        let printer = GbPrinter::new();
        self.cpu.mmu.serial.set_callback(printer);
    }
}

} // verus!
