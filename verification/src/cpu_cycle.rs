use vstd::prelude::*;
use crate::cpu::CPU;
use crate::gbmode::GbMode;
use crate::isa::is_unimplemented;
use crate::mbc::{Cartridge, MBC};
use crate::mmu::{MMU, classic_refusal, clear_of_word, mode_for_header};
use crate::register::Registers;
use crate::serial::SerialCallback;
use crate::StrResult;

verus! {

/// The interrupt (0 V-blank, 1 LCD status, 2 timer, 3 serial, 4 joypad) that a set of
/// requested and enabled interrupts `t` selects: the lowest bit set; 5 where none of the
/// five is set.
pub open spec fn irq_index(t: u8) -> u8 {
    if t & 0x01 != 0 {
        0
    } else if t & 0x02 != 0 {
        1
    } else if t & 0x04 != 0 {
        2
    } else if t & 0x08 != 0 {
        3
    } else if t & 0x10 != 0 {
        4
    } else {
        5
    }
}

/// Why the processor cannot take its next step.
#[derive(PartialEq, Eq, Structural, Clone, Copy, Debug)]
pub enum StepError {
    /// An enabled and requested interrupt lies outside the five that exist.
    InvalidInterrupt,
    /// The opcode to execute is not one of the instruction set.
    Unimplemented(u8),
}

impl<C: SerialCallback> CPU<C> {
    /// The CPU after the pending DI and EI countdowns advanced by one instruction: a
    /// countdown of 1 takes effect now.
    pub open spec fn ime_updated(s: CPU<C>) -> CPU<C> {
        let ime1 = if s.setdi == 1 { false } else { s.ime };
        let ime2 = if s.setei == 1 { true } else { ime1 };
        CPU {
            setdi: if s.setdi == 2 { 1 } else { 0 },
            setei: if s.setei == 2 { 1 } else { 0 },
            ime: ime2,
            ..s
        }
    }

    /// The interrupts both requested and enabled.
    pub open spec fn triggered(s: CPU<C>) -> u8 {
        s.mmu.inte & s.mmu.intf
    }

    /// Whether an interrupt is serviced on this step (see `ime_updated`).
    pub open spec fn services_irq(s: CPU<C>) -> bool {
        s.ime && CPU::triggered(s) != 0
    }

    /// The CPU after a requested interrupt woke it from HALT without being serviced.
    pub open spec fn woken(s: CPU<C>) -> CPU<C> {
        if (s.ime || s.halted) && CPU::triggered(s) != 0 {
            CPU { halted: false, ..s }
        } else {
            s
        }
    }

    /// The state from which the instruction at PC runs, after its opcode byte was fetched.
    pub open spec fn fetched(s: CPU<C>) -> CPU<C> {
        s.with_reg(CPU::<C>::at_pc(s.reg, s.reg.pc + 1))
    }

    /// Whether the processor can take its next step: no interrupt outside the five is
    /// serviced, and an instruction that is to run exists.
    pub open spec fn can_step(old: CPU<C>) -> bool {
        let s = CPU::ime_updated(old);
        if CPU::services_irq(s) {
            CPU::triggered(s) & 0x1F != 0
        } else {
            let w = CPU::woken(s);
            w.halted || !is_unimplemented(w.mmu.spec_rb(w.reg.pc))
        }
    }

    /// One step of the processor, in machine cycles: the DI/EI countdowns advance; then an
    /// enabled and requested interrupt is serviced (4 cycles: the lowest one is cleared,
    /// interrupts are disabled, PC is pushed and set to 0x40 + 8n); else a halted processor
    /// idles (1 cycle) unless an interrupt is requested; else the instruction at PC runs.
    pub open spec fn docycle_post(old: CPU<C>, new: CPU<C>, cycles: u32) -> bool {
        let s = CPU::ime_updated(old);
        if CPU::services_irq(s) {
            let n = irq_index(CPU::triggered(s));
            let s2 = CPU {
                halted: false,
                ime: false,
                mmu: MMU { intf: s.mmu.intf & !(1u8 << n), ..s.mmu },
                ..s
            };
            &&& cycles == 4
            &&& CPU::push_post(s2, new, Registers { pc: (0x0040u16 | ((n as u16) << 3u16)), ..s2.reg }, s2.reg.pc)
        } else {
            let w = CPU::woken(s);
            if w.halted {
                new == w && cycles == 1
            } else {
                CPU::op_post(w.mmu.spec_rb(w.reg.pc), CPU::fetched(w), new, cycles)
            }
        }
    }

    /// Advances the DI and EI countdowns; see `ime_updated`.
    pub fn updateime(&mut self)
        ensures
            *final(self) == CPU::ime_updated(*old(self)),
    {
        self.setdi = match self.setdi {
            2 => 1,
            1 => {
                self.ime = false;
                0
            },
            _ => 0,
        };
        self.setei = match self.setei {
            2 => 1,
            1 => {
                self.ime = true;
                0
            },
            _ => 0,
        };
    }

    /// Services a requested and enabled interrupt, or wakes the processor from HALT;
    /// returns the machine cycles taken (4 when an interrupt was serviced, else 0).
    pub fn handleinterrupt(&mut self) -> (cycles: u32)
        requires
            old(self).wf(),
            CPU::services_irq(*old(self)) ==> CPU::triggered(*old(self)) & 0x1F != 0,
        ensures
            final(self).wf(),
            CPU::services_irq(*old(self)) ==> cycles == 4 && CPU::push_post(
                CPU {
                    halted: false,
                    ime: false,
                    mmu: MMU {
                        intf: old(self).mmu.intf & !(1u8 << irq_index(CPU::triggered(*old(self)))),
                        ..old(self).mmu
                    },
                    ..*old(self)
                },
                *final(self),
                Registers {
                    pc: (0x0040u16 | ((irq_index(CPU::triggered(*old(self))) as u16) << 3u16)),
                    ..old(self).reg
                },
                old(self).reg.pc,
            ),
            !CPU::services_irq(*old(self)) ==> cycles == 0 && *final(self) == CPU::woken(*old(self)),
    {
        if self.ime == false && self.halted == false {
            return 0;
        }
        let triggered = self.mmu.inte & self.mmu.intf;
        if triggered == 0 {
            return 0;
        }
        self.halted = false;
        if self.ime == false {
            return 0;
        }
        self.ime = false;
        let n: u8 = if triggered & 0x01 != 0 {
            0
        } else if triggered & 0x02 != 0 {
            1
        } else if triggered & 0x04 != 0 {
            2
        } else if triggered & 0x08 != 0 {
            3
        } else {
            4
        };
        assert(triggered & 0x1F != 0 && triggered & 0x01 == 0 && triggered & 0x02 == 0 && triggered & 0x04 == 0
            && triggered & 0x08 == 0 ==> triggered & 0x10 != 0) by (bit_vector);
        assert(n == irq_index(triggered));
        self.mmu.intf &= !(1u8 << n);
        let pc = self.reg.pc;
        self.pushstack(pc);
        self.reg.pc = 0x0040u16 | ((n as u16) << 3u16);
        4
    }

    /// Runs one step; see `docycle_post`.
    pub fn docycle(&mut self) -> (cycles: u32)
        requires
            old(self).wf(),
            CPU::can_step(*old(self)),
        ensures
            final(self).wf(),
            CPU::docycle_post(*old(self), *final(self), cycles),
    {
        self.updateime();
        match self.handleinterrupt() {
            0 => {},
            n => return n,
        };
        if self.halted {
            1
        } else {
            self.call()
        }
    }

    /// No instruction takes more than 6 machine cycles.
    pub proof fn lemma_op_cycles(op: u8, s: CPU<C>, new: CPU<C>, c: u32)
        requires
            CPU::op_post(op, s, new, c),
        ensures
            c <= 6,
    {
        if crate::isa::op_x(op) == 0 {
            assert(c <= 6);
        } else if crate::isa::op_x(op) == 1 {
            assert(c <= 6);
        } else if crate::isa::op_x(op) == 2 {
            assert(c <= 6);
        } else if op == 0xCB {
            assert(c <= 6);
        } else {
            assert(c <= 6);
        }
    }

    /// One step of the processor and of the devices attached to its memory, returning the
    /// ticks at the current speed: the step's machine cycles, four ticks each, run the
    /// devices (see `MMU::do_cycle_post`).
    pub open spec fn do_cycle_post(old: CPU<C>, new: CPU<C>, r: u32) -> bool {
        exists|mid: CPU<C>, c: u32|
            #![trigger CPU::docycle_post(old, mid, c)]
            {
                &&& CPU::docycle_post(old, mid, c)
                &&& c <= 6
                &&& new == (CPU { mmu: new.mmu, ..mid })
                &&& MMU::do_cycle_post(mid.mmu, new.mmu, (c * 4) as u32, r)
            }
    }

    /// Runs one step of the processor and the devices; see `do_cycle_post`.
    pub fn do_cycle(&mut self) -> (r: u32)
        requires
            old(self).wf(),
            CPU::can_step(*old(self)),
        ensures
            final(self).wf(),
            CPU::do_cycle_post(*old(self), *final(self), r),
    {
        let c = self.docycle();
        let ghost mid = *self;
        proof {
            let s = CPU::ime_updated(*old(self));
            if !CPU::services_irq(s) && !CPU::woken(s).halted {
                let w = CPU::woken(s);
                CPU::lemma_op_cycles(w.mmu.spec_rb(w.reg.pc), CPU::fetched(w), mid, c);
            }
        }
        let ticks = c * 4;
        let r = self.mmu.do_cycle(ticks);
        assert(CPU::docycle_post(*old(self), mid, c));
        r
    }

    /// Whether the next step can run, and if not, why.
    pub fn check_step(&self) -> (r: Result<(), StepError>)
        requires
            self.wf(),
        ensures
            r is Ok <==> CPU::can_step(*self),
            r == Err::<(), StepError>(StepError::InvalidInterrupt) <==> (CPU::services_irq(CPU::ime_updated(*self))
                && CPU::triggered(CPU::ime_updated(*self)) & 0x1F == 0),
            r matches Err(StepError::Unimplemented(op)) ==> op == self.mmu.spec_rb(self.reg.pc),
    {
        let ime = if self.setei == 1 {
            true
        } else if self.setdi == 1 {
            false
        } else {
            self.ime
        };
        let triggered = self.mmu.inte & self.mmu.intf;
        if ime && triggered != 0 {
            if triggered & 0x1F == 0 {
                return Err(StepError::InvalidInterrupt);
            }
            return Ok(());
        }
        let halted = if triggered != 0 { false } else { self.halted };
        if halted {
            return Ok(());
        }
        let op = self.mmu.rb(self.reg.pc);
        if op == 0xD3 || op == 0xDB || op == 0xDD || op == 0xE3 || op == 0xE4 || op == 0xEB || op == 0xEC
            || op == 0xED || op == 0xF4 || op == 0xFC || op == 0xFD {
            Err(StepError::Unimplemented(op))
        } else {
            Ok(())
        }
    }

    /// A classic Game Boy around a cartridge, its serial port connected to
    /// `serial_callback` where one is given. A game for the colour model only is refused.
    pub fn new(cart: Cartridge, serial_callback: Option<C>) -> (r: StrResult<CPU<C>>)
        requires
            cart.wf(),
        ensures
            cart.spec_readrom(0x0143) == 0xC0 ==> r == Err::<CPU<C>, &'static str>(classic_refusal()),
            cart.spec_readrom(0x0143) != 0xC0 ==> (r matches Ok(cpu) && cpu.wf() && cpu.mmu.boot_state()
                && cpu.mmu.mbc == cart && cpu.mmu.gbmode == GbMode::Classic && cpu.mmu.serial.callback
                == serial_callback && cpu.reg.boot_state(0x01) && !cpu.halted && cpu.ime && cpu.setdi == 0
                && cpu.setei == 0),
    {
        let cpu_mmu = MMU::new(cart, serial_callback)?;
        let registers = Registers::new();
        Ok(CPU { reg: registers, halted: false, ime: true, setdi: 0, setei: 0, mmu: cpu_mmu })
    }

    /// A Game Boy Color around a cartridge, running it as a colour game or as a classic one
    /// as its header says (see `mode_for_header`).
    pub fn new_cgb(cart: Cartridge, serial_callback: Option<C>) -> (r: StrResult<CPU<C>>)
        requires
            cart.wf(),
        ensures
            (r matches Ok(cpu) && cpu.wf() && cpu.mmu.boot_state() && cpu.mmu.mbc == cart && cpu.mmu.gbmode
                == mode_for_header(cart.spec_readrom(0x0143)) && cpu.mmu.serial.callback == serial_callback
                && cpu.reg.boot_state(0x11) && !cpu.halted && cpu.ime && cpu.setdi == 0 && cpu.setei == 0),
    {
        let cpu_mmu = MMU::new_cgb(cart, serial_callback)?;
        let registers = Registers::new_cgb();
        Ok(CPU { reg: registers, halted: false, ime: true, setdi: 0, setei: 0, mmu: cpu_mmu })
    }
}

/// CALL followed by RET returns: a CALL at `pc`, with the stack in work RAM, jumps to its
/// operand and pushes `pc + 3`; a RET at the target pops it again. The operand and the RET
/// must not be overwritten by the push (see `clear_of_word`). Both instructions leave every
/// register but PC (and SP in between) as it was, flags included.
pub proof fn lemma_call_ret<C: SerialCallback>(s0: CPU<C>, s1: CPU<C>, c1: u32, s2: CPU<C>, c2: u32)
    requires
        s0.wf(),
        s0.reg.pc <= 0xFFFC,
        0xC002 <= s0.reg.sp <= 0xFE00,
        s0.mmu.spec_rb(s0.reg.pc) == 0xCD,
        clear_of_word(s0.mmu, (s0.reg.sp - 2) as u16, (s0.reg.pc + 1) as u16),
        clear_of_word(s0.mmu, (s0.reg.sp - 2) as u16, (s0.reg.pc + 2) as u16),
        clear_of_word(s0.mmu, (s0.reg.sp - 2) as u16, s0.mmu.spec_rw((s0.reg.pc + 1) as u16)),
        s0.mmu.spec_rb(s0.mmu.spec_rw((s0.reg.pc + 1) as u16)) == 0xC9,
        CPU::op_post(0xCD, s0.with_reg(CPU::<C>::at_pc(s0.reg, s0.reg.pc + 1)), s1, c1),
        CPU::op_post(
            s1.mmu.spec_rb(s1.reg.pc),
            s1.with_reg(CPU::<C>::at_pc(s1.reg, s1.reg.pc + 1)),
            s2,
            c2,
        ),
    ensures
        s1.reg == (Registers {
            pc: s0.mmu.spec_rw((s0.reg.pc + 1) as u16),
            sp: (s0.reg.sp - 2) as u16,
            ..s0.reg
        }),
        s1.mmu.spec_rw((s0.reg.sp - 2) as u16) == s0.reg.pc + 3,
        c1 == 6,
        s1.mmu.spec_rb(s1.reg.pc) == 0xC9,
        s2.reg == (Registers { pc: (s0.reg.pc + 3) as u16, ..s0.reg }),
        c2 == 4,
{
    let p = s0.reg.pc;
    let sp = s0.reg.sp;
    let s = s0.with_reg(CPU::<C>::at_pc(s0.reg, p + 1));
    let nsp = crate::register::wrap16(sp + 65534);
    assert(nsp == sp - 2);
    crate::mmu::lemma_wram_word_write_read(s.mmu, s1.mmu, nsp, crate::register::wrap16(p + 3));
    assert(s1.mmu.spec_rb((p + 1) as u16) == s0.mmu.spec_rb((p + 1) as u16));
    assert(s1.mmu.spec_rb((p + 2) as u16) == s0.mmu.spec_rb((p + 2) as u16));
    assert(crate::mmu::next_addr((p + 1) as u16) == p + 2);
    let nn = s0.mmu.spec_rw((p + 1) as u16);
    assert(s1.mmu.spec_rb(nn) == 0xC9);
    assert(crate::mmu::next_addr(nsp) == sp - 1);
}

} // verus!
