use vstd::prelude::*;
use crate::gbmode::{GbMode, GbSpeed};
use crate::gpu::{GPU, booted, mono_shade, power_on};
use crate::keypad::{Keypad, joypad_value};
use crate::mbc::{Cartridge, MBC};
use crate::register::pair;
use crate::render::cycle_post;
use crate::serial::{Serial, SerialCallback};
use crate::sound::Sound;
use crate::timer::Timer;
use crate::StrResult;

verus! {

pub const WRAM_SIZE: usize = 0x8000;
pub const ZRAM_SIZE: usize = 0x7F;

/// The kind of VRAM DMA transfer in progress.
#[derive(PartialEq, Eq, Structural, Clone, Copy, Debug)]
pub enum DMAType {
    NoDMA,
    GDMA,
    HDMA,
}

/// The memory map: it routes each address of the 16-bit bus to the cartridge, the work
/// RAM, the high RAM or one of the devices, and runs the DMA transfers.
pub struct MMU<C> {
    pub wram: Vec<u8>,
    pub zram: Vec<u8>,
    pub hdma: Vec<u8>,
    pub inte: u8,
    pub intf: u8,
    pub serial: Serial<C>,
    pub timer: Timer,
    pub keypad: Keypad,
    pub gpu: GPU,
    pub sound: Sound,
    pub hdma_status: DMAType,
    pub hdma_src: u16,
    pub hdma_dst: u16,
    pub hdma_len: u8,
    pub wrambank: usize,
    pub mbc: Cartridge,
    pub gbmode: GbMode,
    pub gbspeed: GbSpeed,
    pub speed_switch_req: bool,
}

/// The wrapped successor of an address.
pub open spec fn next_addr(a: u16) -> u16 {
    ((a as int + 1) % 65536) as u16
}

/// The bank that a write of `v` to 0xFF70 selects for 0xD000 - 0xDFFF: 1 to 7, where 0 means 1.
pub open spec fn wram_bank_of(v: u8) -> usize {
    if v & 0x7 == 0 {
        1
    } else {
        (v & 0x7) as usize
    }
}

/// Whether an HDMA source address is one that the hardware can copy from.
pub open spec fn legal_hdma_src(src: u16) -> bool {
    src <= 0x7FF0 || (0xA000 <= src <= 0xDFF0)
}

/// The timer as the boot values leave it: stopped, every register zero.
pub open spec fn timer_reset(t: Timer) -> bool {
    t == Timer {
        divider: 0,
        counter: 0,
        modulo: 0,
        enabled: false,
        step: 1024,
        internalcnt: 0,
        internaldiv: 0,
        interrupt: 0,
    }
}

/// The message with which the classic model refuses a game made for the colour model only.
pub open spec fn classic_refusal() -> &'static str {
    "This game does not work in Classic mode"
}

/// The model that a cartridge header byte 0x143 selects on the colour hardware: bit 7 marks
/// a game that uses the colour features.
pub open spec fn mode_for_header(cgb_flag: u8) -> GbMode {
    if cgb_flag & 0x80 == 0x80 {
        GbMode::Color
    } else {
        GbMode::ColorAsClassic
    }
}

/// Video memory after the first `k` bytes of `bytes` were written from `dst` on, through
/// VRAM bank `bank`; a byte whose address falls outside 0x8000 - 0x9FFF is dropped.
pub open spec fn row_write(vram: Seq<u8>, bank: u16, dst: u16, bytes: Seq<u8>, k: int) -> Seq<u8>
    decreases k,
{
    if k <= 0 {
        vram
    } else {
        let prev = row_write(vram, bank, dst, bytes, k - 1);
        let a = ((dst + k - 1) % 0x10000) as u16;
        if 0x8000 <= a <= 0x9FFF {
            prev.update(bank * 0x2000 + (a & 0x1FFF), bytes[k - 1])
        } else {
            prev
        }
    }
}

/// The sound unit after `cycles` ticks: its frame clock advances while it is on.
pub open spec fn sound_cycled(s: Sound, cycles: u32) -> Sound {
    if !s.on {
        s
    } else {
        Sound { time: ((s.time + cycles) % 0x10000) as u32, ..s }
    }
}

impl<C: SerialCallback> MMU<C> {
    pub open spec fn wf(&self) -> bool {
        self.wf_base() && self.dma_wf()
    }

    /// The sizes and ranges that every part of the memory map keeps.
    pub open spec fn wf_base(&self) -> bool {
        &&& self.wram@.len() == WRAM_SIZE
        &&& self.zram@.len() == ZRAM_SIZE
        &&& self.hdma@.len() == 4
        &&& 1 <= self.wrambank <= 7
        &&& self.timer.wf()
        &&& self.keypad.wf()
        &&& self.gpu.wf()
        &&& self.sound.wf()
        &&& self.mbc.wf()
    }

    /// A VRAM DMA transfer in progress has at most 128 rows left, and its source stays
    /// below 0xE800 to the end.
    pub open spec fn dma_wf(&self) -> bool {
        self.hdma_status != DMAType::NoDMA ==> self.hdma_len <= 0x7F && self.hdma_src as int + 16 * (
        self.hdma_len as int + 1) <= 0xE800
    }

    /// The memory map right after it was built and the boot values were written: cleared
    /// RAM, no interrupt, no DMA, normal speed, the devices at their reset values.
    pub open spec fn boot_state(&self) -> bool {
        &&& self.wram@ == Seq::new(WRAM_SIZE as nat, |i: int| 0u8)
        &&& self.zram@ == Seq::new(ZRAM_SIZE as nat, |i: int| 0u8)
        &&& self.hdma@ == seq![0u8, 0, 0, 0]
        &&& self.wrambank == 1
        &&& self.inte == 0
        &&& self.intf == 0
        &&& self.serial.data == 0
        &&& self.serial.control == 0
        &&& self.serial.interrupt == 0
        &&& timer_reset(self.timer)
        &&& self.keypad == (Keypad { row0: 0x0F, row1: 0x0F, data: 0, interrupt: 0 })
        &&& booted(self.gpu)
        &&& self.gpu.gbmode == self.gbmode
        &&& !self.sound.on
        &&& self.sound.registerdata@ == Seq::new(crate::sound::SOUND_REGS as nat, |i: int| 0u8)
        &&& self.sound.time == 0
        &&& self.hdma_status == DMAType::NoDMA
        &&& self.hdma_src == 0
        &&& self.hdma_dst == 0
        &&& self.hdma_len == 0xFF
        &&& self.gbspeed == GbSpeed::Single
        &&& !self.speed_switch_req
    }

    /// Builds the memory map around a cartridge, with the serial port connected to
    /// `serial_callback` where one is given.
    fn build(cart: Cartridge, serial_callback: Option<C>, gbmode: GbMode) -> (r: MMU<C>)
        requires
            cart.wf(),
        ensures
            r.wf(),
            r.mbc == cart,
            r.gbmode == gbmode,
            r.serial.callback == serial_callback,
            r.wram@ == Seq::new(WRAM_SIZE as nat, |i: int| 0u8),
            r.zram@ == Seq::new(ZRAM_SIZE as nat, |i: int| 0u8),
            r.hdma@ == seq![0u8, 0, 0, 0],
            r.wrambank == 1,
            r.inte == 0,
            r.intf == 0,
            r.serial.data == 0,
            r.serial.control == 0,
            r.serial.interrupt == 0,
            timer_reset(r.timer),
            r.keypad == (Keypad { row0: 0x0F, row1: 0x0F, data: 0, interrupt: 0 }),
            power_on(r.gpu),
            !r.sound.on,
            r.sound.registerdata@ == Seq::new(crate::sound::SOUND_REGS as nat, |i: int| 0u8),
            r.sound.time == 0,
            r.hdma_status == DMAType::NoDMA,
            r.hdma_src == 0,
            r.hdma_dst == 0,
            r.hdma_len == 0xFF,
            r.gbspeed == GbSpeed::Single,
            !r.speed_switch_req,
    {
        let serial = match serial_callback {
            Some(cb) => Serial::new_with_callback(cb),
            None => Serial::new(),
        };
        let r = MMU {
            wram: vec![0u8; WRAM_SIZE],
            zram: vec![0u8; ZRAM_SIZE],
            hdma: vec![0u8, 0, 0, 0],
            wrambank: 1,
            inte: 0,
            intf: 0,
            serial,
            timer: Timer::new(),
            keypad: Keypad::new(),
            gpu: GPU::new(),
            sound: Sound::new(),
            mbc: cart,
            gbmode,
            gbspeed: GbSpeed::Single,
            speed_switch_req: false,
            hdma_src: 0,
            hdma_dst: 0,
            hdma_status: DMAType::NoDMA,
            hdma_len: 0xFF,
        };
        assert(r.wram@ =~= Seq::new(WRAM_SIZE as nat, |i: int| 0u8));
        assert(r.zram@ =~= Seq::new(ZRAM_SIZE as nat, |i: int| 0u8));
        assert(r.hdma@ =~= seq![0u8, 0, 0, 0]);
        r
    }

    /// The memory map of the classic model. A game made for the colour model only (header
    /// byte 0x143 equal to 0xC0) is refused.
    pub fn new(cart: Cartridge, serial_callback: Option<C>) -> (r: StrResult<MMU<C>>)
        requires
            cart.wf(),
        ensures
            cart.spec_readrom(0x0143) == 0xC0 ==> r == Err::<MMU<C>, &'static str>(classic_refusal()),
            cart.spec_readrom(0x0143) != 0xC0 ==> (r matches Ok(m) && m.wf() && m.boot_state() && m.mbc
                == cart && m.gbmode == GbMode::Classic && m.serial.callback == serial_callback),
    {
        let mut res = MMU::build(cart, serial_callback, GbMode::Classic);
        proof {
            reveal(MMU::spec_rb);
        }
        if res.rb(0x0143) == 0xC0 {
            return Err("This game does not work in Classic mode");
        }
        res.set_initial();
        Ok(res)
    }

    /// The memory map of the colour model; the cartridge header decides whether it runs as
    /// a colour game or as a classic one (see `mode_for_header`).
    pub fn new_cgb(cart: Cartridge, serial_callback: Option<C>) -> (r: StrResult<MMU<C>>)
        requires
            cart.wf(),
        ensures
            (r matches Ok(m) && m.wf() && m.boot_state() && m.mbc == cart && m.gbmode == mode_for_header(
                cart.spec_readrom(0x0143),
            ) && m.serial.callback == serial_callback),
    {
        let mut res = MMU::build(cart, serial_callback, GbMode::Color);
        res.determine_mode();
        res.set_initial();
        Ok(res)
    }

    /// Writes the boot values of the timer, LCD and palette registers.
    fn set_initial(&mut self)
        requires
            old(self).wf(),
            timer_reset(old(self).timer),
            power_on(GPU { gbmode: GbMode::Classic, ..old(self).gpu }),
        ensures
            final(self).wf(),
            *final(self) == (MMU { timer: final(self).timer, gpu: final(self).gpu, ..*old(self) }),
            timer_reset(final(self).timer),
            booted(final(self).gpu),
            final(self).gpu.gbmode == old(self).gpu.gbmode,
    {
        self.timer.wb(0xFF05, 0);
        self.timer.wb(0xFF06, 0);
        self.timer.wb(0xFF07, 0);
        proof {
            crate::bits::lemma_u8_bits(0);
        }
        self.gpu.wb(0xFF40, 0x91);
        proof {
            crate::bits::lemma_u8_bits(0x91);
        }
        self.gpu.wb(0xFF42, 0);
        self.gpu.wb(0xFF43, 0);
        self.gpu.wb(0xFF45, 0);
        self.gpu.wb(0xFF47, 0xFC);
        self.gpu.wb(0xFF48, 0xFF);
        self.gpu.wb(0xFF49, 0xFF);
        self.gpu.wb(0xFF4A, 0);
        self.gpu.wb(0xFF4B, 0);
    }

    /// Sets the model from the cartridge header (see `mode_for_header`), in the GPU too.
    fn determine_mode(&mut self)
        requires
            old(self).wf(),
        ensures
            final(self).wf(),
            *final(self) == (MMU {
                gbmode: mode_for_header(old(self).mbc.spec_readrom(0x0143)),
                gpu: GPU { gbmode: mode_for_header(old(self).mbc.spec_readrom(0x0143)), ..old(self).gpu },
                ..*old(self)
            }),
    {
        proof {
            reveal(MMU::spec_rb);
        }
        let mode = if self.rb(0x0143) & 0x80 == 0x80 {
            GbMode::Color
        } else {
            GbMode::ColorAsClassic
        };
        self.gbmode = mode;
        self.gpu.gbmode = mode;
    }

    /// The byte at `a` as a VRAM DMA transfer reads it, with `vram` as the contents of
    /// video memory.
    pub open spec fn dma_read(self, vram: Seq<u8>, a: u16) -> u8 {
        if 0x8000 <= a <= 0x9FFF {
            vram[self.gpu.vram_index(a)]
        } else {
            self.spec_rb(a)
        }
    }

    /// Video memory, source, destination and remaining length after `k` rows of 16 bytes of
    /// the VRAM DMA transfer set up in `self`; the length wraps from 0 to 0xFF.
    pub open spec fn dma_rows(self, k: nat) -> (Seq<u8>, u16, u16, u8)
        decreases k,
    {
        if k == 0 {
            (self.gpu.vram@, self.hdma_src, self.hdma_dst, self.hdma_len)
        } else {
            let prev = self.dma_rows((k - 1) as nat);
            let bytes = Seq::new(16, |j: int| self.dma_read(prev.0, ((prev.1 + j) % 0x10000) as u16));
            (
                row_write(prev.0, self.gpu.vrambank, prev.2, bytes, 16),
                ((prev.1 + 16) % 0x10000) as u16,
                ((prev.2 + 16) % 0x10000) as u16,
                ((prev.3 + 255) % 256) as u8,
            )
        }
    }

    /// The work RAM position of an address in 0xC000 - 0xFDFF (echo area included).
    pub open spec fn wram_index(&self, a: u16) -> int {
        if (0xC000 <= a <= 0xCFFF) || (0xE000 <= a <= 0xEFFF) {
            (a & 0x0FFF) as int
        } else {
            self.wrambank as int * 0x1000 + (a & 0x0FFF) as int
        }
    }

    pub open spec fn spec_hdma_read(&self, a: u16) -> u8 {
        if 0xFF51 <= a <= 0xFF54 {
            self.hdma@[a - 0xFF51]
        } else {
            self.hdma_len | (if self.hdma_status == DMAType::NoDMA { 0x80u8 } else { 0 })
        }
    }

    /// The byte that a read of `a` gives.
    #[verifier::opaque]
    pub open spec fn spec_rb(&self, a: u16) -> u8 {
        if a <= 0x7FFF {
            self.mbc.spec_readrom(a)
        } else if a <= 0x9FFF {
            self.gpu.spec_rb(a)
        } else if a <= 0xBFFF {
            self.mbc.spec_readram(a)
        } else if a <= 0xFDFF {
            self.wram@[self.wram_index(a)]
        } else if 0xFE00 <= a <= 0xFE9F {
            self.gpu.spec_rb(a)
        } else if a == 0xFF00 {
            self.keypad.data
        } else if a == 0xFF01 || a == 0xFF02 {
            self.serial.spec_rb(a)
        } else if 0xFF04 <= a <= 0xFF07 {
            self.timer.spec_rb(a)
        } else if a == 0xFF0F {
            self.intf
        } else if 0xFF10 <= a <= 0xFF3F {
            self.sound.spec_rb(a)
        } else if a == 0xFF4D {
            (if self.gbspeed == GbSpeed::Double { 0x80u8 } else { 0 }) | (if self.speed_switch_req {
                1u8
            } else {
                0
            })
        } else if 0xFF40 <= a <= 0xFF4F {
            if GPU::reads(a) {
                self.gpu.spec_rb(a)
            } else {
                0
            }
        } else if 0xFF51 <= a <= 0xFF55 {
            self.spec_hdma_read(a)
        } else if 0xFF68 <= a <= 0xFF6B {
            self.gpu.spec_rb(a)
        } else if a == 0xFF70 {
            self.wrambank as u8
        } else if 0xFF80 <= a <= 0xFFFE {
            self.zram@[(a & 0x007F) as int]
        } else if a == 0xFFFF {
            self.inte
        } else {
            0
        }
    }

    /// The 16-bit little-endian word at `a`.
    pub open spec fn spec_rw(&self, a: u16) -> u16 {
        pair(self.spec_rb(next_addr(a)), self.spec_rb(a))
    }

    pub fn rb(&self, address: u16) -> (r: u8)
        requires
            self.wf_base(),
        ensures
            r == self.spec_rb(address),
    {
        reveal(MMU::spec_rb);
        reveal(MMU::wb_post);
        let a = address;
        if a <= 0x7FFF {
            self.mbc.readrom(a)
        } else if a <= 0x9FFF {
            self.gpu.rb(a)
        } else if a <= 0xBFFF {
            self.mbc.readram(a)
        } else if a <= 0xFDFF {
            proof {
                crate::bits::lemma_u16_bits(a);
            }
            if (0xC000 <= a && a <= 0xCFFF) || (0xE000 <= a && a <= 0xEFFF) {
                self.wram[(a & 0x0FFF) as usize]
            } else {
                self.wram[self.wrambank * 0x1000 + (a & 0x0FFF) as usize]
            }
        } else if 0xFE00 <= a && a <= 0xFE9F {
            self.gpu.rb(a)
        } else if a == 0xFF00 {
            self.keypad.rb()
        } else if a == 0xFF01 || a == 0xFF02 {
            self.serial.rb(a)
        } else if 0xFF04 <= a && a <= 0xFF07 {
            self.timer.rb(a)
        } else if a == 0xFF0F {
            self.intf
        } else if 0xFF10 <= a && a <= 0xFF3F {
            self.sound.rb(a)
        } else if a == 0xFF4D {
            (if self.gbspeed == GbSpeed::Double { 0x80 } else { 0 }) | (if self.speed_switch_req {
                1
            } else {
                0
            })
        } else if 0xFF40 <= a && a <= 0xFF4F {
            if a <= 0xFF4B || a == 0xFF4F {
                self.gpu.rb(a)
            } else {
                0
            }
        } else if 0xFF51 <= a && a <= 0xFF55 {
            self.hdma_read(a)
        } else if 0xFF68 <= a && a <= 0xFF6B {
            self.gpu.rb(a)
        } else if a == 0xFF70 {
            self.wrambank as u8
        } else if 0xFF80 <= a && a <= 0xFFFE {
            proof {
                crate::bits::lemma_u16_bits(a);
            }
            self.zram[(a & 0x007F) as usize]
        } else if a == 0xFFFF {
            self.inte
        } else {
            0
        }
    }

    pub fn rw(&self, address: u16) -> (r: u16)
        requires
            self.wf_base(),
        ensures
            r == self.spec_rw(address),
    {
        let lo = self.rb(address);
        let hi = self.rb(address.wrapping_add(1));
        proof {
            crate::register::lemma_pair_bits(hi, lo);
        }
        (lo as u16) | ((hi as u16) << 8)
    }

    fn hdma_read(&self, a: u16) -> (r: u8)
        requires
            self.wf_base(),
            0xFF51 <= a <= 0xFF55,
        ensures
            r == self.spec_hdma_read(a),
    {
        if a <= 0xFF54 {
            self.hdma[(a - 0xFF51) as usize]
        } else {
            self.hdma_len | if self.hdma_status == DMAType::NoDMA { 0x80 } else { 0 }
        }
    }

    /// The effect of a write to the HDMA registers. Starting a transfer from an address
    /// outside ROM, external RAM and work RAM is ignored.
    pub open spec fn hdma_write_post(old: MMU<C>, new: MMU<C>, a: u16, v: u8) -> bool {
        if 0xFF51 <= a <= 0xFF54 {
            let x = if a == 0xFF51 {
                v
            } else if a == 0xFF52 {
                v & 0xF0
            } else if a == 0xFF53 {
                v & 0x1F
            } else {
                v & 0xF0
            };
            new == MMU { hdma: new.hdma, ..old } && new.hdma@ == old.hdma@.update(a - 0xFF51, x)
        } else if old.hdma_status == DMAType::HDMA {
            new == MMU {
                hdma_status: if v & 0x80 == 0 { DMAType::NoDMA } else { DMAType::HDMA },
                ..old
            }
        } else {
            let src = pair(old.hdma@[0], old.hdma@[1]);
            let dst = (pair(old.hdma@[2], old.hdma@[3]) | 0x8000) as u16;
            if !legal_hdma_src(src) {
                new == old
            } else {
                new == MMU {
                    hdma_src: src,
                    hdma_dst: dst,
                    hdma_len: v & 0x7F,
                    hdma_status: if v & 0x80 == 0x80 { DMAType::HDMA } else { DMAType::GDMA },
                    ..old
                }
            }
        }
    }

    fn hdma_write(&mut self, a: u16, v: u8)
        requires
            old(self).wf(),
            0xFF51 <= a <= 0xFF55,
        ensures
            MMU::hdma_write_post(*old(self), *final(self), a, v),
            final(self).wf(),
    {
        match a {
            0xFF51 => self.hdma.set(0, v),
            0xFF52 => self.hdma.set(1, v & 0xF0),
            0xFF53 => self.hdma.set(2, v & 0x1F),
            0xFF54 => self.hdma.set(3, v & 0xF0),
            _ => {
                if self.hdma_status == DMAType::HDMA {
                    if v & 0x80 == 0 {
                        self.hdma_status = DMAType::NoDMA;
                    }
                    return ;
                }
                let h0 = self.hdma[0];
                let h1 = self.hdma[1];
                let h2 = self.hdma[2];
                let h3 = self.hdma[3];
                proof {
                    crate::register::lemma_pair_bits(h0, h1);
                    crate::register::lemma_pair_bits(h2, h3);
                }
                let src = ((h0 as u16) << 8) | (h1 as u16);
                let dst = ((h2 as u16) << 8) | (h3 as u16) | 0x8000;
                if !(src <= 0x7FF0 || (src >= 0xA000 && src <= 0xDFF0)) {
                    return ;
                }
                self.hdma_src = src;
                self.hdma_dst = dst;
                proof {
                    crate::bits::lemma_u8_bits(v);
                }
                self.hdma_len = v & 0x7F;
                self.hdma_status = if v & 0x80 == 0x80 { DMAType::HDMA } else { DMAType::GDMA };
            },
        }
    }

    /// The effect of a write of `v` to `a`.
    #[verifier::opaque]
    pub open spec fn wb_post(old: MMU<C>, new: MMU<C>, a: u16, v: u8) -> bool {
        if a <= 0x7FFF {
            new == MMU { mbc: new.mbc, ..old } && Cartridge::writerom_post(old.mbc, new.mbc, a, v)
        } else if a <= 0x9FFF {
            new == MMU { gpu: new.gpu, ..old } && GPU::wb_post(old.gpu, new.gpu, a, v)
        } else if a <= 0xBFFF {
            new == MMU { mbc: new.mbc, ..old } && Cartridge::writeram_post(old.mbc, new.mbc, a, v)
        } else if a <= 0xFDFF {
            new == MMU { wram: new.wram, ..old } && new.wram@ == old.wram@.update(old.wram_index(a), v)
        } else if 0xFE00 <= a <= 0xFE9F {
            new == MMU { gpu: new.gpu, ..old } && GPU::wb_post(old.gpu, new.gpu, a, v)
        } else if a == 0xFF00 {
            new == MMU {
                keypad: Keypad { data: joypad_value(v, old.keypad.row0, old.keypad.row1), ..old.keypad },
                ..old
            }
        } else if a == 0xFF01 || a == 0xFF02 {
            new == MMU { serial: new.serial, ..old } && Serial::wb_post(old.serial, new.serial, a, v)
        } else if 0xFF04 <= a <= 0xFF07 {
            new == MMU { timer: old.timer.spec_wb(a, v), ..old }
        } else if 0xFF10 <= a <= 0xFF3F {
            new == MMU { sound: new.sound, ..old } && Sound::wb_post(old.sound, new.sound, a, v)
        } else if a == 0xFF46 {
            MMU::oamdma_post(old, new, v)
        } else if a == 0xFF4D {
            new == MMU { speed_switch_req: old.speed_switch_req || v & 0x1 == 0x1, ..old }
        } else if 0xFF40 <= a <= 0xFF4F {
            if GPU::writes(a) {
                new == MMU { gpu: new.gpu, ..old } && GPU::wb_post(old.gpu, new.gpu, a, v)
            } else {
                new == old
            }
        } else if 0xFF51 <= a <= 0xFF55 {
            MMU::hdma_write_post(old, new, a, v)
        } else if 0xFF68 <= a <= 0xFF6B {
            new == MMU { gpu: new.gpu, ..old } && GPU::wb_post(old.gpu, new.gpu, a, v)
        } else if a == 0xFF0F {
            new == MMU { intf: v, ..old }
        } else if a == 0xFF70 {
            new == MMU { wrambank: wram_bank_of(v), ..old }
        } else if 0xFF80 <= a <= 0xFFFE {
            new == MMU { zram: new.zram, ..old } && new.zram@ == old.zram@.update((a & 0x007F) as int, v)
        } else if a == 0xFFFF {
            new == MMU { inte: v, ..old }
        } else {
            new == old
        }
    }

    /// OAM DMA: the 160 bytes from `v * 0x100` are copied into object attribute memory.
    pub open spec fn oamdma_post(old: MMU<C>, new: MMU<C>, v: u8) -> bool {
        &&& new == MMU { gpu: new.gpu, ..old }
        &&& new.gpu == GPU { voam: new.gpu.voam, ..old.gpu }
        &&& new.gpu.voam@ == Seq::new(0xA0, |i: int| old.spec_rb((v as int * 0x100 + i) as u16))
    }

    fn wb_wram(&mut self, a: u16, v: u8)
        requires
            old(self).wf(),
            0xC000 <= a <= 0xFDFF,
        ensures
            MMU::wb_post(*old(self), *final(self), a, v),
            final(self).wf(),
    {
        reveal(MMU::spec_rb);
        reveal(MMU::wb_post);
        proof {
            crate::bits::lemma_u16_bits(a);
        }
        if (0xC000 <= a && a <= 0xCFFF) || (0xE000 <= a && a <= 0xEFFF) {
            self.wram.set((a & 0x0FFF) as usize, v);
        } else {
            let i = self.wrambank * 0x1000 + (a & 0x0FFF) as usize;
            self.wram.set(i, v);
        }
    }

    fn wb_io(&mut self, a: u16, v: u8)
        requires
            old(self).wf(),
            0xFF00 <= a <= 0xFF3F,
            a != 0xFF46,
        ensures
            MMU::wb_post(*old(self), *final(self), a, v),
            final(self).wf(),
    {
        reveal(MMU::spec_rb);
        reveal(MMU::wb_post);
        if a == 0xFF00 {
            self.keypad.wb(v);
        } else if a == 0xFF01 || a == 0xFF02 {
            self.serial.wb(a, v);
        } else if 0xFF04 <= a && a <= 0xFF07 {
            self.timer.wb(a, v);
            proof {
                if a == 0xFF07 {
                    crate::bits::lemma_u8_bits(v);
                }
            }
        } else if 0xFF10 <= a && a <= 0xFF3F {
            self.sound.wb(a, v);
        } else if a == 0xFF0F {
            self.intf = v;
        }
    }

    fn wb_high(&mut self, a: u16, v: u8)
        requires
            old(self).wf(),
            0xFF40 <= a,
            a != 0xFF46,
        ensures
            MMU::wb_post(*old(self), *final(self), a, v),
            final(self).wf(),
    {
        reveal(MMU::spec_rb);
        reveal(MMU::wb_post);
        if a == 0xFF4D {
            if v & 0x1 == 0x1 {
                self.speed_switch_req = true;
            }
        } else if 0xFF40 <= a && a <= 0xFF4F {
            if a <= 0xFF4B || a == 0xFF4F {
                self.gpu.wb(a, v);
            }
        } else if 0xFF51 <= a && a <= 0xFF55 {
            self.hdma_write(a, v);
        } else if 0xFF68 <= a && a <= 0xFF6B {
            self.gpu.wb(a, v);
        } else if a == 0xFF70 {
            self.wrambank = match v & 0x7 {
                0 => 1,
                n => n as usize,
            };
            proof {
                crate::bits::lemma_u8_bits(v);
            }
        } else if 0xFF80 <= a && a <= 0xFFFE {
            proof {
                crate::bits::lemma_u16_bits(a);
            }
            self.zram.set((a & 0x007F) as usize, v);
        } else if a == 0xFFFF {
            self.inte = v;
        }
    }

    pub fn wb(&mut self, address: u16, value: u8)
        requires
            old(self).wf(),
        ensures
            MMU::wb_post(*old(self), *final(self), address, value),
            final(self).wf(),
    {
        reveal(MMU::spec_rb);
        reveal(MMU::wb_post);
        let a = address;
        let v = value;
        if a <= 0x7FFF {
            self.mbc.writerom(a, v);
        } else if a <= 0x9FFF {
            self.gpu.wb(a, v);
        } else if a <= 0xBFFF {
            self.mbc.writeram(a, v);
        } else if a <= 0xFDFF {
            self.wb_wram(a, v);
        } else if 0xFE00 <= a && a <= 0xFE9F {
            self.gpu.wb(a, v);
        } else if a == 0xFF46 {
            self.oamdma(v);
        } else if 0xFF00 <= a && a <= 0xFF3F {
            self.wb_io(a, v);
        } else if 0xFF40 <= a {
            self.wb_high(a, v);
        }
    }

    /// The effect of writing a little-endian word: its low byte to `a`, then its high byte
    /// to the next address.
    pub open spec fn ww_post(old: MMU<C>, new: MMU<C>, a: u16, v: u16) -> bool {
        exists|mid: MMU<C>|
            MMU::wb_post(old, mid, a, crate::register::lo_byte(v)) && #[trigger] MMU::wb_post(
                mid,
                new,
                next_addr(a),
                crate::register::hi_byte(v),
            )
    }

    /// The MMU after a speed switch instruction (see `switch_speed`).
    pub open spec fn spec_switch_speed(self) -> MMU<C> {
        MMU {
            gbspeed: if self.speed_switch_req {
                if self.gbspeed == GbSpeed::Double {
                    GbSpeed::Single
                } else {
                    GbSpeed::Double
                }
            } else {
                self.gbspeed
            },
            speed_switch_req: false,
            ..self
        }
    }

    pub fn ww(&mut self, address: u16, value: u16)
        requires
            old(self).wf(),
        ensures
            MMU::ww_post(*old(self), *final(self), address, value),
            final(self).wf(),
    {
        proof {
            crate::register::lemma_pair_bytes(value);
        }
        self.wb(address, (value & 0xFF) as u8);
        let ghost mid = *self;
        self.wb(address.wrapping_add(1), (value >> 8) as u8);
        assert(MMU::wb_post(mid, *self, next_addr(address), crate::register::hi_byte(value)));
    }

    /// A requested speed switch (bit 0 of 0xFF4D) takes effect: the speed toggles.
    /// The request is cleared either way.
    pub fn switch_speed(&mut self)
        ensures
            *final(self) == old(self).spec_switch_speed(),
    {
        if self.speed_switch_req {
            if self.gbspeed == GbSpeed::Double {
                self.gbspeed = GbSpeed::Single;
            } else {
                self.gbspeed = GbSpeed::Double;
            }
        }
        self.speed_switch_req = false;
    }

    #[verifier::rlimit(40)]
    #[verifier::spinoff_prover]
    fn oamdma(&mut self, value: u8)
        requires
            old(self).wf(),
        ensures
            MMU::oamdma_post(*old(self), *final(self), value),
            final(self).wf(),
    {
        reveal(MMU::spec_rb);
        let base: u16 = (value as u16) << 8;
        proof {
            crate::bits::lemma_u8_bits(value);
        }
        let ghost old_self = *self;
        let mut i: u16 = 0;
        while i < 0xA0
            invariant
                0 <= i <= 0xA0,
                base == value as int * 0x100,
                old_self.wf(),
                self.wf(),
                *self == (MMU { gpu: self.gpu, ..old_self }),
                self.gpu == (GPU { voam: self.gpu.voam, ..old_self.gpu }),
                forall|j: int| 0 <= j < i ==> self.gpu.voam@[j] == #[trigger] old_self.spec_rb((base + j) as u16),
                forall|j: int| i <= j < 0xA0 ==> #[trigger] self.gpu.voam@[j] == old_self.gpu.voam@[j],
            decreases 0xA0 - i,
        {
            proof {
                self.lemma_rb_oam_prefix(old_self, (base + i) as u16, i as int);
            }
            let b = self.rb(base + i);
            let ghost before = self.gpu.voam@;
            self.gpu.wb(0xFE00 + i, b);
            assert(self.gpu.voam@ == before.update(i as int, b));
            i = i + 1;
        }
        assert(self.gpu.voam@ =~= Seq::new(0xA0, |j: int| old_self.spec_rb((value as int * 0x100 + j) as u16)));
    }

    /// While OAM DMA has filled the first `i` bytes, a read of the next source byte gives
    /// what it gave before the transfer began.
    proof fn lemma_rb_oam_prefix(&self, old_self: MMU<C>, a: u16, i: int)
        requires
            *self == (MMU { gpu: self.gpu, ..old_self }),
            self.gpu == (GPU { voam: self.gpu.voam, ..old_self.gpu }),
            self.gpu.voam@.len() == old_self.gpu.voam@.len(),
            0 <= i < 0xA0,
            a as int % 0x100 == i,
            forall|j: int| i <= j < 0xA0 ==> #[trigger] self.gpu.voam@[j] == old_self.gpu.voam@[j],
        ensures
            self.spec_rb(a) == old_self.spec_rb(a),
    {
        reveal(MMU::spec_rb);
        reveal(MMU::wb_post);
        if 0xFE00 <= a <= 0xFE9F {
            assert(a - 0xFE00 == i);
        }
    }

    /// A read during a VRAM DMA transfer below 0xE800 sees what it saw when the transfer
    /// began, apart from video memory, which it sees as it now is.
    proof fn lemma_dma_read_stable(&self, m0: MMU<C>, a: u16)
        requires
            *self == (MMU {
                gpu: self.gpu,
                hdma_src: self.hdma_src,
                hdma_dst: self.hdma_dst,
                hdma_len: self.hdma_len,
                ..m0
            }),
            self.gpu == (GPU { vram: self.gpu.vram, ..m0.gpu }),
            a < 0xE800,
        ensures
            self.spec_rb(a) == m0.dma_read(self.gpu.vram@, a),
    {
        reveal(MMU::spec_rb);
    }

    /// Copies one row of 16 bytes of the VRAM DMA transfer and advances it.
    fn perform_vramdma_row(&mut self)
        requires
            old(self).wf_base(),
            old(self).hdma_len <= 0x7F,
            old(self).hdma_src as int + 16 <= 0xE800,
        ensures
            final(self).wf_base(),
            *final(self) == (MMU {
                gpu: final(self).gpu,
                hdma_src: final(self).hdma_src,
                hdma_dst: final(self).hdma_dst,
                hdma_len: final(self).hdma_len,
                ..*old(self)
            }),
            final(self).gpu == (GPU { vram: final(self).gpu.vram, ..old(self).gpu }),
            (final(self).gpu.vram@, final(self).hdma_src, final(self).hdma_dst, final(self).hdma_len)
                == old(self).dma_rows(1),
            final(self).hdma_src == old(self).hdma_src + 16,
            final(self).hdma_len == (if old(self).hdma_len == 0 { 0xFFu8 } else { (old(self).hdma_len - 1) as u8 }),
    {
        let ghost m0 = *self;
        let src = self.hdma_src;
        let dst = self.hdma_dst;
        let mut buf: Vec<u8> = Vec::new();
        let mut j: u16 = 0;
        while j < 16
            invariant
                j <= 16,
                *self == m0,
                m0.wf_base(),
                src == m0.hdma_src,
                src as int + 16 <= 0xE800,
                buf@.len() == j,
                forall|k: int| 0 <= k < j ==> buf@[k] == m0.dma_read(m0.gpu.vram@, ((src + k) % 0x10000) as u16),
            decreases 16 - j,
        {
            proof {
                self.lemma_dma_read_stable(m0, (src + j) as u16);
            }
            let b = self.rb(src + j);
            buf.push(b);
            j = j + 1;
        }
        let ghost bytes = buf@;
        let mut j: u16 = 0;
        while j < 16
            invariant
                j <= 16,
                *self == (MMU { gpu: self.gpu, ..m0 }),
                self.gpu == (GPU { vram: self.gpu.vram, ..m0.gpu }),
                self.wf_base(),
                dst == m0.hdma_dst,
                buf@ == bytes,
                bytes.len() == 16,
                self.gpu.vram@ == row_write(m0.gpu.vram@, m0.gpu.vrambank, dst, bytes, j as int),
            decreases 16 - j,
        {
            let a = dst.wrapping_add(j);
            if 0x8000 <= a && a <= 0x9FFF {
                self.gpu.wb(a, buf[j as usize]);
            }
            j = j + 1;
        }
        self.hdma_src = src.wrapping_add(16);
        self.hdma_dst = dst.wrapping_add(16);
        self.hdma_len = self.hdma_len.wrapping_sub(1);
        assert(bytes =~= Seq::new(16, |k: int| m0.dma_read(m0.gpu.vram@, ((src + k) % 0x10000) as u16)));
        assert(m0.dma_rows(0) == (m0.gpu.vram@, m0.hdma_src, m0.hdma_dst, m0.hdma_len));
    }

    /// A VRAM DMA transfer keeps the memory map well formed.
    proof fn lemma_wf_base_frame(&self, m0: MMU<C>)
        requires
            *self == (MMU {
                gpu: self.gpu,
                hdma_src: self.hdma_src,
                hdma_dst: self.hdma_dst,
                hdma_len: self.hdma_len,
                ..m0
            }),
            self.gpu == (GPU { vram: self.gpu.vram, ..m0.gpu }),
            self.gpu.vram@.len() == m0.gpu.vram@.len(),
            m0.wf_base(),
        ensures
            self.wf_base(),
    {
    }

    /// One row of a VRAM DMA transfer in progress, run on the state it has reached, is the
    /// next row of the transfer as it was set up.
    proof fn lemma_dma_row_step(&self, m0: MMU<C>, r: nat)
        requires
            *self == (MMU {
                gpu: self.gpu,
                hdma_src: self.hdma_src,
                hdma_dst: self.hdma_dst,
                hdma_len: self.hdma_len,
                ..m0
            }),
            self.gpu == (GPU { vram: self.gpu.vram, ..m0.gpu }),
            (self.gpu.vram@, self.hdma_src, self.hdma_dst, self.hdma_len) == m0.dma_rows(r),
            self.hdma_src as int + 16 <= 0xE800,
        ensures
            self.dma_rows(1) == m0.dma_rows(r + 1),
    {
        let prev = m0.dma_rows(r);
        assert(self.dma_rows(0) == prev);
        assert forall|j: int| 0 <= j < 16 implies #[trigger] self.dma_read(prev.0, ((prev.1 + j) % 0x10000) as u16)
            == m0.dma_read(prev.0, ((prev.1 + j) % 0x10000) as u16) by {
            self.lemma_dma_read_stable(m0, ((prev.1 + j) % 0x10000) as u16);
        }
        assert(Seq::new(16, |j: int| self.dma_read(prev.0, ((prev.1 + j) % 0x10000) as u16)) =~= Seq::new(
            16,
            |j: int| m0.dma_read(prev.0, ((prev.1 + j) % 0x10000) as u16),
        ));
    }

    /// The effect of the VRAM DMA step of `do_cycle`, and the ticks it takes: a general
    /// transfer copies all its rows at once; a horizontal-blank transfer copies one row when
    /// a horizontal blank began, and ends after its last row.
    pub open spec fn vramdma_post(old: MMU<C>, new: MMU<C>, ticks: u32) -> bool {
        if old.hdma_status == DMAType::GDMA {
            let rows = old.hdma_len as nat + 1;
            let res = old.dma_rows(rows);
            &&& ticks == rows * 32
            &&& new == (MMU {
                gpu: new.gpu,
                hdma_src: res.1,
                hdma_dst: res.2,
                hdma_len: res.3,
                hdma_status: DMAType::NoDMA,
                ..old
            })
            &&& new.gpu == (GPU { vram: new.gpu.vram, ..old.gpu })
            &&& new.gpu.vram@ == res.0
        } else if old.hdma_status == DMAType::HDMA && old.gpu.hblanking && old.hdma_len != 0xFF {
            let res = old.dma_rows(1);
            &&& ticks == (if old.gbspeed == GbSpeed::Single { 64u32 } else { 32u32 })
            &&& new == (MMU {
                gpu: new.gpu,
                hdma_src: res.1,
                hdma_dst: res.2,
                hdma_len: res.3,
                hdma_status: if res.3 == 0xFF { DMAType::NoDMA } else { DMAType::HDMA },
                ..old
            })
            &&& new.gpu == (GPU { vram: new.gpu.vram, ..old.gpu })
            &&& new.gpu.vram@ == res.0
        } else {
            new == old && ticks == 0
        }
    }

    /// Copies all rows of a general VRAM DMA transfer.
    #[verifier::spinoff_prover]
    #[verifier::rlimit(60)]
    fn perform_gdma(&mut self) -> (r: u32)
        requires
            old(self).wf(),
            old(self).hdma_status == DMAType::GDMA,
        ensures
            final(self).wf(),
            MMU::vramdma_post(*old(self), *final(self), r),
    {
        let ghost m0 = *self;
        let len: u32 = self.hdma_len as u32 + 1;
        let mut i: u32 = 0;
        while i < len
            invariant
                len == m0.hdma_len + 1,
                m0.hdma_len <= 0x7F,
                m0.hdma_src as int + 16 * len <= 0xE800,
                i <= len,
                *self == (MMU {
                    gpu: self.gpu,
                    hdma_src: self.hdma_src,
                    hdma_dst: self.hdma_dst,
                    hdma_len: self.hdma_len,
                    ..m0
                }),
                self.gpu == (GPU { vram: self.gpu.vram, ..m0.gpu }),
                m0.wf_base(),
                self.gpu.vram@.len() == m0.gpu.vram@.len(),
                (self.gpu.vram@, self.hdma_src, self.hdma_dst, self.hdma_len) == m0.dma_rows(i as nat),
                self.hdma_src == m0.hdma_src + 16 * i,
                i < len ==> self.hdma_len == m0.hdma_len - i,
            decreases len - i,
        {
            proof {
                self.lemma_dma_row_step(m0, i as nat);
                self.lemma_wf_base_frame(m0);
            }
            self.perform_vramdma_row();
            i = i + 1;
        }
        proof {
            self.lemma_wf_base_frame(m0);
        }
        self.hdma_status = DMAType::NoDMA;
        len * 0x10 * 2
    }

    /// Copies one row of a horizontal-blank VRAM DMA transfer when a horizontal blank began.
    #[verifier::spinoff_prover]
    #[verifier::rlimit(60)]
    fn perform_hdma(&mut self) -> (r: u32)
        requires
            old(self).wf(),
            old(self).hdma_status == DMAType::HDMA,
        ensures
            final(self).wf(),
            MMU::vramdma_post(*old(self), *final(self), r),
    {
        if self.gpu.may_hdma() == false || self.hdma_len == 0xFF {
            return 0;
        }
        self.perform_vramdma_row();
        if self.hdma_len == 0xFF {
            self.hdma_status = DMAType::NoDMA;
        }
        0x10 * (if self.gbspeed == GbSpeed::Single { 4 } else { 2 })
    }

    /// Runs the VRAM DMA transfer in progress, if any; see `vramdma_post`.
    fn perform_vramdma(&mut self) -> (r: u32)
        requires
            old(self).wf(),
        ensures
            final(self).wf(),
            MMU::vramdma_post(*old(self), *final(self), r),
            r <= 4096,
    {
        match self.hdma_status {
            DMAType::NoDMA => 0,
            DMAType::GDMA => self.perform_gdma(),
            DMAType::HDMA => self.perform_hdma(),
        }
    }

    /// The devices after `ticks` ticks of the CPU, `r` being the ticks at the current
    /// speed: the timer runs for all ticks, the GPU and the sound unit for `r`; the
    /// interrupts that the timer, keypad and GPU raised are moved into the interrupt flag
    /// register. The serial port's interrupt flag stays with the port.
    pub open spec fn devices_post(old: MMU<C>, new: MMU<C>, ticks: u32, r: u32) -> bool {
        let t = old.timer.spec_cycle(ticks);
        &&& r == ticks / (if old.gbspeed == GbSpeed::Single { 1u32 } else { 2u32 })
        &&& exists|g: GPU|
            #![trigger cycle_post(old.gpu, g, r)]
            {
                &&& cycle_post(old.gpu, g, r)
                &&& new == (MMU {
                    timer: Timer { interrupt: 0, ..t },
                    keypad: Keypad { interrupt: 0, ..old.keypad },
                    gpu: GPU { interrupt: 0, ..g },
                    sound: sound_cycled(old.sound, r),
                    intf: old.intf | t.interrupt | old.keypad.interrupt | g.interrupt,
                    ..old
                })
            }
    }

    /// Runs the timer, GPU and sound unit; see `devices_post`.
    #[verifier::spinoff_prover]
    fn step_devices(&mut self, ticks: u32) -> (r: u32)
        requires
            old(self).wf(),
            ticks <= u32::MAX - 0x1000,
        ensures
            final(self).wf(),
            MMU::devices_post(*old(self), *final(self), ticks, r),
    {
        let gputicks = ticks / (if self.gbspeed == GbSpeed::Single { 1 } else { 2 });
        self.timer.do_cycle(ticks);
        self.intf |= self.timer.interrupt;
        self.timer.interrupt = 0;
        self.intf |= self.keypad.interrupt;
        proof {
            crate::keypad::lemma_consistent_without_interrupt(self.keypad, 0);
        }
        self.keypad.interrupt = 0;
        self.gpu.cycle(gputicks);
        let ghost g = self.gpu;
        self.intf |= self.gpu.interrupt;
        self.gpu.interrupt = 0;
        self.sound.do_cycle(gputicks);
        assert(cycle_post(old(self).gpu, g, gputicks));
        gputicks
    }

    /// The memory map after `cputicks` ticks of the CPU, returning the ticks at the current
    /// speed: the VRAM DMA step (see `vramdma_post`) adds its ticks to the CPU's, and the
    /// devices run for them (see `devices_post`).
    pub open spec fn do_cycle_post(old: MMU<C>, new: MMU<C>, cputicks: u32, r: u32) -> bool {
        exists|mid: MMU<C>, d: u32|
            #![trigger MMU::vramdma_post(old, mid, d)]
            MMU::vramdma_post(old, mid, d) && MMU::devices_post(mid, new, (cputicks + d) as u32, r)
    }

    /// Advances the devices by `cputicks` ticks of the CPU; see `do_cycle_post`. The tick
    /// count, with the at most 0x1000 ticks of a VRAM transfer added, must leave the timer's
    /// tick counters room in 32 bits.
    pub fn do_cycle(&mut self, cputicks: u32) -> (r: u32)
        requires
            old(self).wf(),
            cputicks <= u32::MAX - 0x2000,
        ensures
            final(self).wf(),
            MMU::do_cycle_post(*old(self), *final(self), cputicks, r),
    {
        let d = self.perform_vramdma();
        let ghost mid = *self;
        let r = self.step_devices(cputicks + d);
        assert(MMU::vramdma_post(*old(self), mid, d));
        r
    }
}

/// A byte written to work RAM (or its echo), high RAM or the interrupt enable register
/// reads back from the same address.
pub proof fn lemma_ram_write_read<C: SerialCallback>(old: MMU<C>, new: MMU<C>, a: u16, v: u8)
    requires
        old.wf(),
        (0xC000 <= a <= 0xFDFF) || (0xFF80 <= a),
        MMU::wb_post(old, new, a, v),
    ensures
        new.spec_rb(a) == v,
{
    reveal(MMU::spec_rb);
    reveal(MMU::wb_post);
    crate::bits::lemma_u16_bits(a);
}

/// A write to work RAM changes what one other address reads only where it is the same
/// byte: the echo area mirrors 0xC000 - 0xDDFF.
pub proof fn lemma_wram_write_frame<C: SerialCallback>(old: MMU<C>, new: MMU<C>, a: u16, b: u16, v: u8)
    requires
        old.wf(),
        0xC000 <= a <= 0xFDFF,
        0xC000 <= b <= 0xFDFF,
        old.wram_index(a) != old.wram_index(b),
        MMU::wb_post(old, new, a, v),
    ensures
        new.spec_rb(b) == old.spec_rb(b),
{
    reveal(MMU::spec_rb);
    reveal(MMU::wb_post);
    crate::bits::lemma_u16_bits(a);
    crate::bits::lemma_u16_bits(b);
}

/// Whether a read of `b` is left alone by a word written to work RAM at `a`: `b` lies
/// outside work RAM and its echo, or reaches another byte of it than the two written.
pub open spec fn clear_of_word<C: SerialCallback>(m: MMU<C>, a: u16, b: u16) -> bool {
    ||| b < 0xC000
    ||| b > 0xFDFF
    ||| (m.wram_index(b) != m.wram_index(a) && m.wram_index(b) != m.wram_index(next_addr(a)))
}

/// A word written to work RAM (or its echo) reads back as written, and every read that
/// is clear of the two bytes written (see `clear_of_word`) does not change.
pub proof fn lemma_wram_word_write_read<C: SerialCallback>(old: MMU<C>, new: MMU<C>, a: u16, v: u16)
    requires
        old.wf(),
        0xC000 <= a <= 0xFDFE,
        MMU::ww_post(old, new, a, v),
    ensures
        new.spec_rw(a) == v,
        forall|b: u16| clear_of_word(old, a, b) ==> #[trigger] new.spec_rb(b) == old.spec_rb(b),
{
    let lo = crate::register::lo_byte(v);
    let hi = crate::register::hi_byte(v);
    let mid = choose|mid: MMU<C>| MMU::wb_post(old, mid, a, lo) && #[trigger] MMU::wb_post(mid, new, next_addr(a), hi);
    reveal(MMU::wb_post);
    crate::bits::lemma_u16_bits(a);
    crate::bits::lemma_u16_bits(next_addr(a));
    assert(mid.wf());
    lemma_ram_write_read(old, mid, a, lo);
    lemma_ram_write_read(mid, new, next_addr(a), hi);
    lemma_wram_write_frame(mid, new, next_addr(a), a, hi);
    assert forall|b: u16| clear_of_word(old, a, b) implies #[trigger] new.spec_rb(b) == old.spec_rb(b) by {
        reveal(MMU::spec_rb);
        crate::bits::lemma_u16_bits(b);
    }
}

/// The selected work RAM bank: 0xD000 - 0xDFFF (and its echo 0xF000 - 0xFDFF) reads byte
/// `wrambank * 0x1000 + (a mod 0x1000)` of work RAM; 0xC000 - 0xCFFF (and its echo) reads
/// byte `a mod 0x1000`, the fixed bank 0.
pub proof fn lemma_wram_bank_read<C: SerialCallback>(m: MMU<C>, a: u16)
    requires
        m.wf(),
        0xC000 <= a <= 0xFDFF,
    ensures
        (0xD000 <= a <= 0xDFFF || 0xF000 <= a) ==> m.spec_rb(a) == m.wram@[m.wrambank * 0x1000 + a % 0x1000],
        (0xC000 <= a <= 0xCFFF || 0xE000 <= a <= 0xEFFF) ==> m.spec_rb(a) == m.wram@[(a % 0x1000) as int],
{
    reveal(MMU::spec_rb);
    crate::bits::lemma_u16_bits(a);
}

/// A write to the switchable work RAM area stores the byte in the selected bank, at
/// `wrambank * 0x1000 + (a mod 0x1000)`, and changes nothing else.
pub proof fn lemma_wram_bank_write<C: SerialCallback>(old: MMU<C>, new: MMU<C>, a: u16, v: u8)
    requires
        old.wf(),
        0xD000 <= a <= 0xDFFF || 0xF000 <= a <= 0xFDFF,
        MMU::wb_post(old, new, a, v),
    ensures
        new == (MMU { wram: new.wram, ..old }),
        new.wram@ == old.wram@.update(old.wrambank * 0x1000 + a % 0x1000, v),
{
    reveal(MMU::wb_post);
    crate::bits::lemma_u16_bits(a);
}

/// A write to 0xFF70 selects work RAM bank `v mod 8` for 0xD000 - 0xDFFF, bank 1 in place
/// of bank 0.
pub proof fn lemma_wram_bank_select<C: SerialCallback>(old: MMU<C>, new: MMU<C>, v: u8)
    requires
        MMU::wb_post(old, new, 0xFF70, v),
    ensures
        new == (MMU { wrambank: new.wrambank, ..old }),
        new.wrambank == (if v % 8 == 0 { 1 } else { v % 8 }),
{
    reveal(MMU::wb_post);
    crate::bits::lemma_u8_bits(v);
}

/// The work RAM banks are separate memory: a write to 0xD000 - 0xDFFF under one bank leaves
/// what any address of that area reads under another bank unchanged.
pub proof fn lemma_wram_banks_separate<C: SerialCallback>(old: MMU<C>, new: MMU<C>, a: u16, v: u8, b: u16, k: usize)
    requires
        old.wf(),
        0xD000 <= a <= 0xDFFF,
        0xD000 <= b <= 0xDFFF,
        1 <= k <= 7,
        k != old.wrambank,
        MMU::wb_post(old, new, a, v),
    ensures
        (MMU { wrambank: k, ..new }).spec_rb(b) == (MMU { wrambank: k, ..old }).spec_rb(b),
{
    lemma_wram_bank_write(old, new, a, v);
    lemma_wram_bank_read(MMU { wrambank: k, ..new }, b);
    lemma_wram_bank_read(MMU { wrambank: k, ..old }, b);
}

} // verus!
