use vstd::prelude::*;
use crate::gbmode::GbMode;

verus! {

pub const VRAM_SIZE: usize = 0x4000;
pub const VOAM_SIZE: usize = 0xA0;
pub const SCREEN_W: usize = 160;
pub const SCREEN_H: usize = 144;
/// Bytes of the screen buffer: three colour components per pixel.
pub const SCREEN_BYTES: usize = 69120;
/// Bytes of a colour palette memory: 8 palettes of 4 colours of 3 components.
pub const CPAL_BYTES: usize = 96;

/// How a background pixel ranks against the sprites drawn over it.
#[derive(PartialEq, Eq, Structural, Clone, Copy, Debug)]
pub enum PrioType {
    Color0,
    PrioFlag,
    Normal,
}

/// The picture processing unit: video memory, object attribute memory, the LCD
/// registers, the palettes, and the RGB screen buffer it renders into.
pub struct GPU {
    pub mode: u8,
    pub modeclock: u32,
    pub line: u8,
    pub lyc: u8,
    pub lcd_on: bool,
    pub win_tilemap: u16,
    pub win_on: bool,
    pub tilebase: u16,
    pub bg_tilemap: u16,
    pub sprite_size: u32,
    pub sprite_on: bool,
    pub lcdc0: bool,
    pub lyc_inte: bool,
    pub m0_inte: bool,
    pub m1_inte: bool,
    pub m2_inte: bool,
    pub scy: u8,
    pub scx: u8,
    pub winy: u8,
    pub winx: u8,
    pub palbr: u8,
    pub pal0r: u8,
    pub pal1r: u8,
    pub palb: Vec<u8>,
    pub pal0: Vec<u8>,
    pub pal1: Vec<u8>,
    pub vram: Vec<u8>,
    pub voam: Vec<u8>,
    pub cbgpal_inc: bool,
    pub cbgpal_ind: u8,
    pub cbgpal: Vec<u8>,
    pub csprit_inc: bool,
    pub csprit_ind: u8,
    pub csprit: Vec<u8>,
    pub vrambank: u16,
    pub data: Vec<u8>,
    pub bgprio: Vec<PrioType>,
    pub updated: bool,
    pub interrupt: u8,
    pub gbmode: GbMode,
    /// Set when a horizontal blank began during the last `cycle`.
    pub hblanking: bool,
}

/// The grey level of colour `index` in a classic palette register.
pub open spec fn mono_shade(value: u8, index: u8) -> u8 {
    let sel = (value >> (2 * index) as u8) & 0x03;
    if sel == 0 {
        255
    } else if sel == 1 {
        192
    } else if sel == 2 {
        96
    } else {
        0
    }
}

/// The position in a colour palette memory of the colour that a palette index selects.
pub open spec fn cpal_base(ind: u8) -> int {
    (ind >> 3) as int * 12 + ((ind >> 1) & 0x3) as int * 3
}

/// A colour palette byte as read through the data register at palette index `ind`.
pub open spec fn cpal_read(pal: Seq<u8>, ind: u8) -> u8 {
    let b = cpal_base(ind);
    if ind & 0x01 == 0x00 {
        pal[b] | ((pal[b + 1] & 0x07) << 5u8)
    } else {
        ((pal[b + 1] & 0x18) >> 3u8) | (pal[b + 2] << 2u8)
    }
}

/// A colour palette memory after writing `v` through the data register at index `ind`.
pub open spec fn cpal_write(pal: Seq<u8>, ind: u8, v: u8) -> Seq<u8> {
    let b = cpal_base(ind);
    if ind & 0x01 == 0x00 {
        pal.update(b, v & 0x1F).update(b + 1, (pal[b + 1] & 0x18) | (v >> 5u8))
    } else {
        pal.update(b + 1, (pal[b + 1] & 0x07) | ((v & 0x3) << 3u8)).update(b + 2, (v >> 2u8) & 0x1F)
    }
}

/// The palette index after an access through the data register.
pub open spec fn cpal_next_ind(ind: u8, inc: bool) -> u8 {
    if inc {
        ((ind + 1) % 64) as u8
    } else {
        ind
    }
}

/// Every component of a colour palette memory is a five-bit value.
pub open spec fn cpal_wf(pal: Seq<u8>) -> bool {
    &&& pal.len() == CPAL_BYTES
    &&& forall|i: int| 0 <= i < pal.len() ==> #[trigger] pal[i] <= 0x1F
}

/// The value of the LCD control register (0xFF40) that the fields stand for.
pub open spec fn lcdc_value(g: GPU) -> u8 {
    (if g.lcd_on { 0x80u8 } else { 0 }) | (if g.win_tilemap == 0x9C00 { 0x40u8 } else { 0 }) | (
    if g.win_on { 0x20u8 } else { 0 }) | (if g.tilebase == 0x8000 { 0x10u8 } else { 0 }) | (
    if g.bg_tilemap == 0x9C00 { 0x08u8 } else { 0 }) | (if g.sprite_size == 16 { 0x04u8 } else { 0 })
        | (if g.sprite_on { 0x02u8 } else { 0 }) | (if g.lcdc0 { 0x01u8 } else { 0 })
}

/// The value of the LCD status register (0xFF41).
pub open spec fn stat_value(g: GPU) -> u8 {
    (if g.lyc_inte { 0x40u8 } else { 0 }) | (if g.m2_inte { 0x20u8 } else { 0 }) | (if g.m1_inte {
        0x10u8
    } else {
        0
    }) | (if g.m0_inte { 0x08u8 } else { 0 }) | (if g.line == g.lyc { 0x04u8 } else { 0 }) | g.mode
}

/// What power-on and the boot values leave alike: an idle LCD at line 0, no interrupt
/// source enabled, cleared memories and screen, and the first VRAM bank selected.
pub open spec fn cleared_state(g: GPU) -> bool {
    &&& g.mode == 0
    &&& g.modeclock == 0
    &&& g.line == 0
    &&& g.lyc == 0
    &&& !g.lyc_inte
    &&& !g.m0_inte
    &&& !g.m1_inte
    &&& !g.m2_inte
    &&& g.scy == 0
    &&& g.scx == 0
    &&& g.winy == 0
    &&& g.winx == 0
    &&& g.vram@ == Seq::new(VRAM_SIZE as nat, |i: int| 0u8)
    &&& g.voam@ == Seq::new(VOAM_SIZE as nat, |i: int| 0u8)
    &&& g.data@ == Seq::new(SCREEN_BYTES as nat, |i: int| 0u8)
    &&& g.bgprio@ == Seq::new(SCREEN_W as nat, |i: int| PrioType::Normal)
    &&& g.cbgpal@ == Seq::new(CPAL_BYTES as nat, |i: int| 0u8)
    &&& g.csprit@ == Seq::new(CPAL_BYTES as nat, |i: int| 0u8)
    &&& !g.cbgpal_inc
    &&& g.cbgpal_ind == 0
    &&& !g.csprit_inc
    &&& g.csprit_ind == 0
    &&& g.vrambank == 0
    &&& !g.updated
    &&& g.interrupt == 0
    &&& !g.hblanking
}

/// The GPU at power-on: the LCD off and all palettes black.
pub open spec fn power_on(g: GPU) -> bool {
    &&& cleared_state(g)
    &&& !g.lcd_on
    &&& g.win_tilemap == 0x9C00
    &&& !g.win_on
    &&& g.tilebase == 0x8000
    &&& g.bg_tilemap == 0x9C00
    &&& g.sprite_size == 8
    &&& !g.sprite_on
    &&& !g.lcdc0
    &&& g.palbr == 0
    &&& g.pal0r == 0
    &&& g.pal1r == 1
    &&& g.palb@ == seq![0u8, 0, 0, 0]
    &&& g.pal0@ == seq![0u8, 0, 0, 0]
    &&& g.pal1@ == seq![0u8, 0, 0, 0]
    &&& g.gbmode == GbMode::Classic
}

/// The GPU once the boot values are written: LCD control 0x91 (display and background on,
/// tiles from 0x8000, both maps at 0x9800), background palette 0xFC, sprite palettes 0xFF.
pub open spec fn booted(g: GPU) -> bool {
    &&& cleared_state(g)
    &&& g.lcd_on
    &&& g.win_tilemap == 0x9800
    &&& !g.win_on
    &&& g.tilebase == 0x8000
    &&& g.bg_tilemap == 0x9800
    &&& g.sprite_size == 8
    &&& !g.sprite_on
    &&& g.lcdc0
    &&& g.palbr == 0xFC
    &&& g.pal0r == 0xFF
    &&& g.pal1r == 0xFF
    &&& g.palb@ == Seq::new(4, |i: int| mono_shade(0xFC, i as u8))
    &&& g.pal0@ == Seq::new(4, |i: int| mono_shade(0xFF, i as u8))
    &&& g.pal1@ == Seq::new(4, |i: int| mono_shade(0xFF, i as u8))
}

impl GPU {
    pub open spec fn wf(&self) -> bool {
        &&& self.vram@.len() == VRAM_SIZE
        &&& self.voam@.len() == VOAM_SIZE
        &&& self.data@.len() == SCREEN_BYTES
        &&& self.bgprio@.len() == SCREEN_W
        &&& self.palb@.len() == 4
        &&& self.pal0@.len() == 4
        &&& self.pal1@.len() == 4
        &&& cpal_wf(self.cbgpal@)
        &&& cpal_wf(self.csprit@)
        &&& self.cbgpal_ind < 64
        &&& self.csprit_ind < 64
        &&& self.vrambank <= 1
        &&& self.line < 154
        &&& self.mode <= 3
        &&& (self.sprite_size == 8 || self.sprite_size == 16)
        &&& (self.tilebase == 0x8000 || self.tilebase == 0x8800)
        &&& (self.bg_tilemap == 0x9800 || self.bg_tilemap == 0x9C00)
        &&& (self.win_tilemap == 0x9800 || self.win_tilemap == 0x9C00)
    }

    pub fn new() -> (r: GPU)
        ensures
            r.wf(),
            power_on(r),
    {
        let r = GPU {
            mode: 0,
            modeclock: 0,
            line: 0,
            lyc: 0,
            lcd_on: false,
            win_tilemap: 0x9C00,
            win_on: false,
            tilebase: 0x8000,
            bg_tilemap: 0x9C00,
            sprite_size: 8,
            sprite_on: false,
            lcdc0: false,
            lyc_inte: false,
            m2_inte: false,
            m1_inte: false,
            m0_inte: false,
            scy: 0,
            scx: 0,
            winy: 0,
            winx: 0,
            palbr: 0,
            pal0r: 0,
            pal1r: 1,
            palb: vec![0u8, 0, 0, 0],
            pal0: vec![0u8, 0, 0, 0],
            pal1: vec![0u8, 0, 0, 0],
            vram: vec![0u8; VRAM_SIZE],
            voam: vec![0u8; VOAM_SIZE],
            data: vec![0u8; SCREEN_BYTES],
            bgprio: vec![PrioType::Normal; SCREEN_W],
            updated: false,
            interrupt: 0,
            gbmode: GbMode::Classic,
            cbgpal_inc: false,
            cbgpal_ind: 0,
            cbgpal: vec![0u8; CPAL_BYTES],
            csprit_inc: false,
            csprit_ind: 0,
            csprit: vec![0u8; CPAL_BYTES],
            vrambank: 0,
            hblanking: false,
        };
        assert(r.vram@ =~= Seq::new(VRAM_SIZE as nat, |i: int| 0u8));
        assert(r.voam@ =~= Seq::new(VOAM_SIZE as nat, |i: int| 0u8));
        assert(r.data@ =~= Seq::new(SCREEN_BYTES as nat, |i: int| 0u8));
        assert(r.bgprio@ =~= Seq::new(SCREEN_W as nat, |i: int| PrioType::Normal));
        assert(r.cbgpal@ =~= Seq::new(CPAL_BYTES as nat, |i: int| 0u8));
        assert(r.csprit@ =~= Seq::new(CPAL_BYTES as nat, |i: int| 0u8));
        assert(r.palb@ =~= seq![0u8, 0, 0, 0]);
        assert(r.pal0@ =~= seq![0u8, 0, 0, 0]);
        assert(r.pal1@ =~= seq![0u8, 0, 0, 0]);
        r
    }

    /// The colour model starts from the same state as the classic one.
    /// Whether a frame was completed since the last call; clears the mark.
    pub fn check_and_reset_updated(&mut self) -> (r: bool)
        requires
            old(self).wf(),
        ensures
            r == old(self).updated,
            *final(self) == (GPU { updated: false, ..*old(self) }),
            final(self).wf(),
    {
        let result = self.updated;
        self.updated = false;
        result
    }

    pub fn new_cgb() -> (r: GPU)
        ensures
            r.wf(),
            power_on(r),
    {
        GPU::new()
    }

    /// Whether a horizontal-blank DMA row may be copied now: a horizontal blank began
    /// during the last `cycle`.
    pub fn may_hdma(&self) -> (r: bool)
        ensures
            r == self.hblanking,
    {
        self.hblanking
    }

    /// The addresses whose reads the GPU serves.
    pub open spec fn reads(a: u16) -> bool {
        ||| 0x8000 <= a <= 0x9FFF
        ||| 0xFE00 <= a <= 0xFE9F
        ||| 0xFF40 <= a <= 0xFF4B
        ||| a == 0xFF4F
        ||| 0xFF68 <= a <= 0xFF6B
    }

    /// The addresses whose writes the GPU serves (OAM DMA at 0xFF46 is the MMU's).
    pub open spec fn writes(a: u16) -> bool {
        GPU::reads(a) && a != 0xFF46
    }

    /// The VRAM position that address `a` selects in the current bank.
    pub open spec fn vram_index(&self, a: u16) -> int {
        self.vrambank as int * 0x2000 + (a & 0x1FFF) as int
    }

    pub open spec fn spec_rb(&self, a: u16) -> u8 {
        if 0x8000 <= a <= 0x9FFF {
            self.vram@[self.vram_index(a)]
        } else if 0xFE00 <= a <= 0xFE9F {
            self.voam@[a - 0xFE00]
        } else if a == 0xFF40 {
            lcdc_value(*self)
        } else if a == 0xFF41 {
            stat_value(*self)
        } else if a == 0xFF42 {
            self.scy
        } else if a == 0xFF43 {
            self.scx
        } else if a == 0xFF44 {
            self.line
        } else if a == 0xFF45 {
            self.lyc
        } else if a == 0xFF46 {
            0
        } else if a == 0xFF47 {
            self.palbr
        } else if a == 0xFF48 {
            self.pal0r
        } else if a == 0xFF49 {
            self.pal1r
        } else if a == 0xFF4A {
            self.winy
        } else if a == 0xFF4B {
            self.winx
        } else if a == 0xFF4F {
            self.vrambank as u8
        } else if a == 0xFF68 {
            self.cbgpal_ind | (if self.cbgpal_inc { 0x80u8 } else { 0 })
        } else if a == 0xFF69 {
            cpal_read(self.cbgpal@, self.cbgpal_ind)
        } else if a == 0xFF6A {
            self.csprit_ind | (if self.csprit_inc { 0x80u8 } else { 0 })
        } else {
            cpal_read(self.csprit@, self.csprit_ind)
        }
    }

    fn cpal_rb(pal: &Vec<u8>, ind: u8) -> (r: u8)
        requires
            cpal_wf(pal@),
            ind < 64,
        ensures
            r == cpal_read(pal@, ind),
    {
        let b = ((ind >> 3) as usize) * 12 + (((ind >> 1) & 0x3) as usize) * 3;
        proof {
            lemma_cpal_index(ind);
        }
        if ind & 0x01 == 0x00 {
            pal[b] | ((pal[b + 1] & 0x07) << 5u8)
        } else {
            ((pal[b + 1] & 0x18) >> 3u8) | (pal[b + 2] << 2u8)
        }
    }

    pub fn rb(&self, a: u16) -> (r: u8)
        requires
            self.wf(),
            GPU::reads(a),
        ensures
            r == self.spec_rb(a),
    {
        if 0x8000 <= a && a <= 0x9FFF {
            proof {
                crate::bits::lemma_u16_bits(a);
            }
            self.vram[(self.vrambank as usize) * 0x2000 + ((a & 0x1FFF) as usize)]
        } else if 0xFE00 <= a && a <= 0xFE9F {
            self.voam[(a - 0xFE00) as usize]
        } else {
            match a {
                0xFF40 => {
                    (if self.lcd_on { 0x80 } else { 0 }) | (if self.win_tilemap == 0x9C00 {
                        0x40
                    } else {
                        0
                    }) | (if self.win_on { 0x20 } else { 0 }) | (if self.tilebase == 0x8000 {
                        0x10
                    } else {
                        0
                    }) | (if self.bg_tilemap == 0x9C00 { 0x08 } else { 0 }) | (
                    if self.sprite_size == 16 { 0x04 } else { 0 }) | (if self.sprite_on {
                        0x02
                    } else {
                        0
                    }) | (if self.lcdc0 { 0x01 } else { 0 })
                },
                0xFF41 => {
                    (if self.lyc_inte { 0x40 } else { 0 }) | (if self.m2_inte { 0x20 } else { 0 })
                        | (if self.m1_inte { 0x10 } else { 0 }) | (if self.m0_inte {
                        0x08
                    } else {
                        0
                    }) | (if self.line == self.lyc { 0x04 } else { 0 }) | self.mode
                },
                0xFF42 => self.scy,
                0xFF43 => self.scx,
                0xFF44 => self.line,
                0xFF45 => self.lyc,
                0xFF46 => 0,
                0xFF47 => self.palbr,
                0xFF48 => self.pal0r,
                0xFF49 => self.pal1r,
                0xFF4A => self.winy,
                0xFF4B => self.winx,
                0xFF4F => self.vrambank as u8,
                0xFF68 => self.cbgpal_ind | (if self.cbgpal_inc { 0x80 } else { 0 }),
                0xFF69 => GPU::cpal_rb(&self.cbgpal, self.cbgpal_ind),
                0xFF6A => self.csprit_ind | (if self.csprit_inc { 0x80 } else { 0 }),
                _ => GPU::cpal_rb(&self.csprit, self.csprit_ind),
            }
        }
    }

    /// Bank 0 of VRAM at the address.
    pub open spec fn spec_rbvram0(&self, a: u16) -> u8 {
        self.vram@[(a & 0x1FFF) as int]
    }

    /// Bank 1 of VRAM at the address.
    pub open spec fn spec_rbvram1(&self, a: u16) -> u8 {
        self.vram@[0x2000 + (a & 0x1FFF) as int]
    }

    pub fn rbvram0(&self, a: u16) -> (r: u8)
        requires
            self.vram@.len() == VRAM_SIZE,
        ensures
            r == self.spec_rbvram0(a),
    {
        proof {
            crate::bits::lemma_u16_bits(a);
        }
        self.vram[(a & 0x1FFF) as usize]
    }

    pub fn rbvram1(&self, a: u16) -> (r: u8)
        requires
            self.vram@.len() == VRAM_SIZE,
        ensures
            r == self.spec_rbvram1(a),
    {
        proof {
            crate::bits::lemma_u16_bits(a);
        }
        self.vram[0x2000 + (a & 0x1FFF) as usize]
    }

    fn cpal_wb(pal: &mut Vec<u8>, ind: u8, v: u8)
        requires
            cpal_wf(old(pal)@),
            ind < 64,
        ensures
            final(pal)@ == cpal_write(old(pal)@, ind, v),
            cpal_wf(final(pal)@),
    {
        let b = ((ind >> 3) as usize) * 12 + (((ind >> 1) & 0x3) as usize) * 3;
        proof {
            lemma_cpal_index(ind);
        }
        if ind & 0x01 == 0x00 {
            let p1 = pal[b + 1];
            pal.set(b, v & 0x1F);
            pal.set(b + 1, (p1 & 0x18) | (v >> 5u8));
            proof {
                lemma_cpal_bits(p1, v);
            }
        } else {
            let p1 = pal[b + 1];
            pal.set(b + 1, (p1 & 0x07) | ((v & 0x3) << 3u8));
            pal.set(b + 2, (v >> 2u8) & 0x1F);
            proof {
                lemma_cpal_bits(p1, v);
            }
        }
    }

    /// The GPU after a write of `v` to `a`, apart from palette-register writes,
    /// which also recompute the classic palettes (see `update_pal`).
    pub open spec fn wb_post(old: GPU, new: GPU, a: u16, v: u8) -> bool {
        if 0x8000 <= a <= 0x9FFF {
            new == GPU { vram: new.vram, ..old } && new.vram@ == old.vram@.update(
                old.vram_index(a),
                v,
            )
        } else if 0xFE00 <= a <= 0xFE9F {
            new == GPU { voam: new.voam, ..old } && new.voam@ == old.voam@.update(a - 0xFE00, v)
        } else if a == 0xFF40 {
            let lcd_on = v & 0x80 == 0x80;
            let turned_off = old.lcd_on && !lcd_on;
            new == GPU {
                lcd_on,
                win_tilemap: if v & 0x40 == 0x40 { 0x9C00 } else { 0x9800 },
                win_on: v & 0x20 == 0x20,
                tilebase: if v & 0x10 == 0x10 { 0x8000 } else { 0x8800 },
                bg_tilemap: if v & 0x08 == 0x08 { 0x9C00 } else { 0x9800 },
                sprite_size: if v & 0x04 == 0x04 { 16 } else { 8 },
                sprite_on: v & 0x02 == 0x02,
                lcdc0: v & 0x01 == 0x01,
                modeclock: if turned_off { 0 } else { old.modeclock },
                line: if turned_off { 0 } else { old.line },
                mode: if turned_off { 0 } else { old.mode },
                ..old
            }
        } else if a == 0xFF41 {
            new == GPU {
                lyc_inte: v & 0x40 == 0x40,
                m2_inte: v & 0x20 == 0x20,
                m1_inte: v & 0x10 == 0x10,
                m0_inte: v & 0x08 == 0x08,
                ..old
            }
        } else if a == 0xFF42 {
            new == GPU { scy: v, ..old }
        } else if a == 0xFF43 {
            new == GPU { scx: v, ..old }
        } else if a == 0xFF44 {
            new == old
        } else if a == 0xFF45 {
            new == GPU { lyc: v, ..old }
        } else if a == 0xFF47 || a == 0xFF48 || a == 0xFF49 {
            let palbr = if a == 0xFF47 { v } else { old.palbr };
            let pal0r = if a == 0xFF48 { v } else { old.pal0r };
            let pal1r = if a == 0xFF49 { v } else { old.pal1r };
            &&& new == GPU { palbr, pal0r, pal1r, palb: new.palb, pal0: new.pal0, pal1: new.pal1, ..old }
            &&& new.palb@ == Seq::new(4, |i: int| mono_shade(palbr, i as u8))
            &&& new.pal0@ == Seq::new(4, |i: int| mono_shade(pal0r, i as u8))
            &&& new.pal1@ == Seq::new(4, |i: int| mono_shade(pal1r, i as u8))
        } else if a == 0xFF4A {
            new == GPU { winy: v, ..old }
        } else if a == 0xFF4B {
            new == GPU { winx: v, ..old }
        } else if a == 0xFF4F {
            new == GPU { vrambank: (v & 0x01) as u16, ..old }
        } else if a == 0xFF68 {
            new == GPU { cbgpal_ind: v & 0x3F, cbgpal_inc: v & 0x80 == 0x80, ..old }
        } else if a == 0xFF69 {
            &&& new == GPU {
                cbgpal: new.cbgpal,
                cbgpal_ind: cpal_next_ind(old.cbgpal_ind, old.cbgpal_inc),
                ..old
            }
            &&& new.cbgpal@ == cpal_write(old.cbgpal@, old.cbgpal_ind, v)
        } else if a == 0xFF6A {
            new == GPU { csprit_ind: v & 0x3F, csprit_inc: v & 0x80 == 0x80, ..old }
        } else {
            &&& new == GPU {
                csprit: new.csprit,
                csprit_ind: cpal_next_ind(old.csprit_ind, old.csprit_inc),
                ..old
            }
            &&& new.csprit@ == cpal_write(old.csprit@, old.csprit_ind, v)
        }
    }

    fn wb_lcdc(&mut self, v: u8)
        requires
            old(self).wf(),
        ensures
            GPU::wb_post(*old(self), *final(self), 0xFF40, v),
            final(self).wf(),
    {
        let orig_lcd_on = self.lcd_on;
        self.lcd_on = v & 0x80 == 0x80;
        self.win_tilemap = if v & 0x40 == 0x40 { 0x9C00 } else { 0x9800 };
        self.win_on = v & 0x20 == 0x20;
        self.tilebase = if v & 0x10 == 0x10 { 0x8000 } else { 0x8800 };
        self.bg_tilemap = if v & 0x08 == 0x08 { 0x9C00 } else { 0x9800 };
        self.sprite_size = if v & 0x04 == 0x04 { 16 } else { 8 };
        self.sprite_on = v & 0x02 == 0x02;
        self.lcdc0 = v & 0x01 == 0x01;
        if orig_lcd_on && !self.lcd_on {
            self.modeclock = 0;
            self.line = 0;
            self.mode = 0;
        }
    }

    fn wb_cbgpal(&mut self, v: u8)
        requires
            old(self).wf(),
        ensures
            GPU::wb_post(*old(self), *final(self), 0xFF69, v),
            final(self).wf(),
    {
        GPU::cpal_wb(&mut self.cbgpal, self.cbgpal_ind, v);
        if self.cbgpal_inc {
            self.cbgpal_ind = (self.cbgpal_ind + 1) & 0x3F;
            let ghost i = old(self).cbgpal_ind;
            proof {
                crate::bits::lemma_u8_bits((i + 1) as u8);
            }
        }
    }

    fn wb_csprit(&mut self, v: u8)
        requires
            old(self).wf(),
        ensures
            GPU::wb_post(*old(self), *final(self), 0xFF6B, v),
            final(self).wf(),
    {
        GPU::cpal_wb(&mut self.csprit, self.csprit_ind, v);
        if self.csprit_inc {
            self.csprit_ind = (self.csprit_ind + 1) & 0x3F;
            let ghost i = old(self).csprit_ind;
            proof {
                crate::bits::lemma_u8_bits((i + 1) as u8);
            }
        }
    }

    fn wb_vram(&mut self, a: u16, v: u8)
        requires
            old(self).wf(),
            0x8000 <= a <= 0x9FFF,
        ensures
            GPU::wb_post(*old(self), *final(self), a, v),
            final(self).wf(),
    {
        proof {
            crate::bits::lemma_u16_bits(a);
        }
        let idx = (self.vrambank as usize) * 0x2000 + ((a & 0x1FFF) as usize);
        self.vram.set(idx, v);
    }

    fn wb_oam(&mut self, a: u16, v: u8)
        requires
            old(self).wf(),
            0xFE00 <= a <= 0xFE9F,
        ensures
            GPU::wb_post(*old(self), *final(self), a, v),
            final(self).wf(),
    {
        self.voam.set((a - 0xFE00) as usize, v);
    }

    fn wb_pal_reg(&mut self, a: u16, v: u8)
        requires
            old(self).wf(),
            a == 0xFF47 || a == 0xFF48 || a == 0xFF49,
        ensures
            GPU::wb_post(*old(self), *final(self), a, v),
            final(self).wf(),
    {
        if a == 0xFF47 {
            self.palbr = v;
        } else if a == 0xFF48 {
            self.pal0r = v;
        } else {
            self.pal1r = v;
        }
        self.update_pal();
    }

    fn wb_byte_reg(&mut self, a: u16, v: u8)
        requires
            old(self).wf(),
            a == 0xFF42 || a == 0xFF43 || a == 0xFF44 || a == 0xFF45 || a == 0xFF4A || a == 0xFF4B,
        ensures
            GPU::wb_post(*old(self), *final(self), a, v),
            final(self).wf(),
    {
        match a {
            0xFF42 => self.scy = v,
            0xFF43 => self.scx = v,
            0xFF44 => {},
            0xFF45 => self.lyc = v,
            0xFF4A => self.winy = v,
            _ => self.winx = v,
        }
    }

    fn wb_ctrl_reg(&mut self, a: u16, v: u8)
        requires
            old(self).wf(),
            a == 0xFF41 || a == 0xFF4F || a == 0xFF68 || a == 0xFF6A,
        ensures
            GPU::wb_post(*old(self), *final(self), a, v),
            final(self).wf(),
    {
        if a == 0xFF41 {
            self.lyc_inte = v & 0x40 == 0x40;
            self.m2_inte = v & 0x20 == 0x20;
            self.m1_inte = v & 0x10 == 0x10;
            self.m0_inte = v & 0x08 == 0x08;
        } else if a == 0xFF4F {
            self.vrambank = (v & 0x01) as u16;
            proof {
                crate::bits::lemma_u8_bits(v);
            }
        } else if a == 0xFF68 {
            self.cbgpal_ind = v & 0x3F;
            self.cbgpal_inc = v & 0x80 == 0x80;
            proof {
                crate::bits::lemma_u8_bits(v);
            }
        } else {
            self.csprit_ind = v & 0x3F;
            self.csprit_inc = v & 0x80 == 0x80;
            proof {
                crate::bits::lemma_u8_bits(v);
            }
        }
    }

    pub fn wb(&mut self, a: u16, v: u8)
        requires
            old(self).wf(),
            GPU::writes(a),
        ensures
            GPU::wb_post(*old(self), *final(self), a, v),
            final(self).wf(),
    {
        if 0x8000 <= a && a <= 0x9FFF {
            self.wb_vram(a, v);
        } else if 0xFE00 <= a && a <= 0xFE9F {
            self.wb_oam(a, v);
        } else if a == 0xFF40 {
            self.wb_lcdc(v);
        } else if a == 0xFF47 || a == 0xFF48 || a == 0xFF49 {
            self.wb_pal_reg(a, v);
        } else if a == 0xFF42 || a == 0xFF43 || a == 0xFF44 || a == 0xFF45 || a == 0xFF4A || a == 0xFF4B {
            self.wb_byte_reg(a, v);
        } else if a == 0xFF69 {
            self.wb_cbgpal(v);
        } else if a == 0xFF6B {
            self.wb_csprit(v);
        } else {
            self.wb_ctrl_reg(a, v);
        }
    }

    /// Recomputes the grey levels of the three classic palettes from their registers.
    pub fn update_pal(&mut self)
        requires
            old(self).wf(),
        ensures
            *final(self) == (GPU {
                palb: final(self).palb,
                pal0: final(self).pal0,
                pal1: final(self).pal1,
                ..*old(self)
            }),
            final(self).palb@ == Seq::new(4, |i: int| mono_shade(old(self).palbr, i as u8)),
            final(self).pal0@ == Seq::new(4, |i: int| mono_shade(old(self).pal0r, i as u8)),
            final(self).pal1@ == Seq::new(4, |i: int| mono_shade(old(self).pal1r, i as u8)),
            final(self).wf(),
    {
        let mut i: u8 = 0;
        while i < 4
            invariant
                0 <= i <= 4,
                old(self).wf(),
                *self == (GPU { palb: self.palb, pal0: self.pal0, pal1: self.pal1, ..*old(self) }),
                self.palb@.len() == 4,
                self.pal0@.len() == 4,
                self.pal1@.len() == 4,
                forall|j: int| 0 <= j < i ==> self.palb@[j] == #[trigger] mono_shade(self.palbr, j as u8),
                forall|j: int| 0 <= j < i ==> self.pal0@[j] == #[trigger] mono_shade(self.pal0r, j as u8),
                forall|j: int| 0 <= j < i ==> self.pal1@[j] == #[trigger] mono_shade(self.pal1r, j as u8),
            decreases 4 - i,
        {
            let vb = GPU::get_monochrome_pal_val(self.palbr, i);
            let v0 = GPU::get_monochrome_pal_val(self.pal0r, i);
            let v1 = GPU::get_monochrome_pal_val(self.pal1r, i);
            self.palb.set(i as usize, vb);
            self.pal0.set(i as usize, v0);
            self.pal1.set(i as usize, v1);
            i = i + 1;
        }
        assert forall|j: int| 0 <= j < 4 implies self.palb@[j] == mono_shade(old(self).palbr, j as u8)
            && self.pal0@[j] == mono_shade(old(self).pal0r, j as u8)
            && self.pal1@[j] == mono_shade(old(self).pal1r, j as u8) by {
            assert(self.palb@[j] == mono_shade(self.palbr, j as u8));
            assert(self.pal0@[j] == mono_shade(self.pal0r, j as u8));
            assert(self.pal1@[j] == mono_shade(self.pal1r, j as u8));
        }
        assert(self.palb@ =~= Seq::new(4, |i: int| mono_shade(old(self).palbr, i as u8)));
        assert(self.pal0@ =~= Seq::new(4, |i: int| mono_shade(old(self).pal0r, i as u8)));
        assert(self.pal1@ =~= Seq::new(4, |i: int| mono_shade(old(self).pal1r, i as u8)));
    }

    /// The grey level of colour `index` (0 to 3) in a classic palette register.
    pub fn get_monochrome_pal_val(value: u8, index: u8) -> (r: u8)
        requires
            index < 4,
        ensures
            r == mono_shade(value, index),
    {
        match (value >> (2 * index)) & 0x03 {
            0 => 255,
            1 => 192,
            2 => 96,
            _ => 0,
        }
    }
}

/// A byte written to a colour palette through the data register reads back unchanged
/// when it went to the low half of a colour; a high half keeps its low seven bits.
pub proof fn lemma_cpal_roundtrip(pal: Seq<u8>, ind: u8, v: u8)
    requires
        cpal_wf(pal),
        ind < 64,
    ensures
        cpal_read(cpal_write(pal, ind, v), ind) == (if ind & 0x01 == 0 { v } else { v & 0x7F }),
        cpal_wf(cpal_write(pal, ind, v)),
{
    let b = cpal_base(ind);
    lemma_cpal_index(ind);
    let p1 = pal[b + 1];
    lemma_cpal_bits(p1, v);
}

/// Where a palette index points: palette (bits 3 to 5) and colour (bits 1 and 2).
proof fn lemma_cpal_index(ind: u8)
    requires
        ind < 64,
    ensures
        (ind >> 3) < 8,
        ((ind >> 1) & 0x3) < 4,
{
    crate::bits::lemma_u8_bits(ind);
    crate::bits::lemma_u8_bits(ind >> 1);
}

/// The five-bit fields that a palette write stores, and what they read back as.
proof fn lemma_cpal_bits(p1: u8, v: u8)
    by (bit_vector)
    ensures
        v & 0x1F <= 0x1F,
        p1 <= 0x1F ==> (p1 & 0x18) | (v >> 5u8) <= 0x1F,
        (p1 & 0x07) | ((v & 0x3) << 3u8) <= 0x1F,
        (v >> 2u8) & 0x1F <= 0x1F,
        p1 <= 0x1F ==> (v & 0x1F) | ((((p1 & 0x18) | (v >> 5u8)) & 0x07) << 5u8) == v,
        ((((p1 & 0x07) | ((v & 0x3) << 3u8)) & 0x18) >> 3u8) | (((v >> 2u8) & 0x1F) << 2u8) == v & 0x7F,
{
}

/// A write to the LCD control register reads back as the value written.
pub proof fn lemma_lcdc_roundtrip(old: GPU, new: GPU, v: u8)
    requires
        GPU::wb_post(old, new, 0xFF40, v),
    ensures
        new.spec_rb(0xFF40) == v,
{
    let b7 = new.lcd_on;
    let b6 = new.win_tilemap == 0x9C00;
    let b5 = new.win_on;
    let b4 = new.tilebase == 0x8000;
    let b3 = new.bg_tilemap == 0x9C00;
    let b2 = new.sprite_size == 16;
    let b1 = new.sprite_on;
    let b0 = new.lcdc0;
    assert((if b7 { 0x80u8 } else { 0 }) | (if b6 { 0x40u8 } else { 0 }) | (if b5 { 0x20u8 } else { 0 })
        | (if b4 { 0x10u8 } else { 0 }) | (if b3 { 0x08u8 } else { 0 }) | (if b2 { 0x04u8 } else { 0 })
        | (if b1 { 0x02u8 } else { 0 }) | (if b0 { 0x01u8 } else { 0 }) == v) by (bit_vector)
        requires
            b7 == (v & 0x80 == 0x80),
            b6 == (v & 0x40 == 0x40),
            b5 == (v & 0x20 == 0x20),
            b4 == (v & 0x10 == 0x10),
            b3 == (v & 0x08 == 0x08),
            b2 == (v & 0x04 == 0x04),
            b1 == (v & 0x02 == 0x02),
            b0 == (v & 0x01 == 0x01),
    ;
}

/// A byte written to video memory reads back from the same address and bank.
pub proof fn lemma_vram_roundtrip(old: GPU, new: GPU, a: u16, v: u8)
    requires
        old.wf(),
        0x8000 <= a <= 0x9FFF,
        GPU::wb_post(old, new, a, v),
    ensures
        new.spec_rb(a) == v,
{
    crate::bits::lemma_u16_bits(a);
}

/// Where a colour palette write lands, in the layout that drawing reads (colour `c` of
/// palette `p` at `p * 12 + c * 3`, its red, green and blue five-bit components in that
/// order): an even index `ind` selects the low byte of colour `(ind / 2) mod 4` of palette
/// `ind / 8`, whose five low bits are red and three high bits the low bits of green; an odd
/// index the high byte, whose two low bits are the high bits of green and bits 2 to 6 blue.
/// No other byte changes.
pub proof fn lemma_cpal_write_layout(pal: Seq<u8>, ind: u8, v: u8)
    requires
        cpal_wf(pal),
        ind < 64,
    ensures
        ({
            let c = (ind / 8) * 12 + ((ind / 2) % 4) * 3;
            let w = cpal_write(pal, ind, v);
            &&& w.len() == pal.len()
            &&& ind % 2 == 0 ==> {
                &&& w[c] == v % 32
                &&& w[c + 1] == (pal[c + 1] / 8) * 8 + v / 32
                &&& w[c + 2] == pal[c + 2]
            }
            &&& ind % 2 == 1 ==> {
                &&& w[c] == pal[c]
                &&& w[c + 1] == pal[c + 1] % 8 + (v % 4) * 8
                &&& w[c + 2] == (v / 4) % 32
            }
            &&& forall|i: int| 0 <= i < pal.len() && (i < c || i > c + 2) ==> #[trigger] w[i] == pal[i]
        }),
{
    let b = cpal_base(ind);
    lemma_cpal_index(ind);
    crate::bits::lemma_u8_bits(ind);
    crate::bits::lemma_u8_bits(ind >> 1);
    crate::bits::lemma_u8_bits(v);
    let p1 = pal[b + 1];
    lemma_cpal_fields(p1, v);
}

/// The palette byte fields as quotients and remainders.
proof fn lemma_cpal_fields(p1: u8, v: u8)
    by (bit_vector)
    requires
        p1 <= 0x1F,
    ensures
        (p1 & 0x18) | (v >> 5u8) == (p1 / 8) * 8 + v / 32,
        (p1 & 0x07) | ((v & 0x3) << 3u8) == p1 % 8 + (v % 4) * 8,
        (v >> 2u8) & 0x1F == (v / 4) % 32,
{
}

/// The grey level that a two-bit shade number selects: white, light grey, dark grey, black.
pub open spec fn grey_of(shade: int) -> u8 {
    if shade == 0 {
        255
    } else if shade == 1 {
        192
    } else if shade == 2 {
        96
    } else {
        0
    }
}

/// The shade number that a classic palette register `r` gives colour `c` (0 to 3): bits
/// `2c` and `2c + 1` of `r`.
pub open spec fn shade_field(r: u8, c: int) -> int {
    if c == 0 {
        r as int % 4
    } else if c == 1 {
        (r as int / 4) % 4
    } else if c == 2 {
        (r as int / 16) % 4
    } else {
        r as int / 64
    }
}

/// The LCD control register: after a write of `v` to 0xFF40, bit 7 switches the LCD on,
/// bit 6 selects the window tile map at 0x9C00 (else 0x9800), bit 5 shows the window,
/// bit 4 selects tile data at 0x8000 (else 0x8800, signed), bit 3 the background tile map
/// at 0x9C00, bit 2 sprites of 8x16 pixels (else 8x8), bit 1 shows sprites, and bit 0 is
/// the background enable (the priority flag on the colour model).
pub proof fn lemma_lcdc_fields(old: GPU, new: GPU, v: u8)
    requires
        GPU::wb_post(old, new, 0xFF40, v),
    ensures
        new.lcd_on == ((v / 128) % 2 == 1),
        new.win_tilemap == (if (v / 64) % 2 == 1 { 0x9C00u16 } else { 0x9800u16 }),
        new.win_on == ((v / 32) % 2 == 1),
        new.tilebase == (if (v / 16) % 2 == 1 { 0x8000u16 } else { 0x8800u16 }),
        new.bg_tilemap == (if (v / 8) % 2 == 1 { 0x9C00u16 } else { 0x9800u16 }),
        new.sprite_size == (if (v / 4) % 2 == 1 { 16int } else { 8int }),
        new.sprite_on == ((v / 2) % 2 == 1),
        new.lcdc0 == (v % 2 == 1),
{
    crate::bits::lemma_u8_bits(v);
}

/// The classic palette registers: after a write of `v` to 0xFF47 (background), 0xFF48 or
/// 0xFF49 (sprite palettes 0 and 1), colour `c` of that palette is the grey level of shade
/// number `shade_field(v, c)`; the other two palettes keep their values.
pub proof fn lemma_mono_palettes(old: GPU, new: GPU, a: u16, v: u8, c: int)
    requires
        a == 0xFF47 || a == 0xFF48 || a == 0xFF49,
        0 <= c < 4,
        GPU::wb_post(old, new, a, v),
    ensures
        a == 0xFF47 ==> new.palb@[c] == grey_of(shade_field(v, c)) && new.pal0@[c] == grey_of(shade_field(old.pal0r, c))
            && new.pal1@[c] == grey_of(shade_field(old.pal1r, c)),
        a == 0xFF48 ==> new.pal0@[c] == grey_of(shade_field(v, c)) && new.palb@[c] == grey_of(shade_field(old.palbr, c))
            && new.pal1@[c] == grey_of(shade_field(old.pal1r, c)),
        a == 0xFF49 ==> new.pal1@[c] == grey_of(shade_field(v, c)) && new.palb@[c] == grey_of(shade_field(old.palbr, c))
            && new.pal0@[c] == grey_of(shade_field(old.pal0r, c)),
{
    lemma_mono_shade_field(v, c);
    lemma_mono_shade_field(old.palbr, c);
    lemma_mono_shade_field(old.pal0r, c);
    lemma_mono_shade_field(old.pal1r, c);
}

/// `mono_shade` is the grey level of the shade field.
proof fn lemma_mono_shade_field(r: u8, c: int)
    requires
        0 <= c < 4,
    ensures
        mono_shade(r, c as u8) == grey_of(shade_field(r, c)),
{
    crate::bits::lemma_u8_bits(r);
    crate::bits::lemma_u8_bits(r >> 2u8);
    crate::bits::lemma_u8_bits(r >> 4u8);
    crate::bits::lemma_u8_bits(r >> 6u8);
    assert(r >> 0u8 == r && (r >> 6u8) & 0x03 == r >> 6u8) by (bit_vector);
}

/// What the LCD status register reads: the current mode in bits 0 and 1, the coincidence of
/// the line with LYC in bit 2, and the interrupt enables for H-blank (bit 3), V-blank
/// (bit 4), OAM search (bit 5) and coincidence (bit 6).
pub proof fn lemma_stat_read(g: GPU)
    requires
        g.wf(),
    ensures
        g.spec_rb(0xFF41) % 4 == g.mode,
        ((g.spec_rb(0xFF41) / 4) % 2 == 1) == (g.line == g.lyc),
        ((g.spec_rb(0xFF41) / 8) % 2 == 1) == g.m0_inte,
        ((g.spec_rb(0xFF41) / 16) % 2 == 1) == g.m1_inte,
        ((g.spec_rb(0xFF41) / 32) % 2 == 1) == g.m2_inte,
        ((g.spec_rb(0xFF41) / 64) % 2 == 1) == g.lyc_inte,
{
    let b6 = g.lyc_inte;
    let b5 = g.m2_inte;
    let b4 = g.m1_inte;
    let b3 = g.m0_inte;
    let b2 = g.line == g.lyc;
    let m = g.mode;
    let x = stat_value(g);
    assert({
        let y = (if b6 { 0x40u8 } else { 0 }) | (if b5 { 0x20u8 } else { 0 }) | (if b4 { 0x10u8 } else { 0 }) | (
        if b3 { 0x08u8 } else { 0 }) | (if b2 { 0x04u8 } else { 0 }) | m;
        &&& y % 4 == m
        &&& ((y / 4) % 2 == 1) == b2
        &&& ((y / 8) % 2 == 1) == b3
        &&& ((y / 16) % 2 == 1) == b4
        &&& ((y / 32) % 2 == 1) == b5
        &&& ((y / 64) % 2 == 1) == b6
    }) by (bit_vector)
        requires
            m <= 3,
    ;
}

/// The video RAM banks: 0xFF4F selects bank `v mod 2`; 0x8000 - 0x9FFF then reads and writes
/// byte `bank * 0x2000 + (a mod 0x2000)` of video memory, so that what drawing takes from
/// bank 0 and bank 1 is what was written under each bank.
pub proof fn lemma_vram_banks(g: GPU, s: GPU, v: u8, old: GPU, new: GPU, a: u16, x: u8)
    requires
        GPU::wb_post(g, s, 0xFF4F, v),
        old.wf(),
        0x8000 <= a <= 0x9FFF,
        GPU::wb_post(old, new, a, x),
    ensures
        s == (GPU { vrambank: s.vrambank, ..g }),
        s.vrambank == v % 2,
        old.spec_rb(a) == old.vram@[old.vrambank * 0x2000 + a % 0x2000],
        new.vram@ == old.vram@.update(old.vrambank * 0x2000 + a % 0x2000, x),
        old.vrambank == 0 ==> new.spec_rbvram0(a) == x && new.spec_rbvram1(a) == old.spec_rbvram1(a),
        old.vrambank == 1 ==> new.spec_rbvram1(a) == x && new.spec_rbvram0(a) == old.spec_rbvram0(a),
{
    crate::bits::lemma_u8_bits(v);
    crate::bits::lemma_u16_bits(a);
}

} // verus!
