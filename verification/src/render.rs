use vstd::prelude::*;
use crate::gbmode::GbMode;
use crate::gpu::{cpal_wf, GPU, PrioType, SCREEN_BYTES, SCREEN_W};

verus! {

/// What a tile map gives for one pixel: the colour number (0 to 3) within the tile, the
/// colour palette number, and whether the tile has priority over sprites.
pub struct TilePixel {
    pub colnr: u8,
    pub palnr: u8,
    pub prio: bool,
}

/// The position in the screen buffer of the first byte of line `line`.
pub open spec fn line_base(line: u8) -> int {
    line as int * 480
}

/// Whether screen byte `i` belongs to line `line`.
pub open spec fn in_line(i: int, line: u8) -> bool {
    line_base(line) <= i < line_base(line) + 480
}

/// The pixel column of screen byte `i` on line `line`.
pub open spec fn col_of(i: int, line: u8) -> int {
    (i - line_base(line)) / 3
}

/// The colour component (0 red, 1 green, 2 blue) of screen byte `i`.
pub open spec fn comp_of(i: int, line: u8) -> int {
    (i - line_base(line)) % 3
}

/// Bit `i` of `b`, as a number 0 or 1.
pub open spec fn bit_of(b: u8, i: u8) -> u8 {
    if b & (1u8 << i) != 0 { 1 } else { 0 }
}

/// The address of the first byte of tile `tilenr` under the GPU's tile addressing mode:
/// unsigned numbers from 0x8000, or signed numbers around 0x9000 (from 0x8800).
pub open spec fn tile_address(g: GPU, tilenr: u8) -> u16 {
    if g.tilebase == 0x8000 {
        (0x8000 + tilenr as int * 16) as u16
    } else {
        (0x8800 + (crate::isa::signed8(tilenr) + 128) * 16) as u16
    }
}

/// The pixel at row `ly` and column `lx` of the 256x256 layer drawn from the tile map at `map`.
/// On the colour model the second VRAM bank holds each tile's attributes: palette (bits 0-2),
/// bank of the tile data (bit 3), horizontal and vertical flip (bits 5, 6), priority (bit 7).
pub open spec fn tile_pixel(g: GPU, map: u16, ly: u32, lx: u32) -> TilePixel {
    let tiley = (ly as int / 8) % 32;
    let tilex = (lx as int / 8) % 32;
    let maddr = (map as int + tiley * 32 + tilex) as u16;
    let tilenr = g.spec_rbvram0(maddr);
    let color = g.gbmode == GbMode::Color;
    let flags: u8 = if color { g.spec_rbvram1(maddr) } else { 0 };
    let palnr = flags & 0x07;
    let bank1 = flags & 0x08 != 0;
    let xflip = flags & 0x20 != 0;
    let yflip = flags & 0x40 != 0;
    let prio = flags & 0x80 != 0;
    let row = (ly as int % 8) * 2;
    let a0 = (tile_address(g, tilenr) as int + if yflip { 14 - row } else { row }) as u16;
    let a1 = (a0 + 1) as u16;
    let b1 = if bank1 { g.spec_rbvram1(a0) } else { g.spec_rbvram0(a0) };
    let b2 = if bank1 { g.spec_rbvram1(a1) } else { g.spec_rbvram0(a1) };
    let xbit: u8 = if xflip { (lx % 8) as u8 } else { (7 - lx % 8) as u8 };
    TilePixel { colnr: (bit_of(b1, xbit) + 2 * bit_of(b2, xbit)) as u8, palnr, prio }
}

/// How a background or window pixel ranks against sprites.
pub open spec fn prio_of(p: TilePixel) -> PrioType {
    if p.prio {
        PrioType::PrioFlag
    } else if p.colnr == 0 {
        PrioType::Color0
    } else {
        PrioType::Normal
    }
}

/// Colour component `k` of a tile pixel: on the colour model from the background colour
/// palettes (five bits scaled to eight), otherwise the grey level from the classic palette.
pub open spec fn layer_comp(g: GPU, p: TilePixel, k: int) -> u8 {
    if g.gbmode == GbMode::Color {
        (g.cbgpal@[p.palnr as int * 12 + p.colnr as int * 3 + k] * 8 + 7) as u8
    } else {
        g.palb@[p.colnr as int]
    }
}

/// Whether the background is drawn.
pub open spec fn bg_on(g: GPU) -> bool {
    g.gbmode == GbMode::Color || g.lcdc0
}

/// The background pixel at screen column `x` of the current line.
pub open spec fn bg_pixel(g: GPU, x: int) -> TilePixel {
    tile_pixel(g, g.bg_tilemap, ((g.scy as int + g.line as int) % 256) as u32, (g.scx as int + x) as u32)
}

/// The screen buffer after the background of the current line was drawn over `d`,
/// for the columns below `upto`.
pub open spec fn bg_data_upto(g: GPU, d: Seq<u8>, upto: int) -> Seq<u8> {
    Seq::new(
        d.len(),
        |i: int|
            if bg_on(g) && in_line(i, g.line) && col_of(i, g.line) < upto {
                layer_comp(g, bg_pixel(g, col_of(i, g.line)), comp_of(i, g.line))
            } else {
                d[i]
            },
    )
}

pub open spec fn bg_prio_upto(g: GPU, p: Seq<PrioType>, upto: int) -> Seq<PrioType> {
    Seq::new(p.len(), |x: int| if bg_on(g) && x < upto { prio_of(bg_pixel(g, x)) } else { p[x] })
}

/// Whether the window is drawn on the current line.
pub open spec fn win_on(g: GPU) -> bool {
    g.win_on && !(g.gbmode != GbMode::Classic && !g.lcdc0) && g.line >= g.winy
}

/// The window column that screen column `x` shows; negative left of the window.
pub open spec fn win_col(g: GPU, x: int) -> int {
    x + 7 - g.winx as int
}

pub open spec fn win_pixel(g: GPU, x: int) -> TilePixel {
    tile_pixel(g, g.win_tilemap, (g.line - g.winy) as u32, win_col(g, x) as u32)
}

pub open spec fn win_data_upto(g: GPU, d: Seq<u8>, upto: int) -> Seq<u8> {
    Seq::new(
        d.len(),
        |i: int|
            if win_on(g) && in_line(i, g.line) && col_of(i, g.line) < upto && win_col(g, col_of(i, g.line))
                >= 0 {
                layer_comp(g, win_pixel(g, col_of(i, g.line)), comp_of(i, g.line))
            } else {
                d[i]
            },
    )
}

pub open spec fn win_prio_upto(g: GPU, p: Seq<PrioType>, upto: int) -> Seq<PrioType> {
    Seq::new(
        p.len(),
        |x: int| if win_on(g) && x < upto && win_col(g, x) >= 0 { prio_of(win_pixel(g, x)) } else { p[x] },
    )
}

/// The attributes of sprite `n` in object attribute memory.
pub struct Sprite {
    pub y: int,
    pub x: int,
    pub tile: u8,
    pub flags: u8,
}

pub open spec fn sprite(g: GPU, n: int) -> Sprite {
    Sprite {
        y: g.voam@[n * 4] as int - 16,
        x: g.voam@[n * 4 + 1] as int - 8,
        tile: g.voam@[n * 4 + 2] & (if g.sprite_size == 16 { 0xFEu8 } else { 0xFFu8 }),
        flags: g.voam@[n * 4 + 3],
    }
}

/// Whether sprite `s` covers the current line.
pub open spec fn sprite_on_line(g: GPU, s: Sprite) -> bool {
    s.y <= g.line < s.y + g.sprite_size && -7 <= s.x < SCREEN_W
}

/// The address of the first of the two bytes of sprite `s`'s row on the current line.
pub open spec fn sprite_row_addr(g: GPU, s: Sprite) -> u16 {
    let yflip = s.flags & 0x40 != 0;
    let ty = if yflip { g.sprite_size - 1 - (g.line - s.y) } else { g.line - s.y };
    (0x8000 + s.tile as int * 16 + ty * 2) as u16
}

/// Byte `o` (0 or 1) of sprite `s`'s row on the current line; on the colour model, flag
/// bit 3 selects the second VRAM bank.
pub open spec fn sprite_byte(g: GPU, s: Sprite, o: int) -> u8 {
    let addr = (sprite_row_addr(g, s) + o) as u16;
    if s.flags & 0x08 != 0 && g.gbmode == GbMode::Color {
        g.spec_rbvram1(addr)
    } else {
        g.spec_rbvram0(addr)
    }
}

/// The colour number (0 meaning transparent) of sprite `s` at column `x` of its 8 pixels
/// on the current line.
pub open spec fn sprite_colnr(g: GPU, s: Sprite, x: int) -> u8 {
    let xflip = s.flags & 0x20 != 0;
    let xbit = if xflip { x as u8 } else { (7 - x) as u8 };
    (bit_of(sprite_byte(g, s, 0), xbit) + 2 * bit_of(sprite_byte(g, s, 1), xbit)) as u8
}

/// Whether sprite `s` shows its pixel at screen column `px`, given the background ranks `p`:
/// on the line, within the screen, not transparent, and not hidden behind the background.
pub open spec fn sprite_shows(g: GPU, p: Seq<PrioType>, s: Sprite, px: int) -> bool {
    let x = px - s.x;
    let belowbg = s.flags & 0x80 != 0;
    &&& sprite_on_line(g, s)
    &&& 0 <= x < 8
    &&& 0 <= px < SCREEN_W
    &&& sprite_colnr(g, s, x) != 0
    &&& if g.gbmode == GbMode::Color {
        !(g.lcdc0 && (p[px] == PrioType::PrioFlag || (belowbg && p[px] != PrioType::Color0)))
    } else {
        !(belowbg && p[px] != PrioType::Color0)
    }
}

/// Colour component `k` of sprite `s` at screen column `px`: on the colour model from the
/// sprite colour palettes, otherwise the grey level from classic palette 0 or 1 (flag bit 4).
pub open spec fn sprite_comp(g: GPU, s: Sprite, px: int, k: int) -> u8 {
    let colnr = sprite_colnr(g, s, px - s.x);
    if g.gbmode == GbMode::Color {
        (g.csprit@[(s.flags & 0x07) as int * 12 + colnr as int * 3 + k] * 8 + 7) as u8
    } else if s.flags & 0x10 != 0 {
        g.pal1@[colnr as int]
    } else {
        g.pal0@[colnr as int]
    }
}

/// The screen buffer after sprite `n` was drawn over `d`, for its pixels left of column `upto`.
pub open spec fn sprite_data_upto(g: GPU, p: Seq<PrioType>, d: Seq<u8>, n: int, upto: int) -> Seq<u8> {
    let s = sprite(g, n);
    Seq::new(
        d.len(),
        |i: int|
            if in_line(i, g.line) && col_of(i, g.line) < s.x + upto && sprite_shows(g, p, s, col_of(i, g.line)) {
                sprite_comp(g, s, col_of(i, g.line), comp_of(i, g.line))
            } else {
                d[i]
            },
    )
}

/// The screen buffer after sprites 0 to `n - 1` were drawn in order over `d`; a later
/// sprite is drawn over an earlier one.
pub open spec fn sprites_data(g: GPU, p: Seq<PrioType>, d: Seq<u8>, n: int) -> Seq<u8>
    decreases n,
{
    if n <= 0 || !g.sprite_on {
        d
    } else {
        sprite_data_upto(g, p, sprites_data(g, p, d, n - 1), n - 1, 8)
    }
}

/// The current line of the screen buffer cleared to white.
pub open spec fn cleared(g: GPU, d: Seq<u8>) -> Seq<u8> {
    Seq::new(d.len(), |i: int| if in_line(i, g.line) { 255u8 } else { d[i] })
}

/// The background ranks after the line is drawn.
#[verifier::opaque]
pub open spec fn rendered_prio(g: GPU) -> Seq<PrioType> {
    let p0 = Seq::new(SCREEN_W as nat, |x: int| PrioType::Normal);
    win_prio_upto(g, bg_prio_upto(g, p0, SCREEN_W as int), SCREEN_W as int)
}

/// The screen buffer after the current line is drawn: white, then the background, the
/// window, and the sprites.
#[verifier::opaque]
pub open spec fn rendered_data(g: GPU) -> Seq<u8> {
    let d1 = bg_data_upto(g, cleared(g, g.data@), SCREEN_W as int);
    let d2 = win_data_upto(g, d1, SCREEN_W as int);
    sprites_data(g, rendered_prio(g), d2, 40)
}

/// The first byte of line `line` lies within the screen buffer, with its 480 bytes.
pub proof fn lemma_line_base(line: u8)
    requires
        line < 144,
    ensures
        0 <= line_base(line),
        line_base(line) + 480 <= SCREEN_BYTES,
{
    assert(line as int * 480 <= 143 * 480) by (nonlinear_arith)
        requires line < 144;
}

/// Bit `i` of `b` as the CPU tests it.
pub proof fn lemma_bit_of(b: u8, i: u8)
    requires
        i < 8,
    ensures
        (b & (1u8 << i) != 0) == (bit_of(b, i) == 1),
        bit_of(b, i) <= 1,
{
}

impl GPU {
    /// The pixel at row `ly` and column `lx` of the layer drawn from the tile map at `map`.
    pub fn tile_pixel_at(&self, map: u16, ly: u32, lx: u32) -> (r: TilePixel)
        requires
            self.wf(),
            map == 0x9800 || map == 0x9C00,
            ly < 256,
            lx < 512,
        ensures
            r == tile_pixel(*self, map, ly, lx),
            r.colnr <= 3,
            r.palnr <= 7,
    {
        let tiley: u16 = ((ly as u16) / 8) % 32;
        let tilex: u16 = ((lx as u16) / 8) % 32;
        let maddr = map + tiley * 32 + tilex;
        let tilenr: u8 = self.rbvram0(maddr);
        let (palnr, bank1, xflip, yflip, prio) = if self.gbmode == GbMode::Color {
            let flags = self.rbvram1(maddr);
            (flags & 0x07, flags & 0x08 != 0, flags & 0x20 != 0, flags & 0x40 != 0, flags & 0x80 != 0)
        } else {
            proof {
                crate::bits::lemma_u8_bits(0);
            }
            (0, false, false, false, false)
        };
        proof {
            let f = if self.gbmode == GbMode::Color { self.spec_rbvram1(maddr) } else { 0u8 };
            crate::bits::lemma_u8_bits(f);
        }
        let tileaddress: u16 = if self.tilebase == 0x8000 {
            0x8000 + (tilenr as u16) * 16
        } else {
            proof {
                assert((tilenr as i8 as i16 + 128) as u16 == crate::isa::signed8(tilenr) + 128) by (bit_vector);
            }
            0x8800 + ((tilenr as i8 as i16 + 128) as u16) * 16
        };
        let row: u16 = ((ly as u16) % 8) * 2;
        let a0: u16 = if yflip { tileaddress + (14 - row) } else { tileaddress + row };
        let (b1, b2) = if bank1 {
            (self.rbvram1(a0), self.rbvram1(a0 + 1))
        } else {
            (self.rbvram0(a0), self.rbvram0(a0 + 1))
        };
        let xbit: u8 = if xflip { (lx % 8) as u8 } else { (7 - lx % 8) as u8 };
        proof {
            lemma_bit_of(b1, xbit);
            lemma_bit_of(b2, xbit);
        }
        let c1: u8 = if b1 & (1u8 << xbit) != 0 { 1 } else { 0 };
        let c2: u8 = if b2 & (1u8 << xbit) != 0 { 2 } else { 0 };
        TilePixel { colnr: c1 + c2, palnr, prio }
    }

    /// Writes the same value to the three colour components of pixel `x` on the current line.
    pub fn setcolor(&mut self, x: usize, color: u8)
        requires
            old(self).wf(),
            old(self).line < 144,
            x < SCREEN_W,
        ensures
            *final(self) == (GPU { data: final(self).data, ..*old(self) }),
            final(self).data@ == Seq::new(
                old(self).data@.len(),
                |i: int|
                    if in_line(i, old(self).line) && col_of(i, old(self).line) == x {
                        color
                    } else {
                        old(self).data@[i]
                    },
            ),
            final(self).wf(),
    {
        proof {
            lemma_line_base(self.line);
        }
        let base = (self.line as usize) * 480;
        self.data.set(base + x * 3 + 0, color);
        self.data.set(base + x * 3 + 1, color);
        self.data.set(base + x * 3 + 2, color);
        proof {
            let l = old(self).line;
            assert forall|i: int| 0 <= i < self.data@.len() implies self.data@[i] == (if in_line(i, l)
                && col_of(i, l) == x {
                color
            } else {
                old(self).data@[i]
            }) by {
                if in_line(i, l) && col_of(i, l) == x {
                    assert(i == base + 3 * x || i == base + 3 * x + 1 || i == base + 3 * x + 2);
                }
            }
        }
        assert(self.data@ =~= Seq::new(
            old(self).data@.len(),
            |i: int|
                if in_line(i, old(self).line) && col_of(i, old(self).line) == x {
                    color
                } else {
                    old(self).data@[i]
                },
        ));
    }
}

/// Component `k` of the colour (`r`, `g`, `b`).
pub open spec fn rgb_comp(r: u8, g: u8, b: u8, k: int) -> u8 {
    if k == 0 {
        r
    } else if k == 1 {
        g
    } else {
        b
    }
}

impl GPU {
    /// Writes the colour (`r`, `g`, `b`) to pixel `x` of the current line.
    fn set_rgb(&mut self, x: usize, r: u8, g: u8, b: u8)
        requires
            old(self).wf(),
            old(self).line < 144,
            x < SCREEN_W,
        ensures
            *final(self) == (GPU { data: final(self).data, ..*old(self) }),
            final(self).data@ == Seq::new(
                old(self).data@.len(),
                |i: int|
                    if in_line(i, old(self).line) && col_of(i, old(self).line) == x {
                        rgb_comp(r, g, b, comp_of(i, old(self).line))
                    } else {
                        old(self).data@[i]
                    },
            ),
            final(self).wf(),
    {
        proof {
            lemma_line_base(self.line);
        }
        let base = (self.line as usize) * 480 + x * 3;
        self.data.set(base, r);
        self.data.set(base + 1, g);
        self.data.set(base + 2, b);
        proof {
            let l = old(self).line;
            assert forall|i: int| 0 <= i < self.data@.len() implies self.data@[i] == (if in_line(i, l)
                && col_of(i, l) == x {
                rgb_comp(r, g, b, comp_of(i, l))
            } else {
                old(self).data@[i]
            }) by {
                if in_line(i, l) && col_of(i, l) == x {
                    assert(i == base || i == base + 1 || i == base + 2);
                }
            }
        }
        assert(self.data@ =~= Seq::new(
            old(self).data@.len(),
            |i: int|
                if in_line(i, old(self).line) && col_of(i, old(self).line) == x {
                    rgb_comp(r, g, b, comp_of(i, old(self).line))
                } else {
                    old(self).data@[i]
                },
        ));
    }

    /// The three components of colour `colnr` of palette `palnr` in a colour palette memory,
    /// each five-bit value scaled to eight bits.
    fn cpal_rgb(pal: &Vec<u8>, palnr: u8, colnr: u8) -> (r: (u8, u8, u8))
        requires
            cpal_wf(pal@),
            palnr <= 7,
            colnr <= 3,
        ensures
            r.0 == (pal@[palnr as int * 12 + colnr as int * 3] * 8 + 7) as u8,
            r.1 == (pal@[palnr as int * 12 + colnr as int * 3 + 1] * 8 + 7) as u8,
            r.2 == (pal@[palnr as int * 12 + colnr as int * 3 + 2] * 8 + 7) as u8,
    {
        let pi = (palnr as usize) * 12 + (colnr as usize) * 3;
        (pal[pi] * 8 + 7, pal[pi + 1] * 8 + 7, pal[pi + 2] * 8 + 7)
    }

    /// The rank and the colour components of a tile pixel, as the background and window store them.
    #[verifier::rlimit(40)]
    fn put_layer_pixel(&mut self, x: usize, p: &TilePixel)
        requires
            old(self).wf(),
            old(self).line < 144,
            x < SCREEN_W,
            p.colnr <= 3,
            p.palnr <= 7,
        ensures
            *final(self) == (GPU { data: final(self).data, bgprio: final(self).bgprio, ..*old(self) }),
            final(self).bgprio@ == old(self).bgprio@.update(x as int, prio_of(*p)),
            final(self).data@ == Seq::new(
                old(self).data@.len(),
                |i: int|
                    if in_line(i, old(self).line) && col_of(i, old(self).line) == x {
                        layer_comp(*old(self), *p, comp_of(i, old(self).line))
                    } else {
                        old(self).data@[i]
                    },
            ),
            final(self).wf(),
    {
        let pr = if p.prio {
            PrioType::PrioFlag
        } else if p.colnr == 0 {
            PrioType::Color0
        } else {
            PrioType::Normal
        };
        self.bgprio.set(x, pr);
        let ghost g = *old(self);
        let (c0, c1, c2) = if self.gbmode == GbMode::Color {
            GPU::cpal_rgb(&self.cbgpal, p.palnr, p.colnr)
        } else {
            let c = self.palb[p.colnr as usize];
            (c, c, c)
        };
        assert forall|k: int| 0 <= k < 3 implies #[trigger] layer_comp(g, *p, k) == rgb_comp(c0, c1, c2, k) by {}
        self.set_rgb(x, c0, c1, c2);
        assert forall|i: int| in_line(i, g.line) && col_of(i, g.line) == x implies 0 <= #[trigger] comp_of(i, g.line) < 3 by {}
        assert(self.data@ =~= Seq::new(
            g.data@.len(),
            |i: int|
                if in_line(i, g.line) && col_of(i, g.line) == x {
                    layer_comp(g, *p, comp_of(i, g.line))
                } else {
                    g.data@[i]
                },
        ));
    }

    /// Draws the background of the current line.
    pub fn draw_bg(&mut self)
        requires
            old(self).wf(),
            old(self).line < 144,
        ensures
            *final(self) == (GPU { data: final(self).data, bgprio: final(self).bgprio, ..*old(self) }),
            final(self).data@ == bg_data_upto(*old(self), old(self).data@, SCREEN_W as int),
            final(self).bgprio@ == bg_prio_upto(*old(self), old(self).bgprio@, SCREEN_W as int),
            final(self).wf(),
    {
        let ghost g = *old(self);
        if self.gbmode != GbMode::Color && !self.lcdc0 {
            assert(self.data@ =~= bg_data_upto(g, g.data@, SCREEN_W as int));
            assert(self.bgprio@ =~= bg_prio_upto(g, g.bgprio@, SCREEN_W as int));
            return ;
        }
        let bgy = self.scy.wrapping_add(self.line);
        let mut x: usize = 0;
        assert(self.data@ =~= bg_data_upto(g, g.data@, 0));
        assert(self.bgprio@ =~= bg_prio_upto(g, g.bgprio@, 0));
        while x < SCREEN_W
            invariant
                0 <= x <= SCREEN_W,
                g.wf(),
                g.line < 144,
                bg_on(g),
                bgy == (g.scy as int + g.line as int) % 256,
                *self == (GPU { data: self.data, bgprio: self.bgprio, ..g }),
                self.wf(),
                self.data@ == bg_data_upto(g, g.data@, x as int),
                self.bgprio@ == bg_prio_upto(g, g.bgprio@, x as int),
            decreases SCREEN_W - x,
        {
            let bgx = (self.scx as u32) + (x as u32);
            let p = self.tile_pixel_at(self.bg_tilemap, bgy as u32, bgx);
            let ghost d0 = self.data@;
            self.put_layer_pixel(x, &p);
            proof {
                assert(p == bg_pixel(g, x as int));
            }
            x = x + 1;
            assert(self.data@ =~= bg_data_upto(g, g.data@, x as int));
            assert(self.bgprio@ =~= bg_prio_upto(g, g.bgprio@, x as int));
        }
    }

    /// Draws the window of the current line.
    pub fn draw_win(&mut self)
        requires
            old(self).wf(),
            old(self).line < 144,
        ensures
            *final(self) == (GPU { data: final(self).data, bgprio: final(self).bgprio, ..*old(self) }),
            final(self).data@ == win_data_upto(*old(self), old(self).data@, SCREEN_W as int),
            final(self).bgprio@ == win_prio_upto(*old(self), old(self).bgprio@, SCREEN_W as int),
            final(self).wf(),
    {
        let ghost g = *old(self);
        if !self.win_on || (self.gbmode != GbMode::Classic && !self.lcdc0) || self.line < self.winy {
            assert(self.data@ =~= win_data_upto(g, g.data@, SCREEN_W as int));
            assert(self.bgprio@ =~= win_prio_upto(g, g.bgprio@, SCREEN_W as int));
            return ;
        }
        let winy = self.line - self.winy;
        let mut x: usize = 0;
        assert(self.data@ =~= win_data_upto(g, g.data@, 0));
        assert(self.bgprio@ =~= win_prio_upto(g, g.bgprio@, 0));
        while x < SCREEN_W
            invariant
                0 <= x <= SCREEN_W,
                g.wf(),
                g.line < 144,
                win_on(g),
                winy == g.line - g.winy,
                *self == (GPU { data: self.data, bgprio: self.bgprio, ..g }),
                self.wf(),
                self.data@ == win_data_upto(g, g.data@, x as int),
                self.bgprio@ == win_prio_upto(g, g.bgprio@, x as int),
            decreases SCREEN_W - x,
        {
            if x + 7 >= self.winx as usize {
                let winx = (x + 7 - self.winx as usize) as u32;
                let p = self.tile_pixel_at(self.win_tilemap, winy as u32, winx);
                self.put_layer_pixel(x, &p);
                proof {
                    assert(p == win_pixel(g, x as int));
                }
            }
            x = x + 1;
            assert(self.data@ =~= win_data_upto(g, g.data@, x as int));
            assert(self.bgprio@ =~= win_prio_upto(g, g.bgprio@, x as int));
        }
    }
}

/// Whether two GPU states agree on everything that drawing a line reads: the current
/// line, the LCD control and scroll registers, the memories and the palettes.
pub open spec fn same_drawing(g1: GPU, g2: GPU) -> bool {
    &&& g1.line == g2.line
    &&& g1.gbmode == g2.gbmode
    &&& g1.lcdc0 == g2.lcdc0
    &&& g1.sprite_on == g2.sprite_on
    &&& g1.sprite_size == g2.sprite_size
    &&& g1.win_on == g2.win_on
    &&& g1.winx == g2.winx
    &&& g1.winy == g2.winy
    &&& g1.scx == g2.scx
    &&& g1.scy == g2.scy
    &&& g1.tilebase == g2.tilebase
    &&& g1.bg_tilemap == g2.bg_tilemap
    &&& g1.win_tilemap == g2.win_tilemap
    &&& g1.vram@ == g2.vram@
    &&& g1.voam@ == g2.voam@
    &&& g1.cbgpal@ == g2.cbgpal@
    &&& g1.csprit@ == g2.csprit@
    &&& g1.palb@ == g2.palb@
    &&& g1.pal0@ == g2.pal0@
    &&& g1.pal1@ == g2.pal1@
}

/// The sprite layer depends on the GPU only through what drawing reads.
pub proof fn lemma_sprites_data_indep(g1: GPU, g2: GPU, p: Seq<PrioType>, d: Seq<u8>, n: int)
    requires
        same_drawing(g1, g2),
    ensures
        sprites_data(g1, p, d, n) == sprites_data(g2, p, d, n),
    decreases n,
{
    if n > 0 && g1.sprite_on {
        lemma_sprites_data_indep(g1, g2, p, d, n - 1);
        let d1 = sprites_data(g1, p, d, n - 1);
        assert(sprite_data_upto(g1, p, d1, n - 1, 8) =~= sprite_data_upto(g2, p, d1, n - 1, 8));
    }
}

/// A drawn line depends on the GPU only through what drawing reads and the screen buffer.
pub proof fn lemma_rendered_indep(g1: GPU, g2: GPU)
    requires
        same_drawing(g1, g2),
        g1.data@ == g2.data@,
    ensures
        rendered_data(g1) == rendered_data(g2),
        rendered_prio(g1) == rendered_prio(g2),
{
    reveal(rendered_data);
    reveal(rendered_prio);
    let p0 = Seq::new(SCREEN_W as nat, |x: int| PrioType::Normal);
    assert(cleared(g1, g1.data@) =~= cleared(g2, g2.data@));
    let c = cleared(g1, g1.data@);
    assert(bg_prio_upto(g1, p0, SCREEN_W as int) =~= bg_prio_upto(g2, p0, SCREEN_W as int));
    let bp = bg_prio_upto(g1, p0, SCREEN_W as int);
    assert(win_prio_upto(g1, bp, SCREEN_W as int) =~= win_prio_upto(g2, bp, SCREEN_W as int));
    assert(bg_data_upto(g1, c, SCREEN_W as int) =~= bg_data_upto(g2, c, SCREEN_W as int));
    let d1 = bg_data_upto(g1, c, SCREEN_W as int);
    assert(win_data_upto(g1, d1, SCREEN_W as int) =~= win_data_upto(g2, d1, SCREEN_W as int));
    let d2 = win_data_upto(g1, d1, SCREEN_W as int);
    lemma_sprites_data_indep(g1, g2, rendered_prio(g1), d2, 40);
}

impl GPU {
    /// The two bytes of sprite `n`'s row on the current line, or `None` where the sprite
    /// does not cover the line or lies wholly outside the screen.
    #[verifier::spinoff_prover]
    fn sprite_row(&self, n: usize) -> (r: Option<(u8, u8)>)
        requires
            self.wf(),
            self.line < 144,
            n < 40,
        ensures
            r is Some <==> sprite_on_line(*self, sprite(*self, n as int)),
            r matches Some((b1, b2)) ==> b1 == sprite_byte(*self, sprite(*self, n as int), 0) && b2
                == sprite_byte(*self, sprite(*self, n as int), 1),
    {
        let ghost s = sprite(*self, n as int);
        let spritey: i32 = self.voam[n * 4] as i32 - 16;
        let spritex: i32 = self.voam[n * 4 + 1] as i32 - 8;
        let mask: u8 = if self.sprite_size == 16 { 0xFE } else { 0xFF };
        let tilenum: u8 = self.voam[n * 4 + 2] & mask;
        let flags: u8 = self.voam[n * 4 + 3];
        let yflip = flags & 0x40 != 0;
        let c_vram1 = flags & 0x08 != 0;
        let line: i32 = self.line as i32;
        let size: i32 = self.sprite_size as i32;
        if line < spritey || line >= spritey + size || spritex < -7 || spritex >= SCREEN_W as i32 {
            return None;
        }
        let tiley: i32 = if yflip { size - 1 - (line - spritey) } else { line - spritey };
        let tileaddress: u16 = 0x8000u16 + (tilenum as u16) * 16 + (tiley as u16) * 2;
        assert(tileaddress == sprite_row_addr(*self, s));
        if c_vram1 && self.gbmode == GbMode::Color {
            Some((self.rbvram1(tileaddress), self.rbvram1(tileaddress + 1)))
        } else {
            Some((self.rbvram0(tileaddress), self.rbvram0(tileaddress + 1)))
        }
    }

    /// Draws sprite `n` over the current line.
    #[verifier::spinoff_prover]
    fn draw_sprite(&mut self, n: usize)
        requires
            old(self).wf(),
            old(self).line < 144,
            n < 40,
        ensures
            *final(self) == (GPU { data: final(self).data, ..*old(self) }),
            final(self).data@ == sprite_data_upto(*old(self), old(self).bgprio@, old(self).data@, n as int, 8),
            final(self).wf(),
    {
        let ghost g = *old(self);
        let ghost s = sprite(g, n as int);
        let (b1, b2) = match self.sprite_row(n) {
            None => {
                assert(self.data@ =~= sprite_data_upto(g, g.bgprio@, g.data@, n as int, 8));
                return ;
            },
            Some(row) => row,
        };
        let spritex: i32 = self.voam[n * 4 + 1] as i32 - 8;
        let flags: u8 = self.voam[n * 4 + 3];
        let mut x: i32 = 0;
        assert(self.data@ =~= sprite_data_upto(g, g.bgprio@, g.data@, n as int, 0));
        while x < 8
            invariant
                0 <= x <= 8,
                g.wf(),
                g.line < 144,
                n < 40,
                s == sprite(g, n as int),
                spritex == s.x,
                flags == s.flags,
                sprite_on_line(g, s),
                b1 == sprite_byte(g, s, 0),
                b2 == sprite_byte(g, s, 1),
                *self == (GPU { data: self.data, ..g }),
                self.wf(),
                self.data@ == sprite_data_upto(g, g.bgprio@, g.data@, n as int, x as int),
            decreases 8 - x,
        {
            self.put_sprite_pixel(Ghost(g), Ghost(g.data@), n, x, spritex, flags, b1, b2);
            x = x + 1;
        }
    }

    /// Draws pixel `x` (0 to 7) of sprite `n` on the current line, whose row bytes are
    /// `b1` and `b2`, where it shows.
    #[verifier::rlimit(40)]
    #[verifier::spinoff_prover]
    fn put_sprite_pixel(
        &mut self,
        Ghost(g): Ghost<GPU>,
        Ghost(d): Ghost<Seq<u8>>,
        n: usize,
        x: i32,
        spritex: i32,
        flags: u8,
        b1: u8,
        b2: u8,
    )
        requires
            g.wf(),
            g.line < 144,
            n < 40,
            0 <= x < 8,
            *old(self) == (GPU { data: old(self).data, ..g }),
            old(self).wf(),
            spritex == sprite(g, n as int).x,
            flags == sprite(g, n as int).flags,
            sprite_on_line(g, sprite(g, n as int)),
            b1 == sprite_byte(g, sprite(g, n as int), 0),
            b2 == sprite_byte(g, sprite(g, n as int), 1),
            d.len() == SCREEN_BYTES,
            old(self).data@ == sprite_data_upto(g, g.bgprio@, d, n as int, x as int),
        ensures
            *final(self) == (GPU { data: final(self).data, ..g }),
            final(self).wf(),
            final(self).data@ == sprite_data_upto(g, g.bgprio@, d, n as int, x + 1),
    {
        let ghost s = sprite(g, n as int);
        let ghost d0 = self.data@;
        let px = spritex + x;
        if px >= 0 && px < SCREEN_W as i32 {
            let xflip = flags & 0x20 != 0;
            let xbit: u8 = if xflip { x as u8 } else { (7 - x) as u8 };
            proof {
                lemma_bit_of(b1, xbit);
                lemma_bit_of(b2, xbit);
            }
            let c1: u8 = if b1 & (1u8 << xbit) != 0 { 1 } else { 0 };
            let c2: u8 = if b2 & (1u8 << xbit) != 0 { 2 } else { 0 };
            let colnr = c1 + c2;
            assert(colnr == sprite_colnr(g, s, x as int));
            if colnr != 0 {
                let belowbg = flags & 0x80 != 0;
                let pr = self.bgprio[px as usize];
                let hidden = if self.gbmode == GbMode::Color {
                    self.lcdc0 && (pr == PrioType::PrioFlag || (belowbg && pr != PrioType::Color0))
                } else {
                    belowbg && pr != PrioType::Color0
                };
                if !hidden {
                    let c_palnr: u8 = flags & 0x07;
                    proof {
                        crate::bits::lemma_u8_bits(flags);
                    }
                    let (r, gr, b) = if self.gbmode == GbMode::Color {
                        GPU::cpal_rgb(&self.csprit, c_palnr, colnr)
                    } else {
                        let c = if flags & 0x10 != 0 {
                            self.pal1[colnr as usize]
                        } else {
                            self.pal0[colnr as usize]
                        };
                        (c, c, c)
                    };
                    assert forall|k: int| 0 <= k < 3 implies #[trigger] sprite_comp(g, s, px as int, k)
                        == rgb_comp(r, gr, b, k) by {}
                    self.set_rgb(px as usize, r, gr, b);
                    assert forall|i: int|
                        in_line(i, g.line) && col_of(i, g.line) == px implies 0 <= #[trigger] comp_of(
                        i,
                        g.line,
                    ) < 3 by {}
                }
            }
        }
        assert(self.data@ =~= sprite_data_upto(g, g.bgprio@, d, n as int, x + 1));
    }

    /// Draws the sprites over the current line, from the first in object attribute memory
    /// to the last, so that a later sprite covers an earlier one.
    pub fn draw_sprites(&mut self)
        requires
            old(self).wf(),
            old(self).line < 144,
        ensures
            *final(self) == (GPU { data: final(self).data, ..*old(self) }),
            final(self).data@ == sprites_data(*old(self), old(self).bgprio@, old(self).data@, 40),
            final(self).wf(),
    {
        let ghost g = *old(self);
        if !self.sprite_on {
            return ;
        }
        let mut n: usize = 0;
        while n < 40
            invariant
                n <= 40,
                g.wf(),
                g.line < 144,
                g.sprite_on,
                *self == (GPU { data: self.data, ..g }),
                self.wf(),
                self.data@ == sprites_data(g, g.bgprio@, g.data@, n as int),
            decreases 40 - n,
        {
            let ghost before = *self;
            self.draw_sprite(n);
            assert(sprite_data_upto(before, g.bgprio@, before.data@, n as int, 8) =~= sprite_data_upto(
                g,
                g.bgprio@,
                before.data@,
                n as int,
                8,
            ));
            n = n + 1;
        }
    }
}

/// The GPU after the LY=LYC coincidence check: the LCD status interrupt is raised when it
/// is enabled and the current line equals the compare line.
pub open spec fn lyc_checked(g: GPU) -> GPU {
    if g.lyc_inte && g.line == g.lyc {
        GPU { interrupt: g.interrupt | 0x02, ..g }
    } else {
        g
    }
}

/// The registers after the GPU entered `mode`: the horizontal blank (0) is flagged for
/// horizontal-blank DMA; the vertical blank (1) raises the V-blank interrupt and marks the
/// frame as complete; modes 0, 1 and 2 raise the LCD status interrupt where it is enabled
/// for them. The screen buffer is left as it was.
#[verifier::opaque]
pub open spec fn mode_regs(old: GPU, mode: u8) -> GPU {
    let g = GPU { mode, ..old };
    if mode == 0 {
        GPU { hblanking: true, interrupt: if g.m0_inte { g.interrupt | 0x02 } else { g.interrupt }, ..g }
    } else if mode == 1 {
        let i1 = g.interrupt | 0x01;
        GPU { updated: true, interrupt: if g.m1_inte { i1 | 0x02 } else { i1 }, ..g }
    } else if mode == 2 {
        GPU { interrupt: if g.m2_inte { g.interrupt | 0x02 } else { g.interrupt }, ..g }
    } else {
        g
    }
}

/// Entering a mode changes no register that drawing reads, nor the frame's buffers.
pub proof fn lemma_mode_regs(g: GPU, mode: u8)
    ensures
        mode_regs(g, mode).data == g.data,
        mode_regs(g, mode).bgprio == g.bgprio,
        mode_regs(g, mode).hblanking == (mode == 0 || g.hblanking),
        mode_regs(g, mode).mode == mode,
        mode_regs(g, mode).line == g.line,
        mode_regs(g, mode).modeclock == g.modeclock,
        mode_regs(g, mode).lcd_on == g.lcd_on,
        same_drawing(mode_regs(g, mode), g),
        g.wf() && mode <= 3 ==> mode_regs(g, mode).wf(),
{
    reveal(mode_regs);
}

/// `new` is `old` after it entered `mode`: the registers as `mode_regs` says, and, on
/// entering the horizontal blank, the current line drawn.
pub open spec fn mode_entered(old: GPU, new: GPU, mode: u8) -> bool {
    let r = mode_regs(old, mode);
    &&& new == (GPU { data: new.data, bgprio: new.bgprio, ..r })
    &&& if mode == 0 {
        new.data@ == rendered_data(r) && new.bgprio@ == rendered_prio(r)
    } else {
        new.data == old.data && new.bgprio == old.bgprio
    }
}

/// The registers after a full line of 114 ticks elapsed: the next line (of 154), the
/// coincidence check, and the vertical blank from line 144 on.
pub open spec fn next_line(g: GPU) -> GPU {
    let g1 = lyc_checked(GPU { modeclock: (g.modeclock - 114) as u32, line: ((g.line + 1) % 154) as u8, ..g });
    if g1.line >= 144 && g1.mode != 1 {
        mode_regs(g1, 1)
    } else {
        g1
    }
}

/// `new` is `old` after it entered the mode that the ticks spent on a visible line call
/// for: 20 searching object attribute memory (mode 2), 43 transferring to the LCD (mode 3),
/// the remaining 51 in the horizontal blank (mode 0). A mode already entered is kept.
pub open spec fn line_mode_post(old: GPU, new: GPU) -> bool {
    let mode: u8 = if old.modeclock <= 20 {
        2
    } else if old.modeclock <= 20 + 43 {
        3
    } else {
        0
    };
    if old.line >= 144 || old.mode == mode {
        new == old
    } else {
        mode_entered(old, new, mode)
    }
}

/// `new` is `old` after `ticks` machine cycles. With the LCD off nothing advances; else
/// the ticks are added to the line's clock, a full line moves to the next one, and the
/// mode follows the clock.
pub open spec fn cycle_post(old: GPU, new: GPU, ticks: u32) -> bool {
    let g0 = GPU { hblanking: false, ..old };
    if !g0.lcd_on {
        new == g0
    } else {
        let g1 = GPU { modeclock: old.modeclock.saturating_add(ticks), ..g0 };
        let g2 = if g1.modeclock >= 114 { next_line(g1) } else { g1 };
        line_mode_post(g2, new)
    }
}

impl GPU {
    /// Clears the current line to white and resets its background ranks.
    fn clear_line(&mut self)
        requires
            old(self).wf(),
            old(self).line < 144,
        ensures
            *final(self) == (GPU { data: final(self).data, bgprio: final(self).bgprio, ..*old(self) }),
            final(self).data@ == cleared(*old(self), old(self).data@),
            final(self).bgprio@ == Seq::new(SCREEN_W as nat, |x: int| PrioType::Normal),
            final(self).wf(),
    {
        let ghost g = *old(self);
        let mut x: usize = 0;
        assert(self.data@ =~= Seq::new(
            g.data@.len(),
            |i: int| if in_line(i, g.line) && col_of(i, g.line) < 0 { 255u8 } else { g.data@[i] },
        ));
        assert(self.bgprio@ =~= Seq::new(SCREEN_W as nat, |j: int| if j < 0 { PrioType::Normal } else { g.bgprio@[j] }));
        while x < SCREEN_W
            invariant
                x <= SCREEN_W,
                g.wf(),
                g.line < 144,
                *self == (GPU { data: self.data, bgprio: self.bgprio, ..g }),
                self.wf(),
                self.data@ == Seq::new(
                    g.data@.len(),
                    |i: int| if in_line(i, g.line) && col_of(i, g.line) < x { 255u8 } else { g.data@[i] },
                ),
                self.bgprio@ == Seq::new(
                    SCREEN_W as nat,
                    |j: int| if j < x { PrioType::Normal } else { g.bgprio@[j] },
                ),
            decreases SCREEN_W - x,
        {
            self.setcolor(x, 255);
            self.bgprio.set(x, PrioType::Normal);
            x = x + 1;
            assert(self.data@ =~= Seq::new(
                g.data@.len(),
                |i: int| if in_line(i, g.line) && col_of(i, g.line) < x { 255u8 } else { g.data@[i] },
            ));
            assert(self.bgprio@ =~= Seq::new(
                SCREEN_W as nat,
                |j: int| if j < x { PrioType::Normal } else { g.bgprio@[j] },
            ));
        }
        assert(self.data@ =~= cleared(g, g.data@));
        assert(self.bgprio@ =~= Seq::new(SCREEN_W as nat, |x: int| PrioType::Normal));
    }

    /// Draws the current line: white, then the background, the window and the sprites.
    pub fn renderscan(&mut self)
        requires
            old(self).wf(),
            old(self).line < 144,
        ensures
            *final(self) == (GPU { data: final(self).data, bgprio: final(self).bgprio, ..*old(self) }),
            final(self).data@ == rendered_data(*old(self)),
            final(self).bgprio@ == rendered_prio(*old(self)),
            final(self).wf(),
    {
        reveal(rendered_data);
        reveal(rendered_prio);
        let ghost g = *old(self);
        self.clear_line();
        let ghost g1 = *self;
        self.draw_bg();
        assert(bg_data_upto(g1, g1.data@, SCREEN_W as int) =~= bg_data_upto(g, g1.data@, SCREEN_W as int));
        assert(bg_prio_upto(g1, g1.bgprio@, SCREEN_W as int) =~= bg_prio_upto(g, g1.bgprio@, SCREEN_W as int));
        let ghost g2 = *self;
        self.draw_win();
        assert(win_data_upto(g2, g2.data@, SCREEN_W as int) =~= win_data_upto(g, g2.data@, SCREEN_W as int));
        assert(win_prio_upto(g2, g2.bgprio@, SCREEN_W as int) =~= win_prio_upto(g, g2.bgprio@, SCREEN_W as int));
        assert(self.bgprio@ == rendered_prio(g));
        let ghost g3 = *self;
        self.draw_sprites();
        proof {
            lemma_sprites_data_indep(g3, g, g3.bgprio@, g3.data@, 40);
        }
    }

    /// Raises the LCD status interrupt when the current line equals the compare line and
    /// that interrupt is enabled.
    pub fn check_interrupt_lyc(&mut self)
        ensures
            *final(self) == lyc_checked(*old(self)),
    {
        if self.lyc_inte && self.line == self.lyc {
            self.interrupt |= 0x02;
        }
    }

    /// Enters the horizontal blank, drawing the current line.
    #[verifier::spinoff_prover]
    fn enter_hblank(&mut self)
        requires
            old(self).wf(),
            old(self).line < 144,
        ensures
            mode_entered(*old(self), *final(self), 0),
            final(self).wf(),
    {
        reveal(mode_regs);
        self.mode = 0;
        let ghost g = *self;
        self.renderscan();
        self.hblanking = true;
        if self.m0_inte {
            self.interrupt |= 0x02;
        }
        proof {
            lemma_rendered_indep(mode_regs(*old(self), 0), g);
        }
    }

    /// Enters a mode other than the horizontal blank.
    #[verifier::spinoff_prover]
    fn enter_mode(&mut self, mode: u8)
        requires
            old(self).wf(),
            1 <= mode <= 3,
        ensures
            mode_entered(*old(self), *final(self), mode),
            final(self).wf(),
    {
        reveal(mode_regs);
        self.mode = mode;
        let raise = if mode == 1 {
            self.interrupt |= 0x01;
            self.updated = true;
            self.m1_inte
        } else if mode == 2 {
            self.m2_inte
        } else {
            false
        };
        if raise {
            self.interrupt |= 0x02;
        }
    }

    /// Enters `mode`; see `mode_entered`.
    pub fn change_mode(&mut self, mode: u8)
        requires
            old(self).wf(),
            mode <= 3,
            mode == 0 ==> old(self).line < 144,
        ensures
            mode_entered(*old(self), *final(self), mode),
            final(self).wf(),
    {
        if mode == 0 {
            self.enter_hblank();
        } else {
            self.enter_mode(mode);
        }
    }

    /// Moves to the next line once a full line of ticks has elapsed.
    #[verifier::spinoff_prover]
    #[verifier::rlimit(100)]
    fn next_line_step(&mut self)
        requires
            old(self).wf(),
            old(self).modeclock >= 114,
        ensures
            *final(self) == next_line(*old(self)),
            final(self).wf(),
    {
        self.modeclock = self.modeclock - 114;
        self.line = (self.line + 1) % 154;
        self.check_interrupt_lyc();
        proof {
            lemma_mode_regs(*self, 1);
        }
        if self.line >= 144 && self.mode != 1 {
            self.change_mode(1);
        }
    }

    /// Enters the mode that the ticks spent on a visible line call for.
    #[verifier::spinoff_prover]
    fn line_mode_step(&mut self)
        requires
            old(self).wf(),
        ensures
            line_mode_post(*old(self), *final(self)),
            final(self).wf(),
    {
        if self.line < 144 {
            if self.modeclock <= 20 {
                if self.mode != 2 {
                    self.change_mode(2);
                }
            } else if self.modeclock <= 20 + 43 {
                if self.mode != 3 {
                    self.change_mode(3);
                }
            } else {
                if self.mode != 0 {
                    self.change_mode(0);
                }
            }
        }
    }

    /// Advances the GPU by `ticks` machine cycles; see `cycle_post`.
    #[verifier::spinoff_prover]
    pub fn cycle(&mut self, ticks: u32)
        requires
            old(self).wf(),
        ensures
            cycle_post(*old(self), *final(self), ticks),
            final(self).wf(),
    {
        self.hblanking = false;
        if !self.lcd_on {
            return ;
        }
        self.modeclock = self.modeclock.saturating_add(ticks);
        if self.modeclock >= 114 {
            self.next_line_step();
        }
        self.line_mode_step();
    }
}

/// When the last visible line runs out, the GPU enters the vertical blank: line 144,
/// mode 1, the V-blank interrupt raised and the frame marked complete.
pub proof fn lemma_vblank_entry(old: GPU, new: GPU, ticks: u32)
    requires
        old.wf(),
        old.lcd_on,
        old.line == 143,
        old.mode != 1,
        114 <= old.modeclock + ticks < 228,
        cycle_post(old, new, ticks),
    ensures
        new.line == 144,
        new.mode == 1,
        new.interrupt & 0x01 == 0x01,
        new.updated,
{
    reveal(mode_regs);
    crate::bits::lemma_u8_bits(old.interrupt);
    crate::bits::lemma_u8_bits(old.interrupt | 0x02);
}

/// The mode that a visible line is in after `clock` ticks of it: 20 ticks searching object
/// attribute memory, 43 transferring to the LCD, the rest in the horizontal blank.
pub open spec fn mode_at(clock: u32) -> u8 {
    if clock <= 20 {
        2
    } else if clock <= 20 + 43 {
        3
    } else {
        0
    }
}

/// The line timing between steps: one of 154 lines, less than a line's 114 ticks into it,
/// and, with the LCD on, the vertical blank on every line from 144 on.
pub open spec fn timing_inv(g: GPU) -> bool {
    &&& g.line < 154
    &&& g.modeclock < 114
    &&& g.mode <= 3
    &&& g.lcd_on && g.line >= 144 ==> g.mode == 1
}

/// A step of at most one line's ticks keeps the line timing. With the LCD off it changes
/// nothing but the horizontal-blank flag; with it on, the line stays or moves to the next
/// (of 154), a visible line is in the mode its clock calls for, and reaching the line that
/// the coincidence register names with its interrupt enabled raises the LCD status interrupt.
#[verifier::spinoff_prover]
#[verifier::rlimit(40)]
pub proof fn lemma_cycle_timing(old: GPU, new: GPU, ticks: u32)
    requires
        old.wf(),
        timing_inv(old),
        ticks <= 114,
        cycle_post(old, new, ticks),
    ensures
        !old.lcd_on ==> new == (GPU { hblanking: false, ..old }),
        old.lcd_on ==> timing_inv(new),
        old.lcd_on ==> new.line == old.line || new.line == (old.line + 1) % 154,
        old.lcd_on && new.line < 144 ==> new.mode == mode_at(new.modeclock),
        old.lcd_on && new.line != old.line && new.line == new.lyc && new.lyc_inte ==> new.interrupt & 0x02
            == 0x02,
{
    reveal(mode_regs);
    lemma_or_keeps_stat_bit();
}

/// Setting more bits keeps the LCD status interrupt bit.
proof fn lemma_or_keeps_stat_bit()
    by (bit_vector)
    ensures
        forall|x: u8, y: u8| #![trigger x | y] x & 0x02 == 0x02 ==> (x | y) & 0x02 == 0x02,
        forall|x: u8| #![trigger x | 0x02u8] (x | 0x02u8) & 0x02 == 0x02,
{
}

/// A colour written to background palette memory is what drawing shows: after a write of
/// `v` through 0xFF69 at an even index, a background or window pixel of that palette and
/// colour has the red byte `(v mod 32) * 8 + 7`; at an odd index, the blue byte
/// `((v / 4) mod 32) * 8 + 7`.
pub proof fn lemma_bg_palette_write_shows(old: GPU, new: GPU, v: u8, p: TilePixel)
    requires
        old.wf(),
        new.gbmode == GbMode::Color,
        GPU::wb_post(old, new, 0xFF69, v),
        p.palnr == old.cbgpal_ind / 8,
        p.colnr == (old.cbgpal_ind / 2) % 4,
    ensures
        old.cbgpal_ind % 2 == 0 ==> layer_comp(new, p, 0) == ((v % 32) * 8 + 7) as u8,
        old.cbgpal_ind % 2 == 1 ==> layer_comp(new, p, 2) == (((v / 4) % 32) * 8 + 7) as u8,
{
    crate::gpu::lemma_cpal_write_layout(old.cbgpal@, old.cbgpal_ind, v);
}

/// A colour written to sprite palette memory is what drawing shows: after a write of `v`
/// through 0xFF6B at an even index, a sprite pixel of that palette and colour has the red
/// byte `(v mod 32) * 8 + 7`; at an odd index, the blue byte `((v / 4) mod 32) * 8 + 7`.
pub proof fn lemma_sprite_palette_write_shows(old: GPU, new: GPU, v: u8, s: Sprite, px: int)
    requires
        old.wf(),
        new.gbmode == GbMode::Color,
        GPU::wb_post(old, new, 0xFF6B, v),
        (s.flags & 0x07) == old.csprit_ind / 8,
        sprite_colnr(new, s, px - s.x) == (old.csprit_ind / 2) % 4,
    ensures
        old.csprit_ind % 2 == 0 ==> sprite_comp(new, s, px, 0) == ((v % 32) * 8 + 7) as u8,
        old.csprit_ind % 2 == 1 ==> sprite_comp(new, s, px, 2) == (((v / 4) % 32) * 8 + 7) as u8,
{
    crate::gpu::lemma_cpal_write_layout(old.csprit@, old.csprit_ind, v);
}

/// The STAT interrupt enables: after a write of `v` to 0xFF41 (with no LCD status interrupt
/// pending), entering the horizontal blank (mode 0) raises it exactly when bit 3 of `v` is
/// set, the vertical blank (mode 1) when bit 4 is, and the object attribute search (mode 2)
/// when bit 5 is; the transfer (mode 3) never does.
pub proof fn lemma_stat_enables(old: GPU, new: GPU, v: u8)
    requires
        GPU::wb_post(old, new, 0xFF41, v),
        old.interrupt & 0x02 == 0,
    ensures
        (mode_regs(new, 0).interrupt & 0x02 != 0) == ((v / 8) % 2 == 1),
        (mode_regs(new, 1).interrupt & 0x02 != 0) == ((v / 16) % 2 == 1),
        (mode_regs(new, 2).interrupt & 0x02 != 0) == ((v / 32) % 2 == 1),
        mode_regs(new, 3).interrupt & 0x02 == 0,
        (v / 64) % 2 == 1 <==> new.lyc_inte,
{
    reveal(mode_regs);
    crate::bits::lemma_u8_bits(v);
    let i = old.interrupt;
    lemma_stat_bits(i);
}

/// Setting bit 1 sets it; setting bit 0 leaves it clear.
proof fn lemma_stat_bits(i: u8)
    by (bit_vector)
    requires
        i & 0x02 == 0,
    ensures
        (i | 0x02) & 0x02 != 0,
        (i | 0x01) & 0x02 == 0,
        ((i | 0x01) | 0x02) & 0x02 != 0,
{
}

/// Horizontal flip (flag bit 5) mirrors a sprite: of two sprites that differ only in that
/// bit, the flipped one shows at column `x` of its eight what the other shows at `7 - x`.
pub proof fn lemma_sprite_xflip_mirrors(g: GPU, s: Sprite, t: Sprite, x: int)
    requires
        0 <= x < 8,
        s.y == t.y,
        s.x == t.x,
        s.tile == t.tile,
        (s.flags / 32) % 2 == 1,
        (t.flags / 32) % 2 == 0,
        (s.flags / 64) % 2 == (t.flags / 64) % 2,
        (s.flags / 8) % 2 == (t.flags / 8) % 2,
    ensures
        sprite_colnr(g, s, x) == sprite_colnr(g, t, 7 - x),
{
    crate::bits::lemma_u8_bits(s.flags);
    crate::bits::lemma_u8_bits(t.flags);
    assert(sprite_row_addr(g, s) == sprite_row_addr(g, t));
    assert(sprite_byte(g, s, 0) == sprite_byte(g, t, 0));
    assert(sprite_byte(g, s, 1) == sprite_byte(g, t, 1));
}

/// A sprite with flag bit 7 set lies behind the background: where it shows, the background
/// pixel beneath has colour 0 (and, on the colour model with the priority flag of LCDC bit 0,
/// no background tile claims priority).
pub proof fn lemma_sprite_behind_background(g: GPU, p: Seq<PrioType>, s: Sprite, px: int)
    requires
        (s.flags / 128) % 2 == 1,
        sprite_shows(g, p, s, px),
        g.gbmode != GbMode::Color || g.lcdc0,
    ensures
        p[px] == PrioType::Color0,
{
    crate::bits::lemma_u8_bits(s.flags);
}

/// The two tile data addressing modes (LCDC bit 4): unsigned tile numbers from 0x8000, or
/// signed ones around 0x9000. Tiles 128 to 255 lie at the same addresses either way, 0x8800
/// to 0x8FFF; tiles 0 to 127 lie 0x1000 higher in the signed mode, from 0x9000.
pub proof fn lemma_tile_addressing(g: GPU, h: GPU, n: u8)
    requires
        g.tilebase == 0x8000,
        h.tilebase == 0x8800,
    ensures
        tile_address(g, n) == 0x8000 + n * 16,
        n >= 128 ==> tile_address(h, n) == tile_address(g, n),
        n < 128 ==> tile_address(h, n) == 0x9000 + n * 16,
{
}

} // verus!
