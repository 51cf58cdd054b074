//! Pixel processing unit: display-control and scroll/palette registers, and a
//! scanline renderer that composites background tiles and sprites into an
//! RGBA framebuffer.
//!
//! Known, deliberate gaps inherited from the register model: the window layer
//! (WX/WY) and tall 8x16 sprites are tracked as register state but never
//! composited.

use vstd::prelude::*;

use crate::rng::random_byte;

verus! {

/// Scanlines per frame: visible lines plus vertical blanking.
pub const SCANLINES: usize = 154;

/// Visible width in pixels.
pub const SCREEN_WIDTH: usize = 160;

/// Visible height in pixels.
pub const SCREEN_HEIGHT: usize = 144;

/// Bytes per framebuffer scanline: four RGBA bytes per pixel.
pub const LINE_BYTES: usize = 160 * 4;

/// Bytes in a full framebuffer.
pub const FRAME_BYTES: usize = 160 * 144 * 4;

/// LCD control: display enabled.
pub const LCDC_ON: u8 = 0x80;

/// LCD control: background tile data addressed unsigned from 0x8000.
pub const LCDC_BG8000: u8 = 0x10;

/// LCD control: sprite rendering enabled.
pub const LCDC_OBJON: u8 = 0x02;

/// LCD control: background rendering enabled.
pub const LCDC_BGON: u8 = 0x01;

/// Status bit: LY coincides with LYC.
pub const STAT_LYC: u8 = 0x04;

/// The status bits that a bus write may change; the rest belong to the
/// rendering pipeline.
pub const STAT_RWMASK: u8 = 0x78;

/// One sprite descriptor decoded from object attribute memory.  Screen
/// coordinates of the top-left corner; the stored bytes carry offsets of 16
/// and 8, so the decoded positions may be negative.
#[derive(Clone, Copy, Debug)]
pub struct Sprite {
    pub y: i16,
    pub x: i16,
    pub tile: u8,
    pub attrs: u8,
}

/// The sprite described by the i-th four-byte entry of object attribute
/// memory.
pub open spec fn spec_sprite_at(oam: Seq<u8>, i: int) -> Sprite {
    Sprite {
        y: (oam[4 * i] - 16) as i16,
        x: (oam[4 * i + 1] - 8) as i16,
        tile: oam[4 * i + 2],
        attrs: oam[4 * i + 3],
    }
}

/// Whether the sprite's 8-pixel vertical extent covers scanline y.
pub open spec fn sprite_on_line(s: Sprite, y: int) -> bool {
    s.y <= y < s.y + 8
}

/// Whether the sprite's 8-pixel horizontal extent covers pixel column x.
pub open spec fn sprite_covers(s: Sprite, x: int) -> bool {
    s.x <= x < s.x + 8
}

/// The sprites selected for scanline y among the first n entries of object
/// attribute memory: the first ten, in table order, whose vertical extent
/// covers the line.
pub open spec fn spec_line_sprites(oam: Seq<u8>, y: int, n: int) -> Seq<Sprite>
    decreases n,
{
    if n <= 0 {
        Seq::empty()
    } else {
        let prev = spec_line_sprites(oam, y, n - 1);
        if prev.len() < 10 && sprite_on_line(spec_sprite_at(oam, n - 1), y) {
            prev.push(spec_sprite_at(oam, n - 1))
        } else {
            prev
        }
    }
}

/// The sprite that wins pixel column x among the first n selected candidates:
/// of those whose horizontal extent covers x, the one with the smallest X
/// coordinate, earlier candidates winning ties.
pub open spec fn spec_best_sprite(cands: Seq<Sprite>, x: int, n: int) -> Option<Sprite>
    decreases n,
{
    if n <= 0 {
        None
    } else {
        let prev = spec_best_sprite(cands, x, n - 1);
        let s = cands[n - 1];
        if sprite_covers(s, x) {
            match prev {
                None => Some(s),
                Some(b) => if s.x < b.x {
                    Some(s)
                } else {
                    Some(b)
                },
            }
        } else {
            prev
        }
    }
}

/// Index into the tile-data region for a tile number under the two addressing
/// modes: unsigned "block 0" indexing, or signed indexing where numbers at or
/// above 128 reach a different block.
pub open spec fn spec_tile_index(tile: u8, select: bool) -> int {
    if select {
        if tile < 128 {
            tile + 256
        } else {
            tile + 128
        }
    } else {
        tile as int
    }
}

/// 2-bit color index of pixel (x, y) of the given tile, decoded from the
/// two-bytes-per-row packed bitmap in video RAM.
pub open spec fn spec_tile_pixel(vram: Seq<u8>, tile: u8, x: int, y: int, select: bool) -> u8 {
    let idx = spec_tile_index(tile, select);
    let byte0 = vram[idx * 16 + y * 2];
    let byte1 = vram[idx * 16 + y * 2 + 1];
    ((byte0 >> (7 - x)) & 0x1) | (((byte1 >> (7 - x)) & 0x1) << 1)
}

/// RGBA shade for a 2-bit color index resolved through an 8-bit palette
/// register: two palette bits select one of four fixed green-tinted shades.
pub open spec fn spec_shade(palette: u8, color: u8) -> (u8, u8, u8, u8) {
    let v = (palette >> (color * 2)) & 0x3;
    if v == 0 {
        (0x9b, 0xbc, 0x0f, 0xff)
    } else if v == 1 {
        (0x8b, 0xac, 0x0f, 0xff)
    } else if v == 2 {
        (0x30, 0x62, 0x30, 0xff)
    } else {
        (0x0f, 0x38, 0x0f, 0xff)
    }
}

/// A well-formed PPU model holds its full 64 bytes of palette data in each
/// color-mode array.
pub open spec fn ppu_view_wf(p: PpuView) -> bool {
    p.bgpd.len() == 64 && p.obpd.len() == 64
}

/// Mathematical model of the PPU: its registers and the two color-mode
/// palette-data arrays.
#[verifier::ext_equal]
pub struct PpuView {
    pub lcdc: u8,
    pub scx: u8,
    pub scy: u8,
    pub ly: u8,
    pub lyc: u8,
    pub wy: u8,
    pub wx: u8,
    pub bgp: u8,
    pub obp0: u8,
    pub obp1: u8,
    pub bgpi: u8,
    pub obpi: u8,
    pub stat: u8,
    pub bgpd: Seq<u8>,
    pub obpd: Seq<u8>,
}

/// Pixel processing unit register file and palette storage.
pub struct PPU {
    /// LCD control register.
    pub lcdc: u8,
    /// Scroll X.
    pub scx: u8,
    /// Scroll Y.
    pub scy: u8,
    /// Current scanline.
    pub ly: u8,
    /// Scanline compare.
    pub lyc: u8,
    /// Window Y position.
    pub wy: u8,
    /// Window X position minus 7.
    pub wx: u8,
    /// Background palette (monochrome mode).
    pub bgp: u8,
    /// Object palette 0 (monochrome mode).
    pub obp0: u8,
    /// Object palette 1 (monochrome mode).
    pub obp1: u8,
    /// Background palette index (color mode).
    pub bgpi: u8,
    /// Object palette index (color mode).
    pub obpi: u8,

    /// Status register; its low bits belong to the rendering pipeline and
    /// bus writes reach only the upper, interrupt-enable bits.
    pub stat: u8,
    /// Background palette data (color mode).
    pub bgpd: Vec<u8>,
    /// Object palette data (color mode).
    pub obpd: Vec<u8>,
}

impl View for PPU {
    type V = PpuView;

    open spec fn view(&self) -> PpuView {
        PpuView {
            lcdc: self.lcdc,
            scx: self.scx,
            scy: self.scy,
            ly: self.ly,
            lyc: self.lyc,
            wy: self.wy,
            wx: self.wx,
            bgp: self.bgp,
            obp0: self.obp0,
            obp1: self.obp1,
            bgpi: self.bgpi,
            obpi: self.obpi,
            stat: self.stat,
            bgpd: self.bgpd@,
            obpd: self.obpd@,
        }
    }
}

/// The LY/LYC bookkeeping every scanline performs: advance LY modulo the
/// scanline count and refresh the coincidence status bit.
pub open spec fn spec_ly_advance(p: PpuView) -> PpuView {
    let ly2 = ((p.ly + 1) % 154) as u8;
    let stat2 = if ly2 == p.lyc {
        p.stat | STAT_LYC
    } else {
        p.stat & !STAT_LYC
    };
    PpuView { ly: ly2, stat: stat2, ..p }
}

/// The RGBA value composited at pixel (x, y): the winning sprite's color when
/// one covers the pixel, is opaque and sprites are enabled, else the
/// background color, each resolved through its palette register.
pub open spec fn spec_pixel(p: PpuView, vram: Seq<u8>, oam: Seq<u8>, x: int, y: int) -> (
    u8,
    u8,
    u8,
    u8,
) {
    let tilemap_x = ((x + p.scx) % 256) / 8;
    let tilemap_y = ((y + p.scy) % 256) / 8;
    let tile = vram[0x1800 + tilemap_y * 32 + tilemap_x];
    let tile_x = (x + p.scx) % 8;
    let tile_y = (y + p.scy) % 8;
    let bg_select = p.lcdc & LCDC_BG8000 == 0;
    let bg_color = spec_tile_pixel(vram, tile, tile_x, tile_y, bg_select);
    let bg_palette = if p.lcdc & LCDC_BGON == 0 {
        0u8
    } else {
        p.bgp
    };
    let cands = spec_line_sprites(oam, y, 40);
    match spec_best_sprite(cands, x, cands.len() as int) {
        None => spec_shade(bg_palette, bg_color),
        Some(s) => {
            let spr_color = spec_tile_pixel(vram, s.tile, x - s.x, y - s.y, false);
            if spr_color == 0 || p.lcdc & LCDC_OBJON == 0 {
                spec_shade(bg_palette, bg_color)
            } else {
                let spr_palette = if s.attrs & 0x10 == 0 {
                    p.obp0
                } else {
                    p.obp1
                };
                spec_shade(spr_palette, spr_color)
            }
        },
    }
}

/// Byte k (0..4) of the RGBA value composited at pixel (x, y).
pub open spec fn spec_pixel_byte(
    p: PpuView,
    vram: Seq<u8>,
    oam: Seq<u8>,
    x: int,
    y: int,
    k: int,
) -> u8 {
    let px = spec_pixel(p, vram, oam, x, y);
    if k == 0 {
        px.0
    } else if k == 1 {
        px.1
    } else if k == 2 {
        px.2
    } else {
        px.3
    }
}

/// The framebuffer after scanline y is rendered: the line's bytes are the
/// composited pixels, everything else is unchanged.
pub open spec fn spec_render_line(
    fb: Seq<u8>,
    p: PpuView,
    vram: Seq<u8>,
    oam: Seq<u8>,
    y: int,
) -> Seq<u8> {
    Seq::new(
        fb.len(),
        |i: int|
            if y * LINE_BYTES <= i < y * LINE_BYTES + LINE_BYTES {
                spec_pixel_byte(p, vram, oam, (i - y * LINE_BYTES) / 4, y, (i - y * LINE_BYTES) % 4)
            } else {
                fb[i]
            },
    )
}

/// One whole scanline transition: LY/LYC bookkeeping always happens; the
/// framebuffer changes only for visible lines.
pub open spec fn spec_scanline(p: PpuView, fb: Seq<u8>, vram: Seq<u8>, oam: Seq<u8>) -> (
    PpuView,
    Seq<u8>,
) {
    let y = p.ly as int;
    let p2 = spec_ly_advance(p);
    if y >= 144 {
        (p2, fb)
    } else {
        (p2, spec_render_line(fb, p, vram, oam, y))
    }
}

/// Scanline rendering is deterministic: with video RAM, object attribute
/// memory and the scroll/palette registers fixed, rendering the same
/// scanline index a second time (with LY reset between the calls) leaves
/// every framebuffer byte exactly as the first call wrote it.
pub proof fn lemma_scanline_deterministic(p: PpuView, fb: Seq<u8>, vram: Seq<u8>, oam: Seq<u8>)
    ensures
        ({
            let (p2, fb1) = spec_scanline(p, fb, vram, oam);
            let pr = PpuView { ly: p.ly, ..p2 };
            let (p3, fb2) = spec_scanline(pr, fb1, vram, oam);
            fb2 == fb1
        }),
{
    let (p2, fb1) = spec_scanline(p, fb, vram, oam);
    let pr = PpuView { ly: p.ly, ..p2 };
    let y = p.ly as int;
    if y < 144 {
        assert forall|n: int| 0 <= n < fb1.len() implies spec_render_line(
            fb1,
            pr,
            vram,
            oam,
            y,
        )[n] == fb1[n] by {
            if y * LINE_BYTES <= n < y * LINE_BYTES + LINE_BYTES {
                assert(spec_pixel(pr, vram, oam, (n - y * LINE_BYTES) / 4, y) == spec_pixel(
                    p,
                    vram,
                    oam,
                    (n - y * LINE_BYTES) / 4,
                    y,
                ));
            }
        }
        assert(spec_render_line(fb1, pr, vram, oam, y) =~= fb1);
    }
}

/// The two tile-addressing modes disagree on every tile number at or above
/// 128: unsigned addressing stays in the second 128-tile block of tile data
/// while signed addressing reaches the third, so the same tile number
/// references different underlying tile bitmaps.
pub proof fn lemma_tile_addressing_blocks(tile: u8)
    requires
        tile >= 128,
    ensures
        128 <= spec_tile_index(tile, false) < 256,
        256 <= spec_tile_index(tile, true) < 384,
{
}

/// Sprite selection for a scanline picks at most ten sprites, and every one
/// of them covers the line vertically.
pub proof fn lemma_line_sprites_on_line(oam: Seq<u8>, y: int, n: int)
    ensures
        spec_line_sprites(oam, y, n).len() <= 10,
        forall|j: int|
            0 <= j < spec_line_sprites(oam, y, n).len() ==> sprite_on_line(
                #[trigger] spec_line_sprites(oam, y, n)[j],
                y,
            ),
    decreases n,
{
    if n > 0 {
        lemma_line_sprites_on_line(oam, y, n - 1);
    }
}

/// Sprite draw priority: when a sprite wins a pixel column, it covers that
/// column, it is one of the selected candidates, and no candidate covering
/// the column sits further left — first-by-X wins, earlier candidates winning
/// ties.  When no sprite wins, no candidate covers the column.
pub proof fn lemma_sprite_priority(cands: Seq<Sprite>, x: int, n: int)
    requires
        0 <= n <= cands.len(),
    ensures
        spec_best_sprite(cands, x, n) matches Some(s) ==> sprite_covers(s, x) && (exists|j: int|
            0 <= j < n && cands[j] == s) && (forall|j: int|
            0 <= j < n && sprite_covers(#[trigger] cands[j], x) ==> s.x <= cands[j].x),
        spec_best_sprite(cands, x, n) is None ==> forall|j: int|
            0 <= j < n ==> !sprite_covers(#[trigger] cands[j], x),
    decreases n,
{
    if n > 0 {
        lemma_sprite_priority(cands, x, n - 1);
        let prev = spec_best_sprite(cands, x, n - 1);
        let s = cands[n - 1];
        if sprite_covers(s, x) && (prev is None || s.x < prev.unwrap().x) {
            assert(0 <= n - 1 < n && cands[n - 1] == s);
        } else {
            match prev {
                None => {},
                Some(b) => {
                    let jb = choose|j: int| 0 <= j < n - 1 && cands[j] == b;
                    assert(0 <= jb < n && cands[jb] == b);
                },
            }
        }
    }
}

/// A 6-bit-masked palette index stays inside the 64-byte palette array.
pub(crate) proof fn lemma_mask_3f(z: u8)
    by (bit_vector)
    ensures
        z & 0x3f < 64,
{
}

/// A 2-bit color index assembled from two bitmap bits is below four.
proof fn lemma_color_index_bound(s0: u8, s1: u8)
    by (bit_vector)
    ensures
        ((s0 & 0x1) | (((s1 & 0x1)) << 1)) < 4,
{
}

impl Sprite {
    /// Decode the i-th sprite entry of object attribute memory.
    pub fn from(oam: &Vec<u8>, i: usize) -> (r: Sprite)
        requires
            oam.len() == 160,
            i < 40,
        ensures
            r == spec_sprite_at(oam@, i as int),
    {
        Sprite {
            y: oam[4 * i] as i16 - 16,
            x: oam[4 * i + 1] as i16 - 8,
            tile: oam[4 * i + 2],
            attrs: oam[4 * i + 3],
        }
    }
}

impl PPU {
    /// Power-on state: background palette data all white, object palette data
    /// left as startup noise, display and background enabled.
    pub fn new() -> (r: PPU)
        ensures
            r.wf(),
            r@.lcdc == (LCDC_ON | LCDC_BG8000 | LCDC_BGON),
            r@.scx == 0 && r@.scy == 0 && r@.ly == 0 && r@.lyc == 0,
            r@.wy == 0 && r@.wx == 0,
            r@.bgp == 0xFC && r@.obp0 == 0xFF && r@.obp1 == 0xFF,
            r@.bgpi == 0 && r@.obpi == 0,
            r@.stat == 0,
            forall|i: int| 0 <= i < 64 ==> r@.bgpd[i] == 0xFF,
    {
        let mut ppu = PPU {
            lcdc: 0,
            scx: 0,
            scy: 0,
            ly: 0,
            lyc: 0,
            wy: 0,
            wx: 0,
            bgp: 0,
            obp0: 0,
            obp1: 0,
            bgpi: 0,
            obpi: 0,
            stat: 0,
            bgpd: Vec::new(),
            obpd: Vec::new(),
        };
        let mut i: usize = 0;
        while i < 64
            invariant
                i <= 64,
                ppu.bgpd@.len() == i,
                ppu.obpd@.len() == i,
                forall|j: int| 0 <= j < i ==> ppu.bgpd@[j] == 0xFF,
                ppu.lcdc == 0 && ppu.scx == 0 && ppu.scy == 0 && ppu.ly == 0,
                ppu.lyc == 0 && ppu.wy == 0 && ppu.wx == 0 && ppu.bgp == 0,
                ppu.obp0 == 0 && ppu.obp1 == 0 && ppu.bgpi == 0 && ppu.obpi == 0,
                ppu.stat == 0,
            decreases 64 - i,
        {
            ppu.bgpd.push(0xFF);
            ppu.obpd.push(random_byte());
            i += 1;
        }
        ppu.lcdc = LCDC_ON | LCDC_BG8000 | LCDC_BGON;
        ppu.bgp = 0xFC;
        ppu.obp0 = 0xFF;
        ppu.obp1 = 0xFF;
        ppu
    }

    /// Both palette-data arrays hold their full 64 bytes.
    pub open spec fn wf(&self) -> bool {
        ppu_view_wf(self@)
    }

    /// 2-bit color index of pixel (x, y) of the given tile.  With select
    /// false the tile number indexes tile data unsigned from the start of
    /// video RAM; with select true it uses the signed addressing mode.
    pub fn get_tile_pixel_color(
        tile: u8,
        x: usize,
        y: usize,
        vram: &Vec<u8>,
        select: bool,
    ) -> (r: u8)
        requires
            x < 8,
            y < 8,
            vram.len() == 8192,
        ensures
            r == spec_tile_pixel(vram@, tile, x as int, y as int, select),
            r < 4,
    {
        let index: usize = if select {
            if tile < 128 {
                tile as usize + 256
            } else {
                tile as usize + 128
            }
        } else {
            tile as usize
        };
        let byte0: u8 = vram[index * 16 + y * 2];
        let byte1: u8 = vram[index * 16 + y * 2 + 1];
        let s0: u8 = byte0 >> (7 - x);
        let s1: u8 = byte1 >> (7 - x);
        let r: u8 = (s0 & 0x1) | ((s1 & 0x1) << 1);
        proof {
            lemma_color_index_bound(s0, s1);
        }
        r
    }

    /// Write the RGBA shade of a palette-resolved color index into the four
    /// framebuffer bytes starting at base.
    pub fn put_color(pixel: &mut Vec<u8>, base: usize, color: u8, palette: u8)
        requires
            color < 4,
            base + 4 <= old(pixel).len(),
        ensures
            final(pixel)@ == old(pixel)@.update(base as int, spec_shade(palette, color).0).update(
                base + 1,
                spec_shade(palette, color).1,
            ).update(base + 2, spec_shade(palette, color).2).update(
                base + 3,
                spec_shade(palette, color).3,
            ),
    {
        let v: u8 = (palette >> (color * 2)) & 0x3;
        if v == 0 {
            pixel.set(base, 0x9b);
            pixel.set(base + 1, 0xbc);
            pixel.set(base + 2, 0x0f);
            pixel.set(base + 3, 0xff);
        } else if v == 1 {
            pixel.set(base, 0x8b);
            pixel.set(base + 1, 0xac);
            pixel.set(base + 2, 0x0f);
            pixel.set(base + 3, 0xff);
        } else if v == 2 {
            pixel.set(base, 0x30);
            pixel.set(base + 1, 0x62);
            pixel.set(base + 2, 0x30);
            pixel.set(base + 3, 0xff);
        } else {
            pixel.set(base, 0x0f);
            pixel.set(base + 1, 0x38);
            pixel.set(base + 2, 0x0f);
            pixel.set(base + 3, 0xff);
        }
    }

    /// Render the scanline LY points at into the framebuffer, then advance LY
    /// modulo the scanline count and refresh the LY/LYC coincidence bit.
    /// Scanlines in the vertical blanking region perform only the
    /// bookkeeping and leave the framebuffer untouched.
    pub fn draw_scanline(&mut self, framebuf: &mut Vec<u8>, vram: &Vec<u8>, oam: &Vec<u8>)
        requires
            old(framebuf).len() == FRAME_BYTES,
            vram.len() == 8192,
            oam.len() == 160,
        ensures
            final(framebuf)@.len() == FRAME_BYTES,
            (final(self)@, final(framebuf)@) == spec_scanline(
                old(self)@,
                old(framebuf)@,
                vram@,
                oam@,
            ),
    {
        let ghost p0: PpuView = self@;
        let ghost fb0: Seq<u8> = framebuf@;
        let y: usize = self.ly as usize;
        self.ly = ((self.ly as u16 + 1) % 154) as u8;
        if self.ly == self.lyc {
            self.stat = self.stat | STAT_LYC;
        } else {
            self.stat = self.stat & !STAT_LYC;
        }
        if y >= SCREEN_HEIGHT {
            return ;
        }
        let mut cands: Vec<Sprite> = Vec::new();
        let mut i: usize = 0;
        while i < 40
            invariant
                i <= 40,
                oam.len() == 160,
                y < 144,
                cands@ == spec_line_sprites(oam@, y as int, i as int),
            decreases 40 - i,
        {
            if cands.len() < 10 {
                let s: Sprite = Sprite::from(oam, i);
                let y32: i32 = y as i32;
                if y32 >= s.y as i32 && y32 < s.y as i32 + 8 {
                    cands.push(s);
                }
            }
            i += 1;
        }
        proof {
            lemma_line_sprites_on_line(oam@, y as int, 40);
        }

        let mut x: usize = 0;
        while x < SCREEN_WIDTH
            invariant
                x <= 160,
                y < 144,
                vram.len() == 8192,
                oam.len() == 160,
                framebuf@.len() == FRAME_BYTES,
                self@ == spec_ly_advance(p0),
                fb0.len() == FRAME_BYTES,
                cands@ == spec_line_sprites(oam@, y as int, 40),
                forall|k: int|
                    0 <= k < cands@.len() ==> sprite_on_line(#[trigger] cands@[k], y as int),
                forall|n: int|
                    0 <= n < FRAME_BYTES && !(y * LINE_BYTES <= n < y * LINE_BYTES + 4 * x) ==> framebuf@[n]
                        == fb0[n],
                forall|n: int|
                    y * LINE_BYTES <= n < y * LINE_BYTES + 4 * x ==> framebuf@[n] == spec_pixel_byte(
                        p0,
                        vram@,
                        oam@,
                        (n - y * LINE_BYTES) / 4,
                        y as int,
                        (n - y * LINE_BYTES) % 4,
                    ),
            decreases 160 - x,
        {
            let base: usize = y * LINE_BYTES + x * 4;
            let scx: usize = self.scx as usize;
            let scy: usize = self.scy as usize;
            let tilemap_x: usize = ((x + scx) % 256) / 8;
            let tilemap_y: usize = ((y + scy) % 256) / 8;
            let tile: u8 = vram[0x1800 + tilemap_y * 32 + tilemap_x];
            let tile_x: usize = (x + scx) % 8;
            let tile_y: usize = (y + scy) % 8;
            let bg_select: bool = self.lcdc & LCDC_BG8000 == 0;
            let bg_color: u8 = Self::get_tile_pixel_color(tile, tile_x, tile_y, vram, bg_select);
            let bg_palette: u8 = if self.lcdc & LCDC_BGON == 0 {
                0
            } else {
                self.bgp
            };

            let mut best: Option<Sprite> = None;
            let mut j: usize = 0;
            while j < cands.len()
                invariant
                    j <= cands@.len(),
                    x < 160,
                    best == spec_best_sprite(cands@, x as int, j as int),
                decreases cands@.len() - j,
            {
                let s: Sprite = cands[j];
                let x32: i32 = x as i32;
                if x32 >= s.x as i32 && x32 < s.x as i32 + 8 {
                    best = match best {
                        None => Some(s),
                        Some(b) => if s.x < b.x {
                            Some(s)
                        } else {
                            Some(b)
                        },
                    };
                }
                j += 1;
            }
            proof {
                lemma_sprite_priority(cands@, x as int, cands@.len() as int);
            }

            match best {
                None => {
                    Self::put_color(framebuf, base, bg_color, bg_palette);
                },
                Some(s) => {
                    let sxp: usize = (x as i32 - s.x as i32) as usize;
                    let syp: usize = (y as i32 - s.y as i32) as usize;
                    let spr_color: u8 = Self::get_tile_pixel_color(s.tile, sxp, syp, vram, false);
                    let spr_palette: u8 = if s.attrs & 0x10 == 0 {
                        self.obp0
                    } else {
                        self.obp1
                    };
                    if spr_color == 0 || self.lcdc & LCDC_OBJON == 0 {
                        Self::put_color(framebuf, base, bg_color, bg_palette);
                    } else {
                        Self::put_color(framebuf, base, spr_color, spr_palette);
                    }
                },
            }
            x += 1;
        }
        proof {
            assert(framebuf@ =~= spec_render_line(fb0, p0, vram@, oam@, y as int));
        }
    }

    /// Raw status register, rendering-owned bits included.
    pub fn get_stat(&self) -> (r: u8)
        ensures
            r == self@.stat,
    {
        self.stat
    }

    /// Masked status write: only the interrupt-enable bits change; the bits
    /// owned by the rendering pipeline keep their values.
    pub fn set_stat(&mut self, stat: u8)
        ensures
            final(self)@ == (PpuView {
                stat: (old(self)@.stat & !STAT_RWMASK) | (stat & STAT_RWMASK),
                ..old(self)@
            }),
    {
        self.stat = (self.stat & !STAT_RWMASK) | (stat & STAT_RWMASK);
    }

    /// Background palette data byte selected by the masked index register.
    pub fn get_bgpd(&self) -> (r: u8)
        requires
            self.wf(),
        ensures
            r == self@.bgpd[(self@.bgpi & 0x3f) as int],
    {
        proof {
            lemma_mask_3f(self.bgpi);
        }
        self.bgpd[(self.bgpi & 0x3f) as usize]
    }

    /// Write the background palette data byte selected by the masked index
    /// register.
    pub fn set_bgpd(&mut self, value: u8)
        requires
            old(self).wf(),
        ensures
            final(self)@ == (PpuView {
                bgpd: old(self)@.bgpd.update((old(self)@.bgpi & 0x3f) as int, value),
                ..old(self)@
            }),
    {
        proof {
            lemma_mask_3f(self.bgpi);
        }
        self.bgpd.set((self.bgpi & 0x3f) as usize, value);
    }

    /// Object palette data byte selected by the masked index register.
    pub fn get_obpd(&self) -> (r: u8)
        requires
            self.wf(),
        ensures
            r == self@.obpd[(self@.obpi & 0x3f) as int],
    {
        proof {
            lemma_mask_3f(self.obpi);
        }
        self.obpd[(self.obpi & 0x3f) as usize]
    }

    /// Write the object palette data byte selected by the masked index
    /// register.
    pub fn set_obpd(&mut self, value: u8)
        requires
            old(self).wf(),
        ensures
            final(self)@ == (PpuView {
                obpd: old(self)@.obpd.update((old(self)@.obpi & 0x3f) as int, value),
                ..old(self)@
            }),
    {
        proof {
            lemma_mask_3f(self.obpi);
        }
        self.obpd.set((self.obpi & 0x3f) as usize, value);
    }
}

} // verus!
