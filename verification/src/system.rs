//! Memory bus: owns every addressable store (ROM, video RAM, external RAM,
//! work RAM, object attribute memory, high RAM), the interrupt-enable and
//! interrupt-flags registers and the PPU, and decodes 16-bit addresses to the
//! right backing store or peripheral register.  Reads of unmapped addresses
//! yield a sentinel and writes to them are discarded; the bus never fails.

use vstd::arithmetic::div_mod::lemma_add_mod_noop;
use vstd::prelude::*;

use crate::ppu::FRAME_BYTES;
use crate::ppu::PPU;
use crate::ppu::PpuView;
use crate::ppu::SCANLINES;
use crate::ppu::STAT_RWMASK;
use crate::ppu::ppu_view_wf;
use crate::ppu::spec_scanline;
use crate::rng::random_byte;

verus! {

const ROM_SIZE: usize = 32 * 1024;

const VRAM_SIZE: usize = 8 * 1024;

const EXTRAM_SIZE: usize = 8 * 1024;

const WRAM_SIZE: usize = 8 * 1024;

const OAM_SIZE: usize = 160;

const HRAM_SIZE: usize = 127;

/// Mathematical model of the bus: the PPU model, one byte sequence per
/// memory region, and the two interrupt registers.
#[verifier::ext_equal]
pub struct SystemView {
    pub ppu: PpuView,
    pub rom: Seq<u8>,
    pub vram: Seq<u8>,
    pub extram: Seq<u8>,
    pub wram: Seq<u8>,
    pub oam: Seq<u8>,
    pub hram: Seq<u8>,
    pub iflags: u8,
    pub ie: u8,
}

/// Every region of a well-formed bus model has its fixed size.
pub open spec fn sys_wf(s: SystemView) -> bool {
    &&& ppu_view_wf(s.ppu)
    &&& s.rom.len() == 32768
    &&& s.vram.len() == 8192
    &&& s.extram.len() == 8192
    &&& s.wram.len() == 8192
    &&& s.oam.len() == 160
    &&& s.hram.len() == 127
}

/// The byte a bus read returns for each 16-bit address: backing storage for
/// the mapped regions, PPU registers through their accessors, 0xFF for the
/// echo region and every unmapped address, 0x00 for the unusable region.
pub open spec fn spec_bus_read(s: SystemView, addr: u16) -> u8 {
    if addr < 0x8000 {
        s.rom[addr as int]
    } else if addr < 0xA000 {
        s.vram[addr - 0x8000]
    } else if addr < 0xC000 {
        s.extram[addr - 0xA000]
    } else if addr < 0xE000 {
        s.wram[addr - 0xC000]
    } else if addr < 0xFE00 {
        0xFF
    } else if addr < 0xFEA0 {
        s.oam[addr - 0xFE00]
    } else if addr < 0xFF00 {
        0x00
    } else if addr == 0xFF0F {
        s.iflags
    } else if addr == 0xFF40 {
        s.ppu.lcdc
    } else if addr == 0xFF41 {
        s.ppu.stat
    } else if addr == 0xFF42 {
        s.ppu.scy
    } else if addr == 0xFF43 {
        s.ppu.scx
    } else if addr == 0xFF44 {
        s.ppu.ly
    } else if addr == 0xFF45 {
        s.ppu.lyc
    } else if addr == 0xFF47 {
        s.ppu.bgp
    } else if addr == 0xFF48 {
        s.ppu.obp0
    } else if addr == 0xFF49 {
        s.ppu.obp1
    } else if addr == 0xFF4A {
        s.ppu.wy
    } else if addr == 0xFF4B {
        s.ppu.wx
    } else if addr == 0xFF68 {
        s.ppu.bgpi
    } else if addr == 0xFF69 {
        s.ppu.bgpd[(s.ppu.bgpi & 0x3f) as int]
    } else if addr == 0xFF6A {
        s.ppu.obpi
    } else if addr == 0xFF6B {
        s.ppu.obpd[(s.ppu.obpi & 0x3f) as int]
    } else if 0xFF80 <= addr && addr < 0xFFFF {
        s.hram[addr - 0xFF80]
    } else if addr == 0xFFFF {
        s.ie
    } else {
        0xFF
    }
}

/// The bus state after a write: the addressed cell or register changes,
/// everything else keeps its value; writes into the echo region, the
/// unusable region and unmapped addresses are discarded.
pub open spec fn spec_bus_write(s: SystemView, addr: u16, data: u8) -> SystemView {
    if addr < 0x8000 {
        SystemView { rom: s.rom.update(addr as int, data), ..s }
    } else if addr < 0xA000 {
        SystemView { vram: s.vram.update(addr - 0x8000, data), ..s }
    } else if addr < 0xC000 {
        SystemView { extram: s.extram.update(addr - 0xA000, data), ..s }
    } else if addr < 0xE000 {
        SystemView { wram: s.wram.update(addr - 0xC000, data), ..s }
    } else if addr < 0xFE00 {
        s
    } else if addr < 0xFEA0 {
        SystemView { oam: s.oam.update(addr - 0xFE00, data), ..s }
    } else if addr < 0xFF00 {
        s
    } else if addr == 0xFF0F {
        SystemView { iflags: data, ..s }
    } else if addr == 0xFF40 {
        SystemView { ppu: PpuView { lcdc: data, ..s.ppu }, ..s }
    } else if addr == 0xFF41 {
        SystemView {
            ppu: PpuView {
                stat: (s.ppu.stat & !STAT_RWMASK) | (data & STAT_RWMASK),
                ..s.ppu
            },
            ..s
        }
    } else if addr == 0xFF42 {
        SystemView { ppu: PpuView { scy: data, ..s.ppu }, ..s }
    } else if addr == 0xFF43 {
        SystemView { ppu: PpuView { scx: data, ..s.ppu }, ..s }
    } else if addr == 0xFF44 {
        SystemView { ppu: PpuView { ly: data, ..s.ppu }, ..s }
    } else if addr == 0xFF45 {
        SystemView { ppu: PpuView { lyc: data, ..s.ppu }, ..s }
    } else if addr == 0xFF47 {
        SystemView { ppu: PpuView { bgp: data, ..s.ppu }, ..s }
    } else if addr == 0xFF48 {
        SystemView { ppu: PpuView { obp0: data, ..s.ppu }, ..s }
    } else if addr == 0xFF49 {
        SystemView { ppu: PpuView { obp1: data, ..s.ppu }, ..s }
    } else if addr == 0xFF4A {
        SystemView { ppu: PpuView { wy: data, ..s.ppu }, ..s }
    } else if addr == 0xFF4B {
        SystemView { ppu: PpuView { wx: data, ..s.ppu }, ..s }
    } else if addr == 0xFF68 {
        SystemView { ppu: PpuView { bgpi: data, ..s.ppu }, ..s }
    } else if addr == 0xFF69 {
        SystemView {
            ppu: PpuView {
                bgpd: s.ppu.bgpd.update((s.ppu.bgpi & 0x3f) as int, data),
                ..s.ppu
            },
            ..s
        }
    } else if addr == 0xFF6A {
        SystemView { ppu: PpuView { obpi: data, ..s.ppu }, ..s }
    } else if addr == 0xFF6B {
        SystemView {
            ppu: PpuView {
                obpd: s.ppu.obpd.update((s.ppu.obpi & 0x3f) as int, data),
                ..s.ppu
            },
            ..s
        }
    } else if 0xFF80 <= addr && addr < 0xFFFF {
        SystemView { hram: s.hram.update(addr - 0xFF80, data), ..s }
    } else if addr == 0xFFFF {
        SystemView { ie: data, ..s }
    } else {
        s
    }
}

/// Addresses backed by a plain storage cell, where a read returns exactly
/// what the last write stored: the ROM/RAM regions, object attribute memory,
/// high RAM and the interrupt-enable register.
pub open spec fn plain_ram(addr: u16) -> bool {
    addr < 0xE000 || (0xFE00 <= addr && addr < 0xFEA0) || 0xFF80 <= addr
}

/// A write never changes any region's size.
pub proof fn lemma_write_wf(s: SystemView, addr: u16, data: u8)
    requires
        sys_wf(s),
    ensures
        sys_wf(spec_bus_write(s, addr, data)),
{
    crate::ppu::lemma_mask_3f(s.ppu.bgpi);
    crate::ppu::lemma_mask_3f(s.ppu.obpi);
}

/// Reading a plainly backed address after writing it returns the byte
/// written.
pub proof fn lemma_read_after_write(s: SystemView, addr: u16, data: u8)
    requires
        sys_wf(s),
        plain_ram(addr),
    ensures
        spec_bus_read(spec_bus_write(s, addr, data), addr) == data,
{
}

/// Writing one plainly backed address leaves the byte read at any other
/// plainly backed address unchanged.
pub proof fn lemma_read_after_write_other(s: SystemView, addr: u16, other: u16, data: u8)
    requires
        sys_wf(s),
        plain_ram(addr),
        plain_ram(other),
        addr != other,
    ensures
        spec_bus_read(spec_bus_write(s, addr, data), other) == spec_bus_read(s, other),
{
}

/// One scanline of a frame as the bus sees it: the PPU renders against the
/// bus's video RAM and object attribute memory.
pub open spec fn spec_frame_step(s: SystemView, fb: Seq<u8>) -> (SystemView, Seq<u8>) {
    let (p2, fb2) = spec_scanline(s.ppu, fb, s.vram, s.oam);
    (SystemView { ppu: p2, ..s }, fb2)
}

/// The bus and framebuffer after n scanline steps.
pub open spec fn spec_frame_n(s: SystemView, fb: Seq<u8>, n: int) -> (SystemView, Seq<u8>)
    decreases n,
{
    if n <= 0 {
        (s, fb)
    } else {
        let (s1, fb1) = spec_frame_n(s, fb, n - 1);
        spec_frame_step(s1, fb1)
    }
}

/// After n scanline steps (one at least) LY has advanced by n, modulo the
/// scanline count.
pub proof fn lemma_frame_ly(s: SystemView, fb: Seq<u8>, n: int)
    requires
        n >= 1,
    ensures
        spec_frame_n(s, fb, n).0.ppu.ly == (s.ppu.ly + n) % 154,
    decreases n,
{
    if n > 1 {
        lemma_frame_ly(s, fb, n - 1);
        lemma_add_mod_noop(s.ppu.ly + (n - 1), 1, 154);
    } else {
        assert(spec_frame_n(s, fb, 0) == (s, fb));
    }
}

/// The memory bus.  Exclusively owns the PPU and every backing array; the
/// CPU observes and mutates PPU state only through bus reads and writes.
pub struct System {
    ppu: PPU,
    rom: Vec<u8>,
    vram: Vec<u8>,
    extram: Vec<u8>,
    wram: Vec<u8>,
    oam: Vec<u8>,
    hram: Vec<u8>,
    iflags: u8,
    ie: u8,
}

impl View for System {
    type V = SystemView;

    closed spec fn view(&self) -> SystemView {
        SystemView {
            ppu: self.ppu@,
            rom: self.rom@,
            vram: self.vram@,
            extram: self.extram@,
            wram: self.wram@,
            oam: self.oam@,
            hram: self.hram@,
            iflags: self.iflags,
            ie: self.ie,
        }
    }
}

/// A vector of the given length filled with power-on noise.
fn noise_vec(n: usize) -> (r: Vec<u8>)
    ensures
        r@.len() == n,
{
    let mut v: Vec<u8> = Vec::new();
    let mut i: usize = 0;
    while i < n
        invariant
            v@.len() == i,
            i <= n,
        decreases n - i,
    {
        v.push(random_byte());
        i += 1;
    }
    v
}

impl System {
    /// Every region sized as the address decoder expects.
    pub open spec fn wf(&self) -> bool {
        sys_wf(self@)
    }

    /// Power-on state: ROM cleared, RAM regions and object attribute memory
    /// filled with startup noise, interrupt registers cleared, PPU in its
    /// power-on state.
    pub fn new() -> (r: System)
        ensures
            r.wf(),
            forall|i: int| 0 <= i < 32768 ==> r@.rom[i] == 0,
            r@.iflags == 0,
            r@.ie == 0,
            r@.ppu.ly == 0 && r@.ppu.stat == 0,
            r@.ppu.scx == 0 && r@.ppu.scy == 0 && r@.ppu.lyc == 0,
            r@.ppu.wy == 0 && r@.ppu.wx == 0,
            r@.ppu.lcdc == (crate::ppu::LCDC_ON | crate::ppu::LCDC_BG8000 | crate::ppu::LCDC_BGON),
            r@.ppu.bgp == 0xFC && r@.ppu.obp0 == 0xFF && r@.ppu.obp1 == 0xFF,
            r@.ppu.bgpi == 0 && r@.ppu.obpi == 0,
            forall|i: int| 0 <= i < 64 ==> r@.ppu.bgpd[i] == 0xFF,
    {
        let mut rom: Vec<u8> = Vec::new();
        let mut i: usize = 0;
        while i < ROM_SIZE
            invariant
                rom@.len() == i,
                i <= ROM_SIZE,
                forall|j: int| 0 <= j < i ==> rom@[j] == 0,
            decreases ROM_SIZE - i,
        {
            rom.push(0);
            i += 1;
        }
        System {
            ppu: PPU::new(),
            rom,
            vram: noise_vec(VRAM_SIZE),
            extram: noise_vec(EXTRAM_SIZE),
            wram: noise_vec(WRAM_SIZE),
            oam: noise_vec(OAM_SIZE),
            hram: noise_vec(HRAM_SIZE),
            iflags: 0,
            ie: 0,
        }
    }

    /// Total address decode for reads; never fails.
    pub fn read(&self, addr: u16) -> (r: u8)
        requires
            self.wf(),
        ensures
            r == spec_bus_read(self@, addr),
    {
        if addr < 0x8000 {
            self.rom[addr as usize]
        } else if addr < 0xA000 {
            self.vram[(addr - 0x8000) as usize]
        } else if addr < 0xC000 {
            self.extram[(addr - 0xA000) as usize]
        } else if addr < 0xE000 {
            self.wram[(addr - 0xC000) as usize]
        } else if addr < 0xFE00 {
            0xFF
        } else if addr < 0xFEA0 {
            self.oam[(addr - 0xFE00) as usize]
        } else if addr < 0xFF00 {
            0x00
        } else if addr == 0xFF0F {
            self.iflags
        } else if addr == 0xFF40 {
            self.ppu.lcdc
        } else if addr == 0xFF41 {
            self.ppu.get_stat()
        } else if addr == 0xFF42 {
            self.ppu.scy
        } else if addr == 0xFF43 {
            self.ppu.scx
        } else if addr == 0xFF44 {
            self.ppu.ly
        } else if addr == 0xFF45 {
            self.ppu.lyc
        } else if addr == 0xFF47 {
            self.ppu.bgp
        } else if addr == 0xFF48 {
            self.ppu.obp0
        } else if addr == 0xFF49 {
            self.ppu.obp1
        } else if addr == 0xFF4A {
            self.ppu.wy
        } else if addr == 0xFF4B {
            self.ppu.wx
        } else if addr == 0xFF68 {
            self.ppu.bgpi
        } else if addr == 0xFF69 {
            self.ppu.get_bgpd()
        } else if addr == 0xFF6A {
            self.ppu.obpi
        } else if addr == 0xFF6B {
            self.ppu.get_obpd()
        } else if 0xFF80 <= addr && addr < 0xFFFF {
            self.hram[(addr - 0xFF80) as usize]
        } else if addr == 0xFFFF {
            self.ie
        } else {
            0xFF
        }
    }

    /// Total address decode for writes; never fails.  Writes to PPU register
    /// addresses go through the PPU's accessors, preserving its masked-write
    /// rules.
    pub fn write(&mut self, addr: u16, data: u8)
        requires
            old(self).wf(),
        ensures
            final(self).wf(),
            final(self)@ == spec_bus_write(old(self)@, addr, data),
    {
        if addr < 0x8000 {
            self.rom.set(addr as usize, data);
        } else if addr < 0xA000 {
            self.vram.set((addr - 0x8000) as usize, data);
        } else if addr < 0xC000 {
            self.extram.set((addr - 0xA000) as usize, data);
        } else if addr < 0xE000 {
            self.wram.set((addr - 0xC000) as usize, data);
        } else if addr < 0xFE00 {
        } else if addr < 0xFEA0 {
            self.oam.set((addr - 0xFE00) as usize, data);
        } else if addr < 0xFF00 {
        } else if addr == 0xFF0F {
            self.iflags = data;
        } else if addr == 0xFF40 {
            self.ppu.lcdc = data;
        } else if addr == 0xFF41 {
            self.ppu.set_stat(data);
        } else if addr == 0xFF42 {
            self.ppu.scy = data;
        } else if addr == 0xFF43 {
            self.ppu.scx = data;
        } else if addr == 0xFF44 {
            self.ppu.ly = data;
        } else if addr == 0xFF45 {
            self.ppu.lyc = data;
        } else if addr == 0xFF47 {
            self.ppu.bgp = data;
        } else if addr == 0xFF48 {
            self.ppu.obp0 = data;
        } else if addr == 0xFF49 {
            self.ppu.obp1 = data;
        } else if addr == 0xFF4A {
            self.ppu.wy = data;
        } else if addr == 0xFF4B {
            self.ppu.wx = data;
        } else if addr == 0xFF68 {
            self.ppu.bgpi = data;
        } else if addr == 0xFF69 {
            self.ppu.set_bgpd(data);
        } else if addr == 0xFF6A {
            self.ppu.obpi = data;
        } else if addr == 0xFF6B {
            self.ppu.set_obpd(data);
        } else if 0xFF80 <= addr && addr < 0xFFFF {
            self.hram.set((addr - 0xFF80) as usize, data);
        } else if addr == 0xFFFF {
            self.ie = data;
        }
        proof {
            lemma_write_wf(old(self)@, addr, data);
        }
    }

    /// Render a full frame: one scanline render for every scanline, visible
    /// and blanking, in increasing LY order; LY ends where it began, modulo
    /// the scanline count.
    pub fn run_frame(&mut self, framebuf: &mut Vec<u8>)
        requires
            old(self).wf(),
            old(framebuf).len() == FRAME_BYTES,
        ensures
            final(self).wf(),
            final(framebuf)@.len() == FRAME_BYTES,
            (final(self)@, final(framebuf)@) == spec_frame_n(
                old(self)@,
                old(framebuf)@,
                SCANLINES as int,
            ),
            final(self)@.ppu.ly == old(self)@.ppu.ly % 154,
    {
        let ghost s0: SystemView = self@;
        let ghost fb0: Seq<u8> = framebuf@;
        let mut i: usize = 0;
        while i < SCANLINES
            invariant
                i <= SCANLINES,
                self.wf(),
                framebuf@.len() == FRAME_BYTES,
                (self@, framebuf@) == spec_frame_n(s0, fb0, i as int),
            decreases SCANLINES - i,
        {
            self.ppu.draw_scanline(framebuf, &self.vram, &self.oam);
            i += 1;
        }
        proof {
            lemma_frame_ly(s0, fb0, SCANLINES as int);
            lemma_add_mod_noop(s0.ppu.ly as int, 154, 154);
            vstd::arithmetic::div_mod::lemma_mod_twice(s0.ppu.ly as int, 154);
        }
    }
}

} // verus!
