//! CPU: general-purpose registers, derived flag register, stack and program
//! counters, interrupt-master-enable, and the fetch/decode/execute step with
//! interrupt dispatch.
//!
//! Known, deliberate gaps inherited from the instruction table: the
//! half-carry flag is reported as false by every operation that real
//! hardware would compute it for (AND's fixed true and the complement
//! instructions excepted), and the prefixed bit/rotate/shift instruction
//! block is absent — those opcodes surface as decode errors.

use vstd::prelude::*;

use crate::system::System;
use crate::system::SystemView;
use crate::system::spec_bus_read;
use crate::system::spec_bus_write;
use crate::words::sign_ext;
use crate::words::spec_hi;
use crate::words::spec_lo;
use crate::words::spec_sign_ext;
use crate::words::word16;

verus! {

/// Fatal decode error: the opcode byte that has no decoding, and the address
/// it was fetched from.  Execution cannot meaningfully continue past one.
#[derive(Clone, Copy, PartialEq, Eq, Structural, Debug)]
pub struct StepError {
    pub opcode: u8,
    pub addr: u16,
}

/// CPU register file: seven 8-bit registers, four independent flags (the low
/// nibble of the virtual AF pair), stack and program counters, the
/// interrupt-master-enable flag and the halted flag.  The 16-bit pairs are
/// derived views of the 8-bit registers, never separate storage.
#[derive(Clone, Copy, Debug)]
pub struct CPU {
    pub a: u8,
    pub b: u8,
    pub c: u8,
    pub d: u8,
    pub e: u8,
    pub h: u8,
    pub l: u8,

    /// Zero flag.
    pub zf: bool,
    /// Subtract/negative flag.
    pub nf: bool,
    /// Half-carry flag.
    pub hf: bool,
    /// Carry flag.
    pub cf: bool,

    pub sp: u16,
    pub pc: u16,

    /// Interrupt master enable.
    pub ime: bool,
    pub halted: bool,
}

/// The flag's bit position when packed into the low byte of AF, or zero.
pub open spec fn flag_bit(f: bool, bit: u16) -> u16 {
    if f {
        bit
    } else {
        0
    }
}

/// The virtual AF pair: A in the high byte, the four flags as bits 7..4.
pub open spec fn spec_af(c: CPU) -> u16 {
    ((c.a as u16) << 8) | flag_bit(c.zf, 0x80) | flag_bit(c.nf, 0x40) | flag_bit(c.hf, 0x20)
        | flag_bit(c.cf, 0x10)
}

/// The CPU after a write through the AF view: A and the four flag bits
/// change together, nothing else does.
pub open spec fn spec_set_af(c: CPU, v: u16) -> CPU {
    CPU {
        a: (v >> 8) as u8,
        zf: ((v >> 7) & 0x1) != 0,
        nf: ((v >> 6) & 0x1) != 0,
        hf: ((v >> 5) & 0x1) != 0,
        cf: ((v >> 4) & 0x1) != 0,
        ..c
    }
}

/// The virtual BC pair.
pub open spec fn spec_bc(c: CPU) -> u16 {
    word16(c.b, c.c)
}

/// The CPU after a write through the BC view.
pub open spec fn spec_set_bc(c: CPU, v: u16) -> CPU {
    CPU { b: spec_hi(v), c: spec_lo(v), ..c }
}

/// The virtual DE pair.
pub open spec fn spec_de(c: CPU) -> u16 {
    word16(c.d, c.e)
}

/// The CPU after a write through the DE view.
pub open spec fn spec_set_de(c: CPU, v: u16) -> CPU {
    CPU { d: spec_hi(v), e: spec_lo(v), ..c }
}

/// The virtual HL pair.
pub open spec fn spec_hl(c: CPU) -> u16 {
    word16(c.h, c.l)
}

/// The CPU after a write through the HL view.
pub open spec fn spec_set_hl(c: CPU, v: u16) -> CPU {
    CPU { h: spec_hi(v), l: spec_lo(v), ..c }
}

/// One opcode or operand byte fetched at the program counter, which then
/// advances by one, wrapping.
pub open spec fn spec_fetch8(c: CPU, s: SystemView) -> (u8, CPU) {
    (spec_bus_read(s, c.pc), CPU { pc: c.pc.wrapping_add(1), ..c })
}

/// A 16-bit operand fetched little-endian at the program counter, which then
/// advances by two, wrapping.
pub open spec fn spec_fetch16(c: CPU, s: SystemView) -> (u16, CPU) {
    (
        word16(spec_bus_read(s, c.pc.wrapping_add(1)), spec_bus_read(s, c.pc)),
        CPU { pc: c.pc.wrapping_add(2), ..c },
    )
}

/// A word pushed onto the stack: the stack pointer drops by two and the high
/// byte lands at the higher of the two freed addresses.
pub open spec fn spec_push16(c: CPU, s: SystemView, v: u16) -> (CPU, SystemView) {
    let s1 = spec_bus_write(s, c.sp.wrapping_sub(1), spec_hi(v));
    let s2 = spec_bus_write(s1, c.sp.wrapping_sub(2), spec_lo(v));
    (CPU { sp: c.sp.wrapping_sub(2), ..c }, s2)
}

/// A word popped off the stack, read little-endian at the stack pointer,
/// which then rises by two.
pub open spec fn spec_pop16(c: CPU, s: SystemView) -> (u16, CPU) {
    (
        word16(spec_bus_read(s, c.sp.wrapping_add(1)), spec_bus_read(s, c.sp)),
        CPU { sp: c.sp.wrapping_add(2), ..c },
    )
}

/// 16-bit add: the result wraps, carry reflects overflow out of bit 15,
/// subtract clears; half-carry is reported false (a known gap).
pub open spec fn spec_add16(c: CPU, a: u16, b: u16) -> (CPU, u16) {
    (CPU { cf: a + b > 0xFFFF, nf: false, hf: false, ..c }, ((a + b) % 0x10000) as u16)
}

/// 8-bit increment: zero flag from the wrapped result, subtract cleared,
/// carry untouched.
pub open spec fn spec_inc(c: CPU, v: u8) -> (CPU, u8) {
    let r = v.wrapping_add(1);
    (CPU { zf: r == 0, nf: false, hf: false, ..c }, r)
}

/// 8-bit decrement: zero flag from the wrapped result, subtract set, carry
/// untouched.
pub open spec fn spec_dec(c: CPU, v: u8) -> (CPU, u8) {
    let r = v.wrapping_sub(1);
    (CPU { zf: r == 0, nf: true, hf: false, ..c }, r)
}

/// Add into A: wrapped sum, zero flag from the result, carry on overflow out
/// of bit 7, subtract cleared.
pub open spec fn spec_add(c: CPU, v: u8) -> CPU {
    let r = c.a.wrapping_add(v);
    CPU { a: r, zf: r == 0, nf: false, hf: false, cf: c.a + v > 255, ..c }
}

/// Add with carry into A.
pub open spec fn spec_adc(c: CPU, v: u8) -> CPU {
    let cr: u8 = if c.cf {
        1
    } else {
        0
    };
    let r = c.a.wrapping_add(v).wrapping_add(cr);
    CPU { a: r, zf: r == 0, nf: false, hf: false, cf: c.a + v + cr > 255, ..c }
}

/// Subtract from A: wrapped difference, carry on borrow, subtract set.
pub open spec fn spec_sub(c: CPU, v: u8) -> CPU {
    let r = c.a.wrapping_sub(v);
    CPU { a: r, zf: r == 0, nf: true, hf: false, cf: c.a < v, ..c }
}

/// Subtract with borrow from A.
pub open spec fn spec_sbc(c: CPU, v: u8) -> CPU {
    let cr: u8 = if c.cf {
        1
    } else {
        0
    };
    let r = c.a.wrapping_sub(v).wrapping_sub(cr);
    CPU { a: r, zf: r == 0, nf: true, hf: false, cf: c.a < v + cr, ..c }
}

/// Bitwise AND into A: this is the one operation that reports half-carry
/// set; carry and subtract clear.
pub open spec fn spec_and(c: CPU, v: u8) -> CPU {
    let r = c.a & v;
    CPU { a: r, zf: r == 0, nf: false, hf: true, cf: false, ..c }
}

/// Bitwise XOR into A: all flags but zero clear.
pub open spec fn spec_xor(c: CPU, v: u8) -> CPU {
    let r = c.a ^ v;
    CPU { a: r, zf: r == 0, nf: false, hf: false, cf: false, ..c }
}

/// Bitwise OR into A: all flags but zero clear.
pub open spec fn spec_or(c: CPU, v: u8) -> CPU {
    let r = c.a | v;
    CPU { a: r, zf: r == 0, nf: false, hf: false, cf: false, ..c }
}

/// Compare A with a value: A keeps its value, zero flag on equality, carry
/// exactly when A is below the value, subtract set.
pub open spec fn spec_cp(c: CPU, v: u8) -> CPU {
    CPU { zf: c.a == v, nf: true, hf: false, cf: c.a < v, ..c }
}

/// Index (0..4) of the lowest set bit among the five interrupt sources:
/// vblank, LCD status, timer, serial, joypad, in priority order.
pub open spec fn spec_irq_index(p: u8) -> u16 {
    if p & 1 != 0 {
        0
    } else if p & 2 != 0 {
        1
    } else if p & 4 != 0 {
        2
    } else if p & 8 != 0 {
        3
    } else {
        4
    }
}

/// Single-bit mask of the lowest set bit among the five interrupt sources.
pub open spec fn spec_irq_mask(p: u8) -> u8 {
    if p & 1 != 0 {
        1
    } else if p & 2 != 0 {
        2
    } else if p & 4 != 0 {
        4
    } else if p & 8 != 0 {
        8
    } else {
        16
    }
}

/// Interrupt dispatch, performed before every step.  With interrupt-master-
/// enable set and some source both enabled and pending, the highest-priority
/// (lowest-bit) source is acknowledged: its pending bit clears, the program
/// counter is pushed, control transfers to the source's vector, and both
/// interrupt-master-enable and the halted flag clear.  Otherwise nothing
/// changes.
pub open spec fn spec_dispatch(c: CPU, s: SystemView) -> (CPU, SystemView) {
    if !c.ime {
        (c, s)
    } else {
        let enable = spec_bus_read(s, 0xFFFF);
        let flags = spec_bus_read(s, 0xFF0F);
        let pending = (enable & flags) & 0x1F;
        if pending == 0 {
            (c, s)
        } else {
            let s1 = spec_bus_write(s, 0xFF0F, flags & !spec_irq_mask(pending));
            let (c1, s2) = spec_push16(c, s1, c.pc);
            (
                CPU {
                    pc: (0x40 + 8 * spec_irq_index(pending)) as u16,
                    ime: false,
                    halted: false,
                    ..c1
                },
                s2,
            )
        }
    }
}

/// Whether the decode table implements the opcode.  The missing ones are the
/// rotate/accumulator-adjust column of the low quadrant, the whole prefixed
/// block behind 0xCB, and the gaps hardware leaves undefined; all of them
/// surface as decode errors.
pub open spec fn spec_op_implemented(op: u8) -> bool {
    !(op == 0x07 || op == 0x0F || op == 0x17 || op == 0x1F || op == 0x27 || op == 0xCB || op
        == 0xD3 || op == 0xDB || op == 0xDD || op == 0xE3 || op == 0xE4 || op == 0xEB || op == 0xEC
        || op == 0xED || op == 0xF4 || op == 0xFC || op == 0xFD)
}

/// Decide whether the decode table implements an opcode.
fn op_implemented(op: u8) -> (r: bool)
    ensures
        r == spec_op_implemented(op),
{
    !(op == 0x07 || op == 0x0F || op == 0x17 || op == 0x1F || op == 0x27 || op == 0xCB || op
        == 0xD3 || op == 0xDB || op == 0xDD || op == 0xE3 || op == 0xE4 || op == 0xEB || op == 0xEC
        || op == 0xED || op == 0xF4 || op == 0xFC || op == 0xFD)
}

/// The 8-bit operand selected by a 3-bit register code: B, C, D, E, H, L,
/// the byte at (HL), A.
pub open spec fn spec_reg8_get(c: CPU, s: SystemView, idx: u8) -> u8 {
    if idx == 0 {
        c.b
    } else if idx == 1 {
        c.c
    } else if idx == 2 {
        c.d
    } else if idx == 3 {
        c.e
    } else if idx == 4 {
        c.h
    } else if idx == 5 {
        c.l
    } else if idx == 6 {
        spec_bus_read(s, spec_hl(c))
    } else {
        c.a
    }
}

/// The machine after a value lands in the destination a 3-bit register code
/// selects; code 6 stores through HL.
pub open spec fn spec_reg8_set(c: CPU, s: SystemView, idx: u8, v: u8) -> (CPU, SystemView) {
    if idx == 0 {
        (CPU { b: v, ..c }, s)
    } else if idx == 1 {
        (CPU { c: v, ..c }, s)
    } else if idx == 2 {
        (CPU { d: v, ..c }, s)
    } else if idx == 3 {
        (CPU { e: v, ..c }, s)
    } else if idx == 4 {
        (CPU { h: v, ..c }, s)
    } else if idx == 5 {
        (CPU { l: v, ..c }, s)
    } else if idx == 6 {
        (c, spec_bus_write(s, spec_hl(c), v))
    } else {
        (CPU { a: v, ..c }, s)
    }
}

/// The register-to-register load quadrant (0x40..0x7F): move the source
/// operand into the destination, both selected by 3-bit codes packed into
/// the opcode; the one exception, 0x76, halts the CPU.
pub open spec fn spec_ld_block(c: CPU, s: SystemView, op: u8) -> (CPU, SystemView) {
    if op == 0x76 {
        (CPU { halted: true, ..c }, s)
    } else {
        spec_reg8_set(c, s, (op >> 3) & 0x7, spec_reg8_get(c, s, op & 0x7))
    }
}

/// One of the eight arithmetic/logical operations on A, selected by a 3-bit
/// code: add, adc, sub, sbc, and, xor, or, compare.
pub open spec fn spec_alu_op(c: CPU, v: u8, k: u8) -> CPU {
    if k == 0 {
        spec_add(c, v)
    } else if k == 1 {
        spec_adc(c, v)
    } else if k == 2 {
        spec_sub(c, v)
    } else if k == 3 {
        spec_sbc(c, v)
    } else if k == 4 {
        spec_and(c, v)
    } else if k == 5 {
        spec_xor(c, v)
    } else if k == 6 {
        spec_or(c, v)
    } else {
        spec_cp(c, v)
    }
}

/// The arithmetic/logical quadrant (0x80..0xBF): apply the operation the
/// opcode's bits 3..5 select to the operand its low bits select.
pub open spec fn spec_alu_block(c: CPU, s: SystemView, op: u8) -> CPU {
    spec_alu_op(c, spec_reg8_get(c, s, op & 0x7), (op >> 3) & 0x7)
}

/// Opcodes 0x00..0x1F: BC/DE loads and stores, 16- and 8-bit inc/dec, the
/// 16-bit adds into HL, the stack-pointer store, stop, and the
/// unconditional relative jump.
pub open spec fn spec_low0(op: u8, c: CPU, s: SystemView) -> (CPU, SystemView) {
    if op == 0x00 {
        (c, s)
    } else if op == 0x01 {
        let (w, c1) = spec_fetch16(c, s);
        (spec_set_bc(c1, w), s)
    } else if op == 0x02 {
        (c, spec_bus_write(s, spec_bc(c), c.a))
    } else if op == 0x03 {
        (spec_set_bc(c, spec_bc(c).wrapping_add(1)), s)
    } else if op == 0x04 {
        let (c1, r) = spec_inc(c, c.b);
        (CPU { b: r, ..c1 }, s)
    } else if op == 0x05 {
        let (c1, r) = spec_dec(c, c.b);
        (CPU { b: r, ..c1 }, s)
    } else if op == 0x06 {
        let (v, c1) = spec_fetch8(c, s);
        (CPU { b: v, ..c1 }, s)
    } else if op == 0x08 {
        let (addr, c1) = spec_fetch16(c, s);
        (
            c1,
            spec_bus_write(
                spec_bus_write(s, addr, spec_lo(c1.sp)),
                addr.wrapping_add(1),
                spec_hi(c1.sp),
            ),
        )
    } else if op == 0x09 {
        let (c1, r) = spec_add16(c, spec_hl(c), spec_bc(c));
        (spec_set_hl(c1, r), s)
    } else if op == 0x0A {
        (CPU { a: spec_bus_read(s, spec_bc(c)), ..c }, s)
    } else if op == 0x0B {
        (spec_set_bc(c, spec_bc(c).wrapping_sub(1)), s)
    } else if op == 0x0C {
        let (c1, r) = spec_inc(c, c.c);
        (CPU { c: r, ..c1 }, s)
    } else if op == 0x0D {
        let (c1, r) = spec_dec(c, c.c);
        (CPU { c: r, ..c1 }, s)
    } else if op == 0x0E {
        let (v, c1) = spec_fetch8(c, s);
        (CPU { c: v, ..c1 }, s)
    } else if op == 0x10 {
        (CPU { halted: true, ..c }, s)
    } else if op == 0x11 {
        let (w, c1) = spec_fetch16(c, s);
        (spec_set_de(c1, w), s)
    } else if op == 0x12 {
        (c, spec_bus_write(s, spec_de(c), c.a))
    } else if op == 0x13 {
        (spec_set_de(c, spec_de(c).wrapping_add(1)), s)
    } else if op == 0x14 {
        let (c1, r) = spec_inc(c, c.d);
        (CPU { d: r, ..c1 }, s)
    } else if op == 0x15 {
        let (c1, r) = spec_dec(c, c.d);
        (CPU { d: r, ..c1 }, s)
    } else if op == 0x16 {
        let (v, c1) = spec_fetch8(c, s);
        (CPU { d: v, ..c1 }, s)
    } else if op == 0x18 {
        let (off, c1) = spec_fetch8(c, s);
        (CPU { pc: c1.pc.wrapping_add(spec_sign_ext(off)), ..c1 }, s)
    } else if op == 0x19 {
        let (c1, r) = spec_add16(c, spec_hl(c), spec_de(c));
        (spec_set_hl(c1, r), s)
    } else if op == 0x1A {
        (CPU { a: spec_bus_read(s, spec_de(c)), ..c }, s)
    } else if op == 0x1B {
        (spec_set_de(c, spec_de(c).wrapping_sub(1)), s)
    } else if op == 0x1C {
        let (c1, r) = spec_inc(c, c.e);
        (CPU { e: r, ..c1 }, s)
    } else if op == 0x1D {
        let (c1, r) = spec_dec(c, c.e);
        (CPU { e: r, ..c1 }, s)
    } else if op == 0x1E {
        let (v, c1) = spec_fetch8(c, s);
        (CPU { e: v, ..c1 }, s)
    } else {
        (c, s)
    }
}

/// Opcodes 0x20..0x3F: conditional relative jumps, HL/SP loads with the
/// post-increment/decrement forms, inc/dec of (HL), and the flag-only
/// complement/carry instructions.
pub open spec fn spec_low1(op: u8, c: CPU, s: SystemView) -> (CPU, SystemView) {
    if op == 0x20 {
        let (off, c1) = spec_fetch8(c, s);
        (
            if !c1.zf {
                CPU { pc: c1.pc.wrapping_add(spec_sign_ext(off)), ..c1 }
            } else {
                c1
            },
            s,
        )
    } else if op == 0x21 {
        let (w, c1) = spec_fetch16(c, s);
        (spec_set_hl(c1, w), s)
    } else if op == 0x22 {
        (spec_set_hl(c, spec_hl(c).wrapping_add(1)), spec_bus_write(s, spec_hl(c), c.a))
    } else if op == 0x23 {
        (spec_set_hl(c, spec_hl(c).wrapping_add(1)), s)
    } else if op == 0x24 {
        let (c1, r) = spec_inc(c, c.h);
        (CPU { h: r, ..c1 }, s)
    } else if op == 0x25 {
        let (c1, r) = spec_dec(c, c.h);
        (CPU { h: r, ..c1 }, s)
    } else if op == 0x26 {
        let (v, c1) = spec_fetch8(c, s);
        (CPU { h: v, ..c1 }, s)
    } else if op == 0x28 {
        let (off, c1) = spec_fetch8(c, s);
        (
            if c1.zf {
                CPU { pc: c1.pc.wrapping_add(spec_sign_ext(off)), ..c1 }
            } else {
                c1
            },
            s,
        )
    } else if op == 0x29 {
        let (c1, r) = spec_add16(c, spec_hl(c), spec_hl(c));
        (spec_set_hl(c1, r), s)
    } else if op == 0x2A {
        let c1 = spec_set_hl(c, spec_hl(c).wrapping_add(1));
        (CPU { a: spec_bus_read(s, spec_hl(c)), ..c1 }, s)
    } else if op == 0x2B {
        (spec_set_hl(c, spec_hl(c).wrapping_sub(1)), s)
    } else if op == 0x2C {
        let (c1, r) = spec_inc(c, c.l);
        (CPU { l: r, ..c1 }, s)
    } else if op == 0x2D {
        let (c1, r) = spec_dec(c, c.l);
        (CPU { l: r, ..c1 }, s)
    } else if op == 0x2E {
        let (v, c1) = spec_fetch8(c, s);
        (CPU { l: v, ..c1 }, s)
    } else if op == 0x2F {
        (CPU { a: !c.a, nf: true, hf: true, ..c }, s)
    } else if op == 0x30 {
        let (off, c1) = spec_fetch8(c, s);
        (
            if !c1.cf {
                CPU { pc: c1.pc.wrapping_add(spec_sign_ext(off)), ..c1 }
            } else {
                c1
            },
            s,
        )
    } else if op == 0x31 {
        let (w, c1) = spec_fetch16(c, s);
        (CPU { sp: w, ..c1 }, s)
    } else if op == 0x32 {
        (spec_set_hl(c, spec_hl(c).wrapping_sub(1)), spec_bus_write(s, spec_hl(c), c.a))
    } else if op == 0x33 {
        (CPU { sp: c.sp.wrapping_add(1), ..c }, s)
    } else if op == 0x34 {
        let (c1, r) = spec_inc(c, spec_bus_read(s, spec_hl(c)));
        (c1, spec_bus_write(s, spec_hl(c1), r))
    } else if op == 0x35 {
        let (c1, r) = spec_dec(c, spec_bus_read(s, spec_hl(c)));
        (c1, spec_bus_write(s, spec_hl(c1), r))
    } else if op == 0x36 {
        let (v, c1) = spec_fetch8(c, s);
        (c1, spec_bus_write(s, spec_hl(c1), v))
    } else if op == 0x37 {
        (CPU { nf: false, hf: false, cf: true, ..c }, s)
    } else if op == 0x38 {
        let (off, c1) = spec_fetch8(c, s);
        (
            if c1.cf {
                CPU { pc: c1.pc.wrapping_add(spec_sign_ext(off)), ..c1 }
            } else {
                c1
            },
            s,
        )
    } else if op == 0x39 {
        let (c1, r) = spec_add16(c, spec_hl(c), c.sp);
        (spec_set_hl(c1, r), s)
    } else if op == 0x3A {
        let c1 = spec_set_hl(c, spec_hl(c).wrapping_sub(1));
        (CPU { a: spec_bus_read(s, spec_hl(c)), ..c1 }, s)
    } else if op == 0x3B {
        (CPU { sp: c.sp.wrapping_sub(1), ..c }, s)
    } else if op == 0x3C {
        let (c1, r) = spec_inc(c, c.a);
        (CPU { a: r, ..c1 }, s)
    } else if op == 0x3D {
        let (c1, r) = spec_dec(c, c.a);
        (CPU { a: r, ..c1 }, s)
    } else if op == 0x3E {
        let (v, c1) = spec_fetch8(c, s);
        (CPU { a: v, ..c1 }, s)
    } else if op == 0x3F {
        (CPU { nf: false, hf: false, cf: !c.cf, ..c }, s)
    } else {
        (c, s)
    }
}

/// Opcodes 0xC0..0xDF: conditional and unconditional returns, jumps and
/// calls, BC/DE push/pop, the immediate add/adc/sub/sbc forms, the first
/// fixed-vector fast calls, and return-and-enable-interrupts.  A
/// conditional jump consumes its operand only when it is taken.
pub open spec fn spec_highc(op: u8, c: CPU, s: SystemView) -> (CPU, SystemView) {
    if op == 0xC0 {
        if !c.zf {
            let (w, c1) = spec_pop16(c, s);
            (CPU { pc: w, ..c1 }, s)
        } else {
            (c, s)
        }
    } else if op == 0xC1 {
        let (w, c1) = spec_pop16(c, s);
        (spec_set_bc(c1, w), s)
    } else if op == 0xC2 {
        if !c.zf {
            let (addr, c1) = spec_fetch16(c, s);
            (CPU { pc: addr, ..c1 }, s)
        } else {
            (c, s)
        }
    } else if op == 0xC3 {
        let (addr, c1) = spec_fetch16(c, s);
        (CPU { pc: addr, ..c1 }, s)
    } else if op == 0xC4 {
        let (addr, c1) = spec_fetch16(c, s);
        if !c1.zf {
            let (c2, s2) = spec_push16(c1, s, c1.pc);
            (CPU { pc: addr, ..c2 }, s2)
        } else {
            (c1, s)
        }
    } else if op == 0xC5 {
        spec_push16(c, s, spec_bc(c))
    } else if op == 0xC6 {
        let (v, c1) = spec_fetch8(c, s);
        (spec_add(c1, v), s)
    } else if op == 0xC7 {
        let (c1, s1) = spec_push16(c, s, c.pc);
        (CPU { pc: 0x0000, ..c1 }, s1)
    } else if op == 0xC8 {
        if c.zf {
            let (w, c1) = spec_pop16(c, s);
            (CPU { pc: w, ..c1 }, s)
        } else {
            (c, s)
        }
    } else if op == 0xC9 {
        let (w, c1) = spec_pop16(c, s);
        (CPU { pc: w, ..c1 }, s)
    } else if op == 0xCA {
        if c.zf {
            let (addr, c1) = spec_fetch16(c, s);
            (CPU { pc: addr, ..c1 }, s)
        } else {
            (c, s)
        }
    } else if op == 0xCC {
        let (addr, c1) = spec_fetch16(c, s);
        if c1.zf {
            let (c2, s2) = spec_push16(c1, s, c1.pc);
            (CPU { pc: addr, ..c2 }, s2)
        } else {
            (c1, s)
        }
    } else if op == 0xCD {
        let (addr, c1) = spec_fetch16(c, s);
        let (c2, s2) = spec_push16(c1, s, c1.pc);
        (CPU { pc: addr, ..c2 }, s2)
    } else if op == 0xCE {
        let (v, c1) = spec_fetch8(c, s);
        (spec_adc(c1, v), s)
    } else if op == 0xCF {
        let (c1, s1) = spec_push16(c, s, c.pc);
        (CPU { pc: 0x0008, ..c1 }, s1)
    } else if op == 0xD0 {
        if !c.cf {
            let (w, c1) = spec_pop16(c, s);
            (CPU { pc: w, ..c1 }, s)
        } else {
            (c, s)
        }
    } else if op == 0xD1 {
        let (w, c1) = spec_pop16(c, s);
        (spec_set_de(c1, w), s)
    } else if op == 0xD2 {
        if !c.cf {
            let (addr, c1) = spec_fetch16(c, s);
            (CPU { pc: addr, ..c1 }, s)
        } else {
            (c, s)
        }
    } else if op == 0xD4 {
        let (addr, c1) = spec_fetch16(c, s);
        if !c1.cf {
            let (c2, s2) = spec_push16(c1, s, c1.pc);
            (CPU { pc: addr, ..c2 }, s2)
        } else {
            (c1, s)
        }
    } else if op == 0xD5 {
        spec_push16(c, s, spec_de(c))
    } else if op == 0xD6 {
        let (v, c1) = spec_fetch8(c, s);
        (spec_sub(c1, v), s)
    } else if op == 0xD7 {
        let (c1, s1) = spec_push16(c, s, c.pc);
        (CPU { pc: 0x0010, ..c1 }, s1)
    } else if op == 0xD8 {
        if c.cf {
            let (w, c1) = spec_pop16(c, s);
            (CPU { pc: w, ..c1 }, s)
        } else {
            (c, s)
        }
    } else if op == 0xD9 {
        let (w, c1) = spec_pop16(c, s);
        (CPU { pc: w, ime: true, ..c1 }, s)
    } else if op == 0xDA {
        if c.cf {
            let (addr, c1) = spec_fetch16(c, s);
            (CPU { pc: addr, ..c1 }, s)
        } else {
            (c, s)
        }
    } else if op == 0xDC {
        let (addr, c1) = spec_fetch16(c, s);
        if c1.cf {
            let (c2, s2) = spec_push16(c1, s, c1.pc);
            (CPU { pc: addr, ..c2 }, s2)
        } else {
            (c1, s)
        }
    } else if op == 0xDE {
        let (v, c1) = spec_fetch8(c, s);
        (spec_sbc(c1, v), s)
    } else if op == 0xDF {
        let (c1, s1) = spec_push16(c, s, c.pc);
        (CPU { pc: 0x0018, ..c1 }, s1)
    } else {
        (c, s)
    }
}

/// Opcodes 0xE0..0xFF: the high-RAM shorthand loads and stores, absolute
/// loads and stores of A, HL/AF push/pop, the immediate and/xor/or/compare
/// forms, the remaining fast calls, interrupt enable/disable, the
/// signed-immediate add into SP, and the HL-indirect jump.
pub open spec fn spec_highef(op: u8, c: CPU, s: SystemView) -> (CPU, SystemView) {
    if op == 0xE0 {
        let (n, c1) = spec_fetch8(c, s);
        (c1, spec_bus_write(s, 0xFF00 | (n as u16), c1.a))
    } else if op == 0xE1 {
        let (w, c1) = spec_pop16(c, s);
        (spec_set_hl(c1, w), s)
    } else if op == 0xE2 {
        (c, spec_bus_write(s, 0xFF00 | (c.c as u16), c.a))
    } else if op == 0xE5 {
        spec_push16(c, s, spec_hl(c))
    } else if op == 0xE6 {
        let (v, c1) = spec_fetch8(c, s);
        (spec_and(c1, v), s)
    } else if op == 0xE7 {
        let (c1, s1) = spec_push16(c, s, c.pc);
        (CPU { pc: 0x0020, ..c1 }, s1)
    } else if op == 0xE8 {
        let (off, c1) = spec_fetch8(c, s);
        let (c2, r) = spec_add16(c1, c1.sp, spec_sign_ext(off));
        (CPU { sp: r, zf: false, ..c2 }, s)
    } else if op == 0xE9 {
        (
            CPU {
                pc: word16(
                    spec_bus_read(s, spec_hl(c).wrapping_add(1)),
                    spec_bus_read(s, spec_hl(c)),
                ),
                ..c
            },
            s,
        )
    } else if op == 0xEA {
        let (addr, c1) = spec_fetch16(c, s);
        (c1, spec_bus_write(s, addr, c1.a))
    } else if op == 0xEE {
        let (v, c1) = spec_fetch8(c, s);
        (spec_xor(c1, v), s)
    } else if op == 0xEF {
        let (c1, s1) = spec_push16(c, s, c.pc);
        (CPU { pc: 0x0028, ..c1 }, s1)
    } else if op == 0xF0 {
        let (n, c1) = spec_fetch8(c, s);
        (CPU { a: spec_bus_read(s, 0xFF00 | (n as u16)), ..c1 }, s)
    } else if op == 0xF1 {
        let (w, c1) = spec_pop16(c, s);
        (spec_set_af(c1, w), s)
    } else if op == 0xF2 {
        (CPU { a: spec_bus_read(s, 0xFF00 | (c.c as u16)), ..c }, s)
    } else if op == 0xF3 {
        (CPU { ime: false, ..c }, s)
    } else if op == 0xF5 {
        spec_push16(c, s, spec_af(c))
    } else if op == 0xF6 {
        let (v, c1) = spec_fetch8(c, s);
        (spec_or(c1, v), s)
    } else if op == 0xF7 {
        let (c1, s1) = spec_push16(c, s, c.pc);
        (CPU { pc: 0x0030, ..c1 }, s1)
    } else if op == 0xF8 {
        let (off, c1) = spec_fetch8(c, s);
        (spec_set_hl(c1, c.pc.wrapping_add(spec_sign_ext(off))), s)
    } else if op == 0xF9 {
        (CPU { sp: spec_hl(c), ..c }, s)
    } else if op == 0xFA {
        let (addr, c1) = spec_fetch16(c, s);
        (CPU { a: spec_bus_read(s, addr), ..c1 }, s)
    } else if op == 0xFB {
        (CPU { ime: true, ..c }, s)
    } else if op == 0xFE {
        let (v, c1) = spec_fetch8(c, s);
        (spec_cp(c1, v), s)
    } else if op == 0xFF {
        let (c1, s1) = spec_push16(c, s, c.pc);
        (CPU { pc: 0x0038, ..c1 }, s1)
    } else {
        (c, s)
    }
}

/// The machine after one implemented opcode executes, the opcode byte
/// already fetched.
pub open spec fn spec_exec_op(op: u8, c: CPU, s: SystemView) -> (CPU, SystemView) {
    if op < 0x20 {
        spec_low0(op, c, s)
    } else if op < 0x40 {
        spec_low1(op, c, s)
    } else if op < 0x80 {
        spec_ld_block(c, s, op)
    } else if op < 0xC0 {
        (spec_alu_block(c, s, op), s)
    } else if op < 0xE0 {
        spec_highc(op, c, s)
    } else {
        spec_highef(op, c, s)
    }
}

/// The dispatched source is the highest-priority pending one: its bit is set
/// in the pending mask, every lower bit is clear, and the acknowledged mask
/// is exactly that bit.
pub proof fn lemma_irq_priority(p: u8)
    by (bit_vector)
    requires
        p != 0,
        p & 0x1F == p,
    ensures
        (p >> spec_irq_index(p)) & 1 == 1,
        forall|k: u16| k < spec_irq_index(p) ==> (p >> k) & 1 == 0,
        p & spec_irq_mask(p) == spec_irq_mask(p),
{
}

/// Delivering any enabled, pending interrupt wakes the CPU: dispatch clears
/// the halted flag (whatever it was), clears interrupt-master-enable, and
/// jumps to the vector of the lowest-bit pending source — on the same step
/// that would otherwise have been a no-op for a halted CPU.
pub proof fn lemma_dispatch_wakes(c: CPU, s: SystemView)
    requires
        c.ime,
        (spec_bus_read(s, 0xFFFF) & spec_bus_read(s, 0xFF0F)) & 0x1F != 0,
    ensures
        !spec_dispatch(c, s).0.halted,
        !spec_dispatch(c, s).0.ime,
        spec_dispatch(c, s).0.pc == 0x40 + 8 * spec_irq_index(
            (spec_bus_read(s, 0xFFFF) & spec_bus_read(s, 0xFF0F)) & 0x1F,
        ),
{
}

/// Every operation of the arithmetic/logical group determines A and all
/// four flags purely from A, the operand and the prior carry: two machines
/// agreeing on those agree on the whole outcome, whatever else differs.
pub proof fn lemma_alu_flags_pure(c1: CPU, c2: CPU, v: u8, k: u8)
    requires
        c1.a == c2.a,
        c1.cf == c2.cf,
    ensures
        ({
            let r1 = spec_alu_op(c1, v, k);
            let r2 = spec_alu_op(c2, v, k);
            r1.a == r2.a && r1.zf == r2.zf && r1.nf == r2.nf && r1.hf == r2.hf && r1.cf == r2.cf
        }),
{
}

/// The 16-bit register pairs round-trip: writing any word through a pair
/// view leaves its high byte in the high register and its low byte in the
/// low register, and reading the pair back yields the word; composing the
/// pair from its two registers inverts the split the same way.
pub proof fn lemma_pair_register_roundtrip(c: CPU, v: u16)
    ensures
        spec_set_bc(c, v).b == spec_hi(v) && spec_set_bc(c, v).c == spec_lo(v),
        spec_bc(spec_set_bc(c, v)) == v,
        spec_de(spec_set_de(c, v)) == v,
        spec_hl(spec_set_hl(c, v)) == v,
        spec_bc(c) == word16(c.b, c.c),
        spec_hi(spec_bc(c)) == c.b && spec_lo(spec_bc(c)) == c.c,
{
    crate::words::lemma_word_roundtrip(v);
    crate::words::lemma_pair_roundtrip(c.b, c.c);
}

/// Stack discipline: pushing a word drops the stack pointer by two, writing
/// the high byte then the low byte at descending addresses, and a pop right
/// after returns the word unchanged with the stack pointer back at its
/// original value.  The two stack cells must be plainly backed storage.
pub proof fn lemma_stack_roundtrip(c: CPU, s: SystemView, x: u16)
    requires
        crate::system::sys_wf(s),
        crate::system::plain_ram(c.sp.wrapping_sub(1)),
        crate::system::plain_ram(c.sp.wrapping_sub(2)),
    ensures
        ({
            let (c1, s1) = spec_push16(c, s, x);
            let (w, c2) = spec_pop16(c1, s1);
            w == x && c1.sp == c.sp.wrapping_sub(2) && c2.sp == c.sp
        }),
{
    let a1 = c.sp.wrapping_sub(1);
    let a2 = c.sp.wrapping_sub(2);
    let s1 = spec_bus_write(s, a1, spec_hi(x));
    crate::system::lemma_write_wf(s, a1, spec_hi(x));
    assert(a2.wrapping_add(1) == a1);
    assert(a1 != a2);
    crate::system::lemma_read_after_write(s1, a2, spec_lo(x));
    crate::system::lemma_read_after_write_other(s1, a2, a1, spec_lo(x));
    crate::system::lemma_read_after_write(s, a1, spec_hi(x));
    crate::words::lemma_word_roundtrip(x);
}

impl CPU {
    /// Boot state: registers and flags cleared, program counter at the
    /// cartridge entry point, stack pointer at the top of high RAM.
    pub fn new() -> (r: CPU)
        ensures
            r.a == 0 && r.b == 0 && r.c == 0 && r.d == 0 && r.e == 0 && r.h == 0 && r.l == 0,
            !r.zf && !r.nf && !r.hf && !r.cf,
            r.sp == 0xFFFE,
            r.pc == 0x100,
            !r.ime && !r.halted,
    {
        CPU {
            a: 0,
            b: 0,
            c: 0,
            d: 0,
            e: 0,
            h: 0,
            l: 0,
            zf: false,
            nf: false,
            hf: false,
            cf: false,
            sp: 0xFFFE,
            pc: 0x100,
            ime: false,
            halted: false,
        }
    }

    /// Read the virtual AF pair.
    pub fn af(&self) -> (r: u16)
        ensures
            r == spec_af(*self),
    {
        let z: u16 = if self.zf {
            0x80
        } else {
            0
        };
        let n: u16 = if self.nf {
            0x40
        } else {
            0
        };
        let hb: u16 = if self.hf {
            0x20
        } else {
            0
        };
        let cb: u16 = if self.cf {
            0x10
        } else {
            0
        };
        ((self.a as u16) << 8) | z | n | hb | cb
    }

    /// Write the virtual AF pair.
    pub fn set_af(&mut self, value: u16)
        ensures
            *final(self) == spec_set_af(*old(self), value),
    {
        self.a = (value >> 8) as u8;
        self.zf = ((value >> 7) & 0x1) != 0;
        self.nf = ((value >> 6) & 0x1) != 0;
        self.hf = ((value >> 5) & 0x1) != 0;
        self.cf = ((value >> 4) & 0x1) != 0;
    }

    /// Read the virtual BC pair.
    pub fn bc(&self) -> (r: u16)
        ensures
            r == spec_bc(*self),
    {
        ((self.b as u16) << 8) | (self.c as u16)
    }

    /// Write the virtual BC pair.
    pub fn set_bc(&mut self, value: u16)
        ensures
            *final(self) == spec_set_bc(*old(self), value),
    {
        self.b = (value >> 8) as u8;
        self.c = (value & 0xff) as u8;
    }

    /// Read the virtual DE pair.
    pub fn de(&self) -> (r: u16)
        ensures
            r == spec_de(*self),
    {
        ((self.d as u16) << 8) | (self.e as u16)
    }

    /// Write the virtual DE pair.
    pub fn set_de(&mut self, value: u16)
        ensures
            *final(self) == spec_set_de(*old(self), value),
    {
        self.d = (value >> 8) as u8;
        self.e = (value & 0xff) as u8;
    }

    /// Read the virtual HL pair.
    pub fn hl(&self) -> (r: u16)
        ensures
            r == spec_hl(*self),
    {
        ((self.h as u16) << 8) | (self.l as u16)
    }

    /// Write the virtual HL pair.
    pub fn set_hl(&mut self, value: u16)
        ensures
            *final(self) == spec_set_hl(*old(self), value),
    {
        self.h = (value >> 8) as u8;
        self.l = (value & 0xff) as u8;
    }

    /// Read HL, then increment it, wrapping.
    pub fn hl_inc(&mut self) -> (r: u16)
        ensures
            r == spec_hl(*old(self)),
            *final(self) == spec_set_hl(*old(self), spec_hl(*old(self)).wrapping_add(1)),
    {
        let hl: u16 = self.hl();
        self.set_hl(hl.wrapping_add(1));
        hl
    }

    /// Read HL, then decrement it, wrapping.
    pub fn hl_dec(&mut self) -> (r: u16)
        ensures
            r == spec_hl(*old(self)),
            *final(self) == spec_set_hl(*old(self), spec_hl(*old(self)).wrapping_sub(1)),
    {
        let hl: u16 = self.hl();
        self.set_hl(hl.wrapping_sub(1));
        hl
    }

    /// Fetch one byte at the program counter and advance it.
    pub fn fetch8(&mut self, system: &mut System) -> (r: u8)
        requires
            old(system).wf(),
        ensures
            *final(system) == *old(system),
            (r, *final(self)) == spec_fetch8(*old(self), old(system)@),
    {
        let byte: u8 = system.read(self.pc);
        self.pc = self.pc.wrapping_add(1);
        byte
    }

    /// Fetch a little-endian word at the program counter and advance it by
    /// two.
    pub fn fetch16(&mut self, system: &mut System) -> (r: u16)
        requires
            old(system).wf(),
        ensures
            *final(system) == *old(system),
            (r, *final(self)) == spec_fetch16(*old(self), old(system)@),
    {
        let lo: u8 = system.read(self.pc);
        let hi: u8 = system.read(self.pc.wrapping_add(1));
        self.pc = self.pc.wrapping_add(2);
        ((hi as u16) << 8) | (lo as u16)
    }

    /// Push a word: the stack pointer drops by two, the high byte is written
    /// first at the higher address.
    pub fn push16(&mut self, system: &mut System, value: u16)
        requires
            old(system).wf(),
        ensures
            final(system).wf(),
            (*final(self), final(system)@) == spec_push16(*old(self), old(system)@, value),
    {
        self.sp = self.sp.wrapping_sub(1);
        system.write(self.sp, (value >> 8) as u8);
        self.sp = self.sp.wrapping_sub(1);
        system.write(self.sp, (value & 0xff) as u8);
    }

    /// Pop a word read little-endian at the stack pointer, which rises by
    /// two.
    pub fn pop16(&mut self, system: &mut System) -> (r: u16)
        requires
            old(system).wf(),
        ensures
            *final(system) == *old(system),
            (r, *final(self)) == spec_pop16(*old(self), old(system)@),
    {
        let lo: u8 = system.read(self.sp);
        let hi: u8 = system.read(self.sp.wrapping_add(1));
        self.sp = self.sp.wrapping_add(2);
        ((hi as u16) << 8) | (lo as u16)
    }

    /// 16-bit add, setting carry/subtract/half-carry as spec_add16 states.
    pub fn add16(&mut self, a: u16, b: u16) -> (r: u16)
        ensures
            (*final(self), r) == spec_add16(*old(self), a, b),
    {
        let sum: u32 = a as u32 + b as u32;
        self.cf = sum > 0xFFFF;
        self.nf = false;
        self.hf = false;
        (sum % 0x10000) as u16
    }

    /// 8-bit increment with its flag effects.
    pub fn inc(&mut self, value: u8) -> (r: u8)
        ensures
            (*final(self), r) == spec_inc(*old(self), value),
    {
        let result: u8 = value.wrapping_add(1);
        self.zf = result == 0;
        self.nf = false;
        self.hf = false;
        result
    }

    /// 8-bit decrement with its flag effects.
    pub fn dec(&mut self, value: u8) -> (r: u8)
        ensures
            (*final(self), r) == spec_dec(*old(self), value),
    {
        let result: u8 = value.wrapping_sub(1);
        self.zf = result == 0;
        self.nf = true;
        self.hf = false;
        result
    }

    /// Add into A.
    pub fn add(&mut self, value: u8)
        ensures
            *final(self) == spec_add(*old(self), value),
    {
        self.cf = self.a as u16 + value as u16 > 255;
        self.a = self.a.wrapping_add(value);
        self.zf = self.a == 0;
        self.nf = false;
        self.hf = false;
    }

    /// Add with carry into A.
    pub fn adc(&mut self, value: u8)
        ensures
            *final(self) == spec_adc(*old(self), value),
    {
        let cr: u8 = if self.cf {
            1
        } else {
            0
        };
        self.cf = self.a as u16 + value as u16 + cr as u16 > 255;
        self.a = self.a.wrapping_add(value).wrapping_add(cr);
        self.zf = self.a == 0;
        self.nf = false;
        self.hf = false;
    }

    /// Subtract from A.
    pub fn sub(&mut self, value: u8)
        ensures
            *final(self) == spec_sub(*old(self), value),
    {
        self.cf = self.a < value;
        self.a = self.a.wrapping_sub(value);
        self.zf = self.a == 0;
        self.nf = true;
        self.hf = false;
    }

    /// Subtract with borrow from A.
    pub fn sbc(&mut self, value: u8)
        ensures
            *final(self) == spec_sbc(*old(self), value),
    {
        let cr: u8 = if self.cf {
            1
        } else {
            0
        };
        self.cf = (self.a as u16) < value as u16 + cr as u16;
        self.a = self.a.wrapping_sub(value).wrapping_sub(cr);
        self.zf = self.a == 0;
        self.nf = true;
        self.hf = false;
    }

    /// Bitwise AND into A.
    pub fn and(&mut self, value: u8)
        ensures
            *final(self) == spec_and(*old(self), value),
    {
        self.a = self.a & value;
        self.zf = self.a == 0;
        self.nf = false;
        self.hf = true;
        self.cf = false;
    }

    /// Bitwise XOR into A.
    pub fn xor(&mut self, value: u8)
        ensures
            *final(self) == spec_xor(*old(self), value),
    {
        self.a = self.a ^ value;
        self.zf = self.a == 0;
        self.nf = false;
        self.hf = false;
        self.cf = false;
    }

    /// Bitwise OR into A.
    pub fn or(&mut self, value: u8)
        ensures
            *final(self) == spec_or(*old(self), value),
    {
        self.a = self.a | value;
        self.zf = self.a == 0;
        self.nf = false;
        self.hf = false;
        self.cf = false;
    }

    /// Compare A with a value, setting flags only.
    pub fn compare(&mut self, value: u8)
        ensures
            *final(self) == spec_cp(*old(self), value),
    {
        self.nf = true;
        self.zf = self.a == value;
        self.hf = false;
        self.cf = self.a < value;
    }

    /// Acknowledge the highest-priority enabled, pending interrupt, if
    /// interrupt-master-enable allows any.
    fn dispatch_interrupts(&mut self, system: &mut System)
        requires
            old(system).wf(),
        ensures
            final(system).wf(),
            (*final(self), final(system)@) == spec_dispatch(*old(self), old(system)@),
    {
        if self.ime {
            let enable: u8 = system.read(0xFFFF);
            let flags: u8 = system.read(0xFF0F);
            let pending: u8 = (enable & flags) & 0x1F;
            if pending != 0 {
                let (index, mask): (u16, u8) = if pending & 1 != 0 {
                    (0, 1)
                } else if pending & 2 != 0 {
                    (1, 2)
                } else if pending & 4 != 0 {
                    (2, 4)
                } else if pending & 8 != 0 {
                    (3, 8)
                } else {
                    (4, 16)
                };
                system.write(0xFF0F, flags & !mask);
                let pc: u16 = self.pc;
                self.push16(system, pc);
                self.pc = 0x40 + 8 * index;
                self.ime = false;
                self.halted = false;
            }
        }
    }

    /// The 8-bit operand a 3-bit register code selects; code 6 reads the
    /// byte at (HL).
    fn reg8_get(&self, system: &System, idx: u8) -> (r: u8)
        requires
            system.wf(),
        ensures
            r == spec_reg8_get(*self, system@, idx),
    {
        if idx == 0 {
            self.b
        } else if idx == 1 {
            self.c
        } else if idx == 2 {
            self.d
        } else if idx == 3 {
            self.e
        } else if idx == 4 {
            self.h
        } else if idx == 5 {
            self.l
        } else if idx == 6 {
            system.read(self.hl())
        } else {
            self.a
        }
    }

    /// Execute one opcode of the register-to-register load quadrant.
    fn op_ld_block(&mut self, system: &mut System, op: u8)
        requires
            old(system).wf(),
            0x40 <= op < 0x80,
        ensures
            final(system).wf(),
            (*final(self), final(system)@) == spec_ld_block(*old(self), old(system)@, op),
    {
        if op == 0x76 {
            self.halted = true;
            return ;
        }
        let v: u8 = self.reg8_get(system, op & 0x7);
        let dst: u8 = (op >> 3) & 0x7;
        if dst == 0 {
            self.b = v;
        } else if dst == 1 {
            self.c = v;
        } else if dst == 2 {
            self.d = v;
        } else if dst == 3 {
            self.e = v;
        } else if dst == 4 {
            self.h = v;
        } else if dst == 5 {
            self.l = v;
        } else if dst == 6 {
            let addr: u16 = self.hl();
            system.write(addr, v);
        } else {
            self.a = v;
        }
    }

    /// Execute one opcode of the arithmetic/logical quadrant.
    fn op_alu_block(&mut self, system: &mut System, op: u8)
        requires
            old(system).wf(),
            0x80 <= op < 0xC0,
        ensures
            *final(system) == *old(system),
            *final(self) == spec_alu_block(*old(self), old(system)@, op),
    {
        let v: u8 = self.reg8_get(system, op & 0x7);
        let k: u8 = (op >> 3) & 0x7;
        if k == 0 {
            self.add(v);
        } else if k == 1 {
            self.adc(v);
        } else if k == 2 {
            self.sub(v);
        } else if k == 3 {
            self.sbc(v);
        } else if k == 4 {
            self.and(v);
        } else if k == 5 {
            self.xor(v);
        } else if k == 6 {
            self.or(v);
        } else {
            self.compare(v);
        }
    }

    /// Execute one implemented opcode of the 0x00..0x1F range.
    fn op_low0(&mut self, system: &mut System, op: u8)
        requires
            old(system).wf(),
            op < 0x20,
            spec_op_implemented(op),
        ensures
            final(system).wf(),
            (*final(self), final(system)@) == spec_low0(op, *old(self), old(system)@),
    {
        if op == 0x00 {
        } else if op == 0x01 {
            let w: u16 = self.fetch16(system);
            self.set_bc(w);
        } else if op == 0x02 {
            let addr: u16 = self.bc();
            system.write(addr, self.a);
        } else if op == 0x03 {
            let w: u16 = self.bc();
            self.set_bc(w.wrapping_add(1));
        } else if op == 0x04 {
            self.b = self.inc(self.b);
        } else if op == 0x05 {
            self.b = self.dec(self.b);
        } else if op == 0x06 {
            self.b = self.fetch8(system);
        } else if op == 0x08 {
            let addr: u16 = self.fetch16(system);
            system.write(addr, (self.sp & 0xff) as u8);
            system.write(addr.wrapping_add(1), (self.sp >> 8) as u8);
        } else if op == 0x09 {
            let result: u16 = self.add16(self.hl(), self.bc());
            self.set_hl(result);
        } else if op == 0x0A {
            self.a = system.read(self.bc());
        } else if op == 0x0B {
            let w: u16 = self.bc();
            self.set_bc(w.wrapping_sub(1));
        } else if op == 0x0C {
            self.c = self.inc(self.c);
        } else if op == 0x0D {
            self.c = self.dec(self.c);
        } else if op == 0x0E {
            self.c = self.fetch8(system);
        } else if op == 0x10 {
            self.halted = true;
        } else if op == 0x11 {
            let w: u16 = self.fetch16(system);
            self.set_de(w);
        } else if op == 0x12 {
            let addr: u16 = self.de();
            system.write(addr, self.a);
        } else if op == 0x13 {
            let w: u16 = self.de();
            self.set_de(w.wrapping_add(1));
        } else if op == 0x14 {
            self.d = self.inc(self.d);
        } else if op == 0x15 {
            self.d = self.dec(self.d);
        } else if op == 0x16 {
            self.d = self.fetch8(system);
        } else if op == 0x18 {
            let off: u8 = self.fetch8(system);
            self.pc = self.pc.wrapping_add(sign_ext(off));
        } else if op == 0x19 {
            let result: u16 = self.add16(self.hl(), self.de());
            self.set_hl(result);
        } else if op == 0x1A {
            self.a = system.read(self.de());
        } else if op == 0x1B {
            let w: u16 = self.de();
            self.set_de(w.wrapping_sub(1));
        } else if op == 0x1C {
            self.e = self.inc(self.e);
        } else if op == 0x1D {
            self.e = self.dec(self.e);
        } else if op == 0x1E {
            self.e = self.fetch8(system);
        }
    }

    /// Execute one implemented opcode of the 0x20..0x3F range.
    fn op_low1(&mut self, system: &mut System, op: u8)
        requires
            old(system).wf(),
            0x20 <= op < 0x40,
            spec_op_implemented(op),
        ensures
            final(system).wf(),
            (*final(self), final(system)@) == spec_low1(op, *old(self), old(system)@),
    {
        if op == 0x20 {
            let off: u8 = self.fetch8(system);
            if !self.zf {
                self.pc = self.pc.wrapping_add(sign_ext(off));
            }
        } else if op == 0x21 {
            let w: u16 = self.fetch16(system);
            self.set_hl(w);
        } else if op == 0x22 {
            let addr: u16 = self.hl_inc();
            system.write(addr, self.a);
        } else if op == 0x23 {
            let w: u16 = self.hl();
            self.set_hl(w.wrapping_add(1));
        } else if op == 0x24 {
            self.h = self.inc(self.h);
        } else if op == 0x25 {
            self.h = self.dec(self.h);
        } else if op == 0x26 {
            self.h = self.fetch8(system);
        } else if op == 0x28 {
            let off: u8 = self.fetch8(system);
            if self.zf {
                self.pc = self.pc.wrapping_add(sign_ext(off));
            }
        } else if op == 0x29 {
            let result: u16 = self.add16(self.hl(), self.hl());
            self.set_hl(result);
        } else if op == 0x2A {
            self.a = system.read(self.hl_inc());
        } else if op == 0x2B {
            let w: u16 = self.hl();
            self.set_hl(w.wrapping_sub(1));
        } else if op == 0x2C {
            self.l = self.inc(self.l);
        } else if op == 0x2D {
            self.l = self.dec(self.l);
        } else if op == 0x2E {
            self.l = self.fetch8(system);
        } else if op == 0x2F {
            self.a = !self.a;
            self.nf = true;
            self.hf = true;
        } else if op == 0x30 {
            let off: u8 = self.fetch8(system);
            if !self.cf {
                self.pc = self.pc.wrapping_add(sign_ext(off));
            }
        } else if op == 0x31 {
            self.sp = self.fetch16(system);
        } else if op == 0x32 {
            let addr: u16 = self.hl_dec();
            system.write(addr, self.a);
        } else if op == 0x33 {
            self.sp = self.sp.wrapping_add(1);
        } else if op == 0x34 {
            let result: u8 = self.inc(system.read(self.hl()));
            let addr: u16 = self.hl();
            system.write(addr, result);
        } else if op == 0x35 {
            let result: u8 = self.dec(system.read(self.hl()));
            let addr: u16 = self.hl();
            system.write(addr, result);
        } else if op == 0x36 {
            let byte: u8 = self.fetch8(system);
            let addr: u16 = self.hl();
            system.write(addr, byte);
        } else if op == 0x37 {
            self.nf = false;
            self.hf = false;
            self.cf = true;
        } else if op == 0x38 {
            let off: u8 = self.fetch8(system);
            if self.cf {
                self.pc = self.pc.wrapping_add(sign_ext(off));
            }
        } else if op == 0x39 {
            let result: u16 = self.add16(self.hl(), self.sp);
            self.set_hl(result);
        } else if op == 0x3A {
            self.a = system.read(self.hl_dec());
        } else if op == 0x3B {
            self.sp = self.sp.wrapping_sub(1);
        } else if op == 0x3C {
            self.a = self.inc(self.a);
        } else if op == 0x3D {
            self.a = self.dec(self.a);
        } else if op == 0x3E {
            self.a = self.fetch8(system);
        } else if op == 0x3F {
            self.nf = false;
            self.hf = false;
            self.cf = !self.cf;
        }
    }

    /// Execute one implemented opcode of the 0xC0..0xDF range.
    fn op_highc(&mut self, system: &mut System, op: u8)
        requires
            old(system).wf(),
            0xC0 <= op < 0xE0,
            spec_op_implemented(op),
        ensures
            final(system).wf(),
            (*final(self), final(system)@) == spec_highc(op, *old(self), old(system)@),
    {
        if op == 0xC0 {
            if !self.zf {
                self.pc = self.pop16(system);
            }
        } else if op == 0xC1 {
            let w: u16 = self.pop16(system);
            self.set_bc(w);
        } else if op == 0xC2 {
            if !self.zf {
                self.pc = self.fetch16(system);
            }
        } else if op == 0xC3 {
            self.pc = self.fetch16(system);
        } else if op == 0xC4 {
            let addr: u16 = self.fetch16(system);
            if !self.zf {
                let pc: u16 = self.pc;
                self.push16(system, pc);
                self.pc = addr;
            }
        } else if op == 0xC5 {
            let w: u16 = self.bc();
            self.push16(system, w);
        } else if op == 0xC6 {
            let byte: u8 = self.fetch8(system);
            self.add(byte);
        } else if op == 0xC7 {
            let pc: u16 = self.pc;
            self.push16(system, pc);
            self.pc = 0x0000;
        } else if op == 0xC8 {
            if self.zf {
                self.pc = self.pop16(system);
            }
        } else if op == 0xC9 {
            self.pc = self.pop16(system);
        } else if op == 0xCA {
            if self.zf {
                self.pc = self.fetch16(system);
            }
        } else if op == 0xCC {
            let addr: u16 = self.fetch16(system);
            if self.zf {
                let pc: u16 = self.pc;
                self.push16(system, pc);
                self.pc = addr;
            }
        } else if op == 0xCD {
            let addr: u16 = self.fetch16(system);
            let pc: u16 = self.pc;
            self.push16(system, pc);
            self.pc = addr;
        } else if op == 0xCE {
            let byte: u8 = self.fetch8(system);
            self.adc(byte);
        } else if op == 0xCF {
            let pc: u16 = self.pc;
            self.push16(system, pc);
            self.pc = 0x0008;
        } else if op == 0xD0 {
            if !self.cf {
                self.pc = self.pop16(system);
            }
        } else if op == 0xD1 {
            let w: u16 = self.pop16(system);
            self.set_de(w);
        } else if op == 0xD2 {
            if !self.cf {
                self.pc = self.fetch16(system);
            }
        } else if op == 0xD4 {
            let addr: u16 = self.fetch16(system);
            if !self.cf {
                let pc: u16 = self.pc;
                self.push16(system, pc);
                self.pc = addr;
            }
        } else if op == 0xD5 {
            let w: u16 = self.de();
            self.push16(system, w);
        } else if op == 0xD6 {
            let byte: u8 = self.fetch8(system);
            self.sub(byte);
        } else if op == 0xD7 {
            let pc: u16 = self.pc;
            self.push16(system, pc);
            self.pc = 0x0010;
        } else if op == 0xD8 {
            if self.cf {
                self.pc = self.pop16(system);
            }
        } else if op == 0xD9 {
            self.pc = self.pop16(system);
            self.ime = true;
        } else if op == 0xDA {
            if self.cf {
                self.pc = self.fetch16(system);
            }
        } else if op == 0xDC {
            let addr: u16 = self.fetch16(system);
            if self.cf {
                let pc: u16 = self.pc;
                self.push16(system, pc);
                self.pc = addr;
            }
        } else if op == 0xDE {
            let byte: u8 = self.fetch8(system);
            self.sbc(byte);
        } else if op == 0xDF {
            let pc: u16 = self.pc;
            self.push16(system, pc);
            self.pc = 0x0018;
        }
    }

    /// Execute one implemented opcode of the 0xE0..0xFF range.
    fn op_highef(&mut self, system: &mut System, op: u8)
        requires
            old(system).wf(),
            0xE0 <= op,
            spec_op_implemented(op),
        ensures
            final(system).wf(),
            (*final(self), final(system)@) == spec_highef(op, *old(self), old(system)@),
    {
        if op == 0xE0 {
            let n: u8 = self.fetch8(system);
            let addr: u16 = 0xFF00 | (n as u16);
            system.write(addr, self.a);
        } else if op == 0xE1 {
            let w: u16 = self.pop16(system);
            self.set_hl(w);
        } else if op == 0xE2 {
            let addr: u16 = 0xFF00 | (self.c as u16);
            system.write(addr, self.a);
        } else if op == 0xE5 {
            let w: u16 = self.hl();
            self.push16(system, w);
        } else if op == 0xE6 {
            let byte: u8 = self.fetch8(system);
            self.and(byte);
        } else if op == 0xE7 {
            let pc: u16 = self.pc;
            self.push16(system, pc);
            self.pc = 0x0020;
        } else if op == 0xE8 {
            let off: u8 = self.fetch8(system);
            self.sp = self.add16(self.sp, sign_ext(off));
            self.zf = false;
        } else if op == 0xE9 {
            let addr: u16 = self.hl();
            let lo: u8 = system.read(addr);
            let hi: u8 = system.read(addr.wrapping_add(1));
            self.pc = ((hi as u16) << 8) | (lo as u16);
        } else if op == 0xEA {
            let addr: u16 = self.fetch16(system);
            system.write(addr, self.a);
        } else if op == 0xEE {
            let byte: u8 = self.fetch8(system);
            self.xor(byte);
        } else if op == 0xEF {
            let pc: u16 = self.pc;
            self.push16(system, pc);
            self.pc = 0x0028;
        } else if op == 0xF0 {
            let n: u8 = self.fetch8(system);
            self.a = system.read(0xFF00 | (n as u16));
        } else if op == 0xF1 {
            let w: u16 = self.pop16(system);
            self.set_af(w);
        } else if op == 0xF2 {
            self.a = system.read(0xFF00 | (self.c as u16));
        } else if op == 0xF3 {
            self.ime = false;
        } else if op == 0xF5 {
            let w: u16 = self.af();
            self.push16(system, w);
        } else if op == 0xF6 {
            let byte: u8 = self.fetch8(system);
            self.or(byte);
        } else if op == 0xF7 {
            let pc: u16 = self.pc;
            self.push16(system, pc);
            self.pc = 0x0030;
        } else if op == 0xF8 {
            let base: u16 = self.pc;
            let off: u8 = self.fetch8(system);
            self.set_hl(base.wrapping_add(sign_ext(off)));
        } else if op == 0xF9 {
            self.sp = self.hl();
        } else if op == 0xFA {
            let addr: u16 = self.fetch16(system);
            self.a = system.read(addr);
        } else if op == 0xFB {
            self.ime = true;
        } else if op == 0xFE {
            let byte: u8 = self.fetch8(system);
            self.compare(byte);
        } else if op == 0xFF {
            let pc: u16 = self.pc;
            self.push16(system, pc);
            self.pc = 0x0038;
        }
    }

    /// One CPU step: dispatch any pending interrupt, then — unless halted —
    /// fetch one opcode at the program counter and execute it.  An opcode
    /// outside the decode table is a fatal error carrying the opcode byte
    /// and the address it was fetched from; the machine is left exactly as
    /// the failed fetch left it.
    pub fn execute_next(&mut self, system: &mut System) -> (r: Result<(), StepError>)
        requires
            old(system).wf(),
        ensures
            final(system).wf(),
            ({
                let (c1, s1) = spec_dispatch(*old(self), old(system)@);
                if c1.halted {
                    r == Ok::<(), StepError>(()) && *final(self) == c1 && final(system)@ == s1
                } else {
                    let op = spec_bus_read(s1, c1.pc);
                    let c2 = CPU { pc: c1.pc.wrapping_add(1), ..c1 };
                    if spec_op_implemented(op) {
                        r == Ok::<(), StepError>(()) && (*final(self), final(system)@)
                            == spec_exec_op(op, c2, s1)
                    } else {
                        r == Err::<(), StepError>(StepError { opcode: op, addr: c1.pc })
                            && *final(self) == c2 && final(system)@ == s1
                    }
                }
            }),
    {
        self.dispatch_interrupts(system);
        if self.halted {
            return Ok(());
        }
        let addr: u16 = self.pc;
        let op: u8 = self.fetch8(system);
        if 0x40 <= op && op < 0x80 {
            self.op_ld_block(system, op);
            Ok(())
        } else if 0x80 <= op && op < 0xC0 {
            self.op_alu_block(system, op);
            Ok(())
        } else if !op_implemented(op) {
            Err(StepError { opcode: op, addr })
        } else if op < 0x20 {
            self.op_low0(system, op);
            Ok(())
        } else if op < 0x40 {
            self.op_low1(system, op);
            Ok(())
        } else if op < 0xE0 {
            self.op_highc(system, op);
            Ok(())
        } else {
            self.op_highef(system, op);
            Ok(())
        }
    }
}

} // verus!
