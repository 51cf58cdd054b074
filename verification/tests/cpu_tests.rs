use rgb_core::cpu::CPU;
use rgb_core::system::System;

#[test]
fn test_boot_state() {
    let cpu = CPU::new();
    assert_eq!(cpu.pc, 0x100);
    assert_eq!(cpu.sp, 0xFFFE);
    assert_eq!(cpu.a, 0);
    assert!(!cpu.ime);
    assert!(!cpu.halted);
}

#[test]
fn test_add_overflow_flags() {
    let mut cpu = CPU::new();
    cpu.a = 0xFF;
    cpu.add(0x01);
    assert_eq!(cpu.a, 0x00);
    assert!(cpu.zf);
    assert!(cpu.cf);
    assert!(!cpu.nf);
}

#[test]
fn test_add_no_overflow() {
    let mut cpu = CPU::new();
    cpu.a = 0x12;
    cpu.add(0x34);
    assert_eq!(cpu.a, 0x46);
    assert!(!cpu.zf);
    assert!(!cpu.cf);
    assert!(!cpu.nf);
}

#[test]
fn test_adc_uses_prior_carry() {
    let mut cpu = CPU::new();
    cpu.a = 0x10;
    cpu.cf = true;
    cpu.adc(0x0F);
    assert_eq!(cpu.a, 0x20);
    assert!(!cpu.cf);
    assert!(!cpu.zf);

    cpu.a = 0xFF;
    cpu.cf = true;
    cpu.adc(0x00);
    assert_eq!(cpu.a, 0x00);
    assert!(cpu.cf);
    assert!(cpu.zf);
}

#[test]
fn test_sub_borrow() {
    let mut cpu = CPU::new();
    cpu.a = 0x10;
    cpu.sub(0x20);
    assert_eq!(cpu.a, 0xF0);
    assert!(cpu.cf);
    assert!(cpu.nf);
    assert!(!cpu.zf);
}

#[test]
fn test_sbc_uses_prior_carry() {
    let mut cpu = CPU::new();
    cpu.a = 0x00;
    cpu.cf = true;
    cpu.sbc(0x00);
    assert_eq!(cpu.a, 0xFF);
    assert!(cpu.cf);
    assert!(cpu.nf);
    assert!(!cpu.zf);
}

#[test]
fn test_and_sets_half_carry() {
    let mut cpu = CPU::new();
    cpu.a = 0xF0;
    cpu.and(0x0F);
    assert_eq!(cpu.a, 0x00);
    assert!(cpu.zf);
    assert!(cpu.hf);
    assert!(!cpu.cf);
    assert!(!cpu.nf);
}

#[test]
fn test_xor_or_flags() {
    let mut cpu = CPU::new();
    cpu.a = 0xAA;
    cpu.xor(0xAA);
    assert_eq!(cpu.a, 0x00);
    assert!(cpu.zf);
    assert!(!cpu.hf);

    cpu.a = 0xA0;
    cpu.or(0x0A);
    assert_eq!(cpu.a, 0xAA);
    assert!(!cpu.zf);
    assert!(!cpu.cf);
}

#[test]
fn test_compare_flags() {
    let mut cpu = CPU::new();
    cpu.a = 5;
    cpu.compare(7);
    assert_eq!(cpu.a, 5);
    assert!(cpu.cf);
    assert!(!cpu.zf);
    assert!(cpu.nf);

    cpu.compare(5);
    assert!(cpu.zf);
    assert!(!cpu.cf);
}

#[test]
fn test_inc_dec_leave_carry() {
    let mut cpu = CPU::new();
    cpu.cf = true;
    let r = cpu.inc(0xFF);
    assert_eq!(r, 0x00);
    assert!(cpu.zf);
    assert!(!cpu.nf);
    assert!(cpu.cf);

    let r = cpu.dec(0x01);
    assert_eq!(r, 0x00);
    assert!(cpu.zf);
    assert!(cpu.nf);
    assert!(cpu.cf);
}

#[test]
fn test_add16_carry() {
    let mut cpu = CPU::new();
    let r = cpu.add16(0xFFFF, 0x0001);
    assert_eq!(r, 0x0000);
    assert!(cpu.cf);
    assert!(!cpu.nf);

    let r = cpu.add16(0x1234, 0x1111);
    assert_eq!(r, 0x2345);
    assert!(!cpu.cf);
}

#[test]
fn test_pair_roundtrip() {
    let mut cpu = CPU::new();
    cpu.set_bc(0xABCD);
    assert_eq!(cpu.b, 0xAB);
    assert_eq!(cpu.c, 0xCD);
    assert_eq!(cpu.bc(), 0xABCD);

    cpu.d = 0x12;
    cpu.e = 0x34;
    assert_eq!(cpu.de(), 0x1234);
    cpu.set_de(0xFFEE);
    assert_eq!(cpu.d, 0xFF);
    assert_eq!(cpu.e, 0xEE);

    cpu.set_hl(0x8001);
    assert_eq!(cpu.h, 0x80);
    assert_eq!(cpu.l, 0x01);
    assert_eq!(cpu.hl(), 0x8001);
}

#[test]
fn test_af_view_packs_flags() {
    let mut cpu = CPU::new();
    cpu.a = 0x12;
    cpu.zf = true;
    cpu.cf = true;
    assert_eq!(cpu.af(), 0x1290);

    cpu.set_af(0x55F0);
    assert_eq!(cpu.a, 0x55);
    assert!(cpu.zf && cpu.nf && cpu.hf && cpu.cf);

    // The low nibble of AF is not stored: only bits 7..4 reach the flags.
    cpu.set_af(0x000F);
    assert!(!cpu.zf && !cpu.nf && !cpu.hf && !cpu.cf);
    assert_eq!(cpu.af(), 0x0000);
}

#[test]
fn test_push_pop_roundtrip() {
    let mut cpu = CPU::new();
    let mut sys = System::new();
    cpu.sp = 0xD000;
    cpu.push16(&mut sys, 0x1234);
    assert_eq!(cpu.sp, 0xCFFE);
    // High byte first at the higher of the two freed addresses.
    assert_eq!(sys.read(0xCFFF), 0x12);
    assert_eq!(sys.read(0xCFFE), 0x34);
    let w = cpu.pop16(&mut sys);
    assert_eq!(w, 0x1234);
    assert_eq!(cpu.sp, 0xD000);
}

#[test]
fn test_interrupt_priority() {
    let mut cpu = CPU::new();
    let mut sys = System::new();
    sys.write(0xFFFF, 0x1F);
    sys.write(0xFF0F, 0x05);
    cpu.ime = true;
    cpu.pc = 0x0200;
    // Vector 0x40 holds a zero byte (ROM is cleared), so the step executes a
    // NOP after dispatching.
    let r = cpu.execute_next(&mut sys);
    assert!(r.is_ok());
    // Bit 0 (vblank) wins over bit 2; only bit 0 is acknowledged.
    assert_eq!(sys.read(0xFF0F), 0x04);
    assert!(!cpu.ime);
    assert_eq!(cpu.pc, 0x41);
    // The interrupted program counter sits on the stack.
    assert_eq!(sys.read(0xFFFD), 0x02);
    assert_eq!(sys.read(0xFFFC), 0x00);
}

#[test]
fn test_halt_and_wake() {
    let mut cpu = CPU::new();
    let mut sys = System::new();
    sys.write(0x100, 0x76);
    assert!(cpu.execute_next(&mut sys).is_ok());
    assert!(cpu.halted);
    let pc_halted = cpu.pc;

    // A halted CPU with no deliverable interrupt does nothing.
    assert!(cpu.execute_next(&mut sys).is_ok());
    assert!(cpu.halted);
    assert_eq!(cpu.pc, pc_halted);

    // Any enabled, pending interrupt wakes it and jumps on the same step.
    cpu.ime = true;
    sys.write(0xFFFF, 0x01);
    sys.write(0xFF0F, 0x01);
    assert!(cpu.execute_next(&mut sys).is_ok());
    assert!(!cpu.halted);
    assert_eq!(cpu.pc, 0x41);
    assert_eq!(sys.read(0xFF0F), 0x00);
}

#[test]
fn test_unknown_opcode_is_fatal() {
    let mut cpu = CPU::new();
    let mut sys = System::new();
    sys.write(0x100, 0xCB);
    let r = cpu.execute_next(&mut sys);
    let e = r.unwrap_err();
    assert_eq!(e.opcode, 0xCB);
    assert_eq!(e.addr, 0x100);
    assert_eq!(cpu.pc, 0x101);
}

#[test]
fn test_immediate_load_and_register_move() {
    let mut cpu = CPU::new();
    let mut sys = System::new();
    sys.write(0x100, 0x3E);
    sys.write(0x101, 0x42);
    assert!(cpu.execute_next(&mut sys).is_ok());
    assert_eq!(cpu.a, 0x42);
    assert_eq!(cpu.pc, 0x102);

    // LD B, A
    sys.write(0x102, 0x47);
    assert!(cpu.execute_next(&mut sys).is_ok());
    assert_eq!(cpu.b, 0x42);
}

#[test]
fn test_hl_indirect_store_and_load() {
    let mut cpu = CPU::new();
    let mut sys = System::new();
    cpu.set_hl(0xC123);
    cpu.b = 0x99;
    sys.write(0x100, 0x70); // LD (HL), B
    assert!(cpu.execute_next(&mut sys).is_ok());
    assert_eq!(sys.read(0xC123), 0x99);

    sys.write(0x101, 0x7E); // LD A, (HL)
    assert!(cpu.execute_next(&mut sys).is_ok());
    assert_eq!(cpu.a, 0x99);
}

#[test]
fn test_hl_post_increment_decrement() {
    let mut cpu = CPU::new();
    let mut sys = System::new();
    cpu.a = 0x5A;
    cpu.set_hl(0xC000);
    sys.write(0x100, 0x22); // LD (HL+), A
    assert!(cpu.execute_next(&mut sys).is_ok());
    assert_eq!(sys.read(0xC000), 0x5A);
    assert_eq!(cpu.hl(), 0xC001);

    sys.write(0x101, 0x32); // LD (HL-), A
    assert!(cpu.execute_next(&mut sys).is_ok());
    assert_eq!(sys.read(0xC001), 0x5A);
    assert_eq!(cpu.hl(), 0xC000);
}

#[test]
fn test_relative_jump_backwards() {
    let mut cpu = CPU::new();
    let mut sys = System::new();
    sys.write(0x100, 0x18);
    sys.write(0x101, 0xFE); // -2: jump to the JR itself
    assert!(cpu.execute_next(&mut sys).is_ok());
    assert_eq!(cpu.pc, 0x100);
}

#[test]
fn test_conditional_relative_jump() {
    let mut cpu = CPU::new();
    let mut sys = System::new();
    sys.write(0x100, 0x20); // JR NZ, +3
    sys.write(0x101, 0x03);
    cpu.zf = true;
    assert!(cpu.execute_next(&mut sys).is_ok());
    assert_eq!(cpu.pc, 0x102); // not taken: only the operand is consumed

    cpu.pc = 0x100;
    cpu.zf = false;
    assert!(cpu.execute_next(&mut sys).is_ok());
    assert_eq!(cpu.pc, 0x105);
}

#[test]
fn test_call_and_return() {
    let mut cpu = CPU::new();
    let mut sys = System::new();
    sys.write(0x100, 0xCD); // CALL 0x0200
    sys.write(0x101, 0x00);
    sys.write(0x102, 0x02);
    assert!(cpu.execute_next(&mut sys).is_ok());
    assert_eq!(cpu.pc, 0x200);
    assert_eq!(cpu.sp, 0xFFFC);
    assert_eq!(sys.read(0xFFFD), 0x01);
    assert_eq!(sys.read(0xFFFC), 0x03);

    sys.write(0x200, 0xC9); // RET
    assert!(cpu.execute_next(&mut sys).is_ok());
    assert_eq!(cpu.pc, 0x103);
    assert_eq!(cpu.sp, 0xFFFE);
}

#[test]
fn test_push_pop_instructions() {
    let mut cpu = CPU::new();
    let mut sys = System::new();
    cpu.set_bc(0xBEEF);
    sys.write(0x100, 0xC5); // PUSH BC
    sys.write(0x101, 0xD1); // POP DE
    assert!(cpu.execute_next(&mut sys).is_ok());
    assert!(cpu.execute_next(&mut sys).is_ok());
    assert_eq!(cpu.de(), 0xBEEF);
    assert_eq!(cpu.sp, 0xFFFE);
}

#[test]
fn test_alu_block_reads_memory_operand() {
    let mut cpu = CPU::new();
    let mut sys = System::new();
    cpu.a = 0x01;
    cpu.set_hl(0xC050);
    sys.write(0xC050, 0x41);
    sys.write(0x100, 0x86); // ADD A, (HL)
    assert!(cpu.execute_next(&mut sys).is_ok());
    assert_eq!(cpu.a, 0x42);
    assert!(!cpu.cf);
}

#[test]
fn test_flag_instructions() {
    let mut cpu = CPU::new();
    let mut sys = System::new();
    cpu.a = 0x0F;
    sys.write(0x100, 0x2F); // CPL
    assert!(cpu.execute_next(&mut sys).is_ok());
    assert_eq!(cpu.a, 0xF0);
    assert!(cpu.nf && cpu.hf);

    sys.write(0x101, 0x37); // SCF
    assert!(cpu.execute_next(&mut sys).is_ok());
    assert!(cpu.cf && !cpu.nf && !cpu.hf);

    sys.write(0x102, 0x3F); // CCF
    assert!(cpu.execute_next(&mut sys).is_ok());
    assert!(!cpu.cf);

    sys.write(0x103, 0xFB); // EI
    sys.write(0x104, 0xF3); // DI
    assert!(cpu.execute_next(&mut sys).is_ok());
    assert!(cpu.ime);
    assert!(cpu.execute_next(&mut sys).is_ok());
    assert!(!cpu.ime);
}

#[test]
fn test_high_ram_shorthand_addressing() {
    let mut cpu = CPU::new();
    let mut sys = System::new();
    cpu.a = 0x77;
    sys.write(0x100, 0xE0); // LDH (0x85), A
    sys.write(0x101, 0x85);
    assert!(cpu.execute_next(&mut sys).is_ok());
    assert_eq!(sys.read(0xFF85), 0x77);

    cpu.a = 0;
    sys.write(0x102, 0xF0); // LDH A, (0x85)
    sys.write(0x103, 0x85);
    assert!(cpu.execute_next(&mut sys).is_ok());
    assert_eq!(cpu.a, 0x77);
}
