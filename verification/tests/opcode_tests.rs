use rgb_core::cpu::CPU;
use rgb_core::system::System;

#[test]
fn test_sixteen_bit_inc_dec() {
    let mut cpu = CPU::new();
    let mut sys = System::new();
    cpu.set_bc(0xFFFF);
    sys.write(0x100, 0x03); // INC BC
    assert!(cpu.execute_next(&mut sys).is_ok());
    assert_eq!(cpu.bc(), 0x0000);

    cpu.set_de(0x0000);
    sys.write(0x101, 0x1B); // DEC DE
    assert!(cpu.execute_next(&mut sys).is_ok());
    assert_eq!(cpu.de(), 0xFFFF);

    cpu.sp = 0x0000;
    sys.write(0x102, 0x3B); // DEC SP
    assert!(cpu.execute_next(&mut sys).is_ok());
    assert_eq!(cpu.sp, 0xFFFF);
    cpu.sp = 0xFFFE;
}

#[test]
fn test_add_hl_pairs() {
    let mut cpu = CPU::new();
    let mut sys = System::new();
    cpu.set_hl(0xFFFF);
    cpu.set_bc(0x0001);
    sys.write(0x100, 0x09); // ADD HL, BC
    assert!(cpu.execute_next(&mut sys).is_ok());
    assert_eq!(cpu.hl(), 0x0000);
    assert!(cpu.cf);
    assert!(!cpu.nf);

    cpu.set_hl(0x1200);
    cpu.set_de(0x0034);
    sys.write(0x101, 0x19); // ADD HL, DE
    assert!(cpu.execute_next(&mut sys).is_ok());
    assert_eq!(cpu.hl(), 0x1234);
    assert!(!cpu.cf);
}

#[test]
fn test_store_stack_pointer() {
    let mut cpu = CPU::new();
    let mut sys = System::new();
    cpu.sp = 0xABCD;
    sys.write(0x100, 0x08); // LD (0xC0F0), SP
    sys.write(0x101, 0xF0);
    sys.write(0x102, 0xC0);
    assert!(cpu.execute_next(&mut sys).is_ok());
    assert_eq!(sys.read(0xC0F0), 0xCD);
    assert_eq!(sys.read(0xC0F1), 0xAB);
    assert_eq!(cpu.pc, 0x103);
}

#[test]
fn test_fast_call_vector() {
    let mut cpu = CPU::new();
    let mut sys = System::new();
    sys.write(0x100, 0xEF); // RST 0x28
    assert!(cpu.execute_next(&mut sys).is_ok());
    assert_eq!(cpu.pc, 0x0028);
    assert_eq!(cpu.sp, 0xFFFC);
    assert_eq!(sys.read(0xFFFD), 0x01);
    assert_eq!(sys.read(0xFFFC), 0x01);
}

#[test]
fn test_conditional_jump_not_taken_keeps_operand() {
    let mut cpu = CPU::new();
    let mut sys = System::new();
    sys.write(0x100, 0xC2); // JP NZ, a16
    sys.write(0x101, 0x00);
    sys.write(0x102, 0x02);
    cpu.zf = true;
    assert!(cpu.execute_next(&mut sys).is_ok());
    // Not taken: the operand bytes are not consumed in this decode table.
    assert_eq!(cpu.pc, 0x101);

    cpu.pc = 0x100;
    cpu.zf = false;
    assert!(cpu.execute_next(&mut sys).is_ok());
    assert_eq!(cpu.pc, 0x200);
}

#[test]
fn test_conditional_return_and_reti() {
    let mut cpu = CPU::new();
    let mut sys = System::new();
    cpu.push16(&mut sys, 0x0234);
    cpu.cf = false;
    sys.write(0x100, 0xD8); // RET C, not taken
    assert!(cpu.execute_next(&mut sys).is_ok());
    assert_eq!(cpu.pc, 0x101);
    assert_eq!(cpu.sp, 0xFFFC);

    sys.write(0x101, 0xD9); // RETI
    assert!(cpu.execute_next(&mut sys).is_ok());
    assert_eq!(cpu.pc, 0x0234);
    assert_eq!(cpu.sp, 0xFFFE);
    assert!(cpu.ime);
}

#[test]
fn test_add_signed_immediate_to_stack_pointer() {
    let mut cpu = CPU::new();
    let mut sys = System::new();
    cpu.sp = 0xFFF0;
    sys.write(0x100, 0xE8);
    sys.write(0x101, 0x10);
    assert!(cpu.execute_next(&mut sys).is_ok());
    assert_eq!(cpu.sp, 0x0000);
    assert!(cpu.cf);
    assert!(!cpu.zf);

    cpu.sp = 0x0100;
    sys.write(0x102, 0xE8);
    sys.write(0x103, 0xFE); // -2 as a signed byte, added as 0xFFFE
    assert!(cpu.execute_next(&mut sys).is_ok());
    assert_eq!(cpu.sp, 0x00FE);
}

#[test]
fn test_jump_through_hl_indirect() {
    let mut cpu = CPU::new();
    let mut sys = System::new();
    cpu.set_hl(0xC100);
    sys.write(0xC100, 0x34);
    sys.write(0xC101, 0x12);
    sys.write(0x100, 0xE9);
    assert!(cpu.execute_next(&mut sys).is_ok());
    assert_eq!(cpu.pc, 0x1234);
}

#[test]
fn test_load_hl_from_offset_program_counter() {
    let mut cpu = CPU::new();
    let mut sys = System::new();
    sys.write(0x100, 0xF8);
    sys.write(0x101, 0x10);
    assert!(cpu.execute_next(&mut sys).is_ok());
    // The base is the address of the operand byte, a quirk of this decode
    // table: 0x101 + 0x10.
    assert_eq!(cpu.hl(), 0x0111);
    assert_eq!(cpu.pc, 0x102);
}

#[test]
fn test_load_stack_pointer_from_hl() {
    let mut cpu = CPU::new();
    let mut sys = System::new();
    cpu.set_hl(0xD000);
    sys.write(0x100, 0xF9);
    assert!(cpu.execute_next(&mut sys).is_ok());
    assert_eq!(cpu.sp, 0xD000);
}

#[test]
fn test_push_pop_af_drops_low_nibble() {
    let mut cpu = CPU::new();
    let mut sys = System::new();
    cpu.push16(&mut sys, 0xFFFF);
    sys.write(0x100, 0xF1); // POP AF
    assert!(cpu.execute_next(&mut sys).is_ok());
    assert_eq!(cpu.a, 0xFF);
    assert!(cpu.zf && cpu.nf && cpu.hf && cpu.cf);
    assert_eq!(cpu.af(), 0xFFF0);

    sys.write(0x101, 0xF5); // PUSH AF
    assert!(cpu.execute_next(&mut sys).is_ok());
    assert_eq!(sys.read(0xFFFC), 0xF0);
    assert_eq!(sys.read(0xFFFD), 0xFF);
}

#[test]
fn test_inc_dec_hl_indirect() {
    let mut cpu = CPU::new();
    let mut sys = System::new();
    cpu.set_hl(0xC020);
    sys.write(0xC020, 0xFF);
    sys.write(0x100, 0x34); // INC (HL)
    assert!(cpu.execute_next(&mut sys).is_ok());
    assert_eq!(sys.read(0xC020), 0x00);
    assert!(cpu.zf);

    sys.write(0x101, 0x35); // DEC (HL)
    assert!(cpu.execute_next(&mut sys).is_ok());
    assert_eq!(sys.read(0xC020), 0xFF);
    assert!(cpu.nf);
}

#[test]
fn test_bc_de_indirect_loads() {
    let mut cpu = CPU::new();
    let mut sys = System::new();
    cpu.set_bc(0xC030);
    cpu.set_de(0xC040);
    cpu.a = 0x11;
    sys.write(0x100, 0x02); // LD (BC), A
    assert!(cpu.execute_next(&mut sys).is_ok());
    assert_eq!(sys.read(0xC030), 0x11);

    cpu.a = 0x22;
    sys.write(0x101, 0x12); // LD (DE), A
    assert!(cpu.execute_next(&mut sys).is_ok());
    assert_eq!(sys.read(0xC040), 0x22);

    cpu.a = 0;
    sys.write(0x102, 0x0A); // LD A, (BC)
    assert!(cpu.execute_next(&mut sys).is_ok());
    assert_eq!(cpu.a, 0x11);

    sys.write(0x103, 0x1A); // LD A, (DE)
    assert!(cpu.execute_next(&mut sys).is_ok());
    assert_eq!(cpu.a, 0x22);
}

#[test]
fn test_absolute_load_store() {
    let mut cpu = CPU::new();
    let mut sys = System::new();
    cpu.a = 0x7E;
    sys.write(0x100, 0xEA); // LD (0xC123), A
    sys.write(0x101, 0x23);
    sys.write(0x102, 0xC1);
    assert!(cpu.execute_next(&mut sys).is_ok());
    assert_eq!(sys.read(0xC123), 0x7E);

    cpu.a = 0;
    sys.write(0x103, 0xFA); // LD A, (0xC123)
    sys.write(0x104, 0x23);
    sys.write(0x105, 0xC1);
    assert!(cpu.execute_next(&mut sys).is_ok());
    assert_eq!(cpu.a, 0x7E);
}

#[test]
fn test_high_ram_register_indirect() {
    let mut cpu = CPU::new();
    let mut sys = System::new();
    cpu.c = 0x90;
    cpu.a = 0x3C;
    sys.write(0x100, 0xE2); // LD (0xFF00 + C), A
    assert!(cpu.execute_next(&mut sys).is_ok());
    assert_eq!(sys.read(0xFF90), 0x3C);

    cpu.a = 0;
    sys.write(0x101, 0xF2); // LD A, (0xFF00 + C)
    assert!(cpu.execute_next(&mut sys).is_ok());
    assert_eq!(cpu.a, 0x3C);
}

#[test]
fn test_immediate_alu_forms() {
    let mut cpu = CPU::new();
    let mut sys = System::new();
    cpu.a = 0x40;
    sys.write(0x100, 0xC6); // ADD A, 0x02
    sys.write(0x101, 0x02);
    sys.write(0x102, 0xE6); // AND 0x0F
    sys.write(0x103, 0x0F);
    sys.write(0x104, 0xFE); // CP 0x02
    sys.write(0x105, 0x02);
    assert!(cpu.execute_next(&mut sys).is_ok());
    assert_eq!(cpu.a, 0x42);
    assert!(cpu.execute_next(&mut sys).is_ok());
    assert_eq!(cpu.a, 0x02);
    assert!(cpu.hf);
    assert!(cpu.execute_next(&mut sys).is_ok());
    assert!(cpu.zf);
    assert_eq!(cpu.a, 0x02);
}

#[test]
fn test_identity_register_moves() {
    let mut cpu = CPU::new();
    let mut sys = System::new();
    cpu.b = 0x21;
    sys.write(0x100, 0x40); // LD B, B
    sys.write(0x101, 0x00); // NOP
    assert!(cpu.execute_next(&mut sys).is_ok());
    assert_eq!(cpu.b, 0x21);
    assert_eq!(cpu.pc, 0x101);
    assert!(cpu.execute_next(&mut sys).is_ok());
    assert_eq!(cpu.pc, 0x102);
}

#[test]
fn test_stop_halts() {
    let mut cpu = CPU::new();
    let mut sys = System::new();
    sys.write(0x100, 0x10);
    assert!(cpu.execute_next(&mut sys).is_ok());
    assert!(cpu.halted);
}
