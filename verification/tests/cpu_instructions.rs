use boyohboy::cpu::Cpu;
use boyohboy::memory::Memory;

/// A 32 KiB ROM image whose program starts at the power-on PC (0x0100).
fn rom_with_program(program: &[u8]) -> Vec<u8> {
    let mut rom = vec![0u8; 0x8000];
    for (i, b) in program.iter().enumerate() {
        rom[0x0100 + i] = *b;
    }
    rom
}

fn machine(program: &[u8]) -> (Cpu, Memory) {
    (Cpu::new(), Memory::new(rom_with_program(program)))
}

#[test]
fn test_power_on_registers() {
    let cpu = Cpu::new();
    assert_eq!(cpu.a, 0x01);
    assert_eq!(cpu.f, 0xB0);
    assert_eq!(cpu.b, 0x00);
    assert_eq!(cpu.c, 0x13);
    assert_eq!(cpu.sp, 0xFFFE);
    assert_eq!(cpu.pc, 0x0100);
    assert!(!cpu.ime);
}

#[test]
fn test_add_a_u8_half_carry() {
    // ADD A,0x01 with A=0x0F: result 0x10, Z=0 N=0 H=1 C=0.
    let (mut cpu, mut memory) = machine(&[0xC6, 0x01]);
    cpu.a = 0x0F;
    let r = cpu.execute_next_instruction(&mut memory).unwrap();
    assert_eq!(r.cycles, 2);
    assert!(!r.is_halt);
    assert_eq!(cpu.a, 0x10);
    assert!(!cpu.get_z());
    assert!(!cpu.get_n());
    assert!(cpu.get_h());
    assert!(!cpu.get_c());
}

#[test]
fn test_add_a_u8_carry_and_zero() {
    // ADD A,0x01 with A=0xFF: result 0x00, Z=1 H=1 C=1.
    let (mut cpu, mut memory) = machine(&[0xC6, 0x01]);
    cpu.a = 0xFF;
    cpu.execute_next_instruction(&mut memory).unwrap();
    assert_eq!(cpu.a, 0x00);
    assert!(cpu.get_z());
    assert!(cpu.get_h());
    assert!(cpu.get_c());
}

#[test]
fn test_sub_a_u8_borrow() {
    // SUB A,0x20 with A=0x10: result 0xF0, N=1, C=1 (borrow), H=0.
    let (mut cpu, mut memory) = machine(&[0xD6, 0x20]);
    cpu.a = 0x10;
    cpu.execute_next_instruction(&mut memory).unwrap();
    assert_eq!(cpu.a, 0xF0);
    assert!(cpu.get_n());
    assert!(cpu.get_c());
    assert!(!cpu.get_h());
}

#[test]
fn test_adc_folds_carry_in() {
    // SCF then ADC A,0x00 with A=0x0F: 0x0F + 0 + 1 = 0x10, H=1.
    let (mut cpu, mut memory) = machine(&[0x37, 0xCE, 0x00]);
    cpu.a = 0x0F;
    cpu.execute_next_instruction(&mut memory).unwrap();
    cpu.execute_next_instruction(&mut memory).unwrap();
    assert_eq!(cpu.a, 0x10);
    assert!(cpu.get_h());
    assert!(!cpu.get_c());
}

#[test]
fn test_daa_after_bcd_add() {
    // 0x19 + 0x28 = 0x41 binary; DAA corrects to 0x47 (19 + 28 = 47).
    let (mut cpu, mut memory) = machine(&[0xC6, 0x28, 0x27]);
    cpu.a = 0x19;
    cpu.execute_next_instruction(&mut memory).unwrap();
    assert_eq!(cpu.a, 0x41);
    cpu.execute_next_instruction(&mut memory).unwrap();
    assert_eq!(cpu.a, 0x47);
    assert!(!cpu.get_c());
    assert!(!cpu.get_h());
}

#[test]
fn test_daa_with_decimal_carry() {
    // 0x90 + 0x20 = 0xB0 binary; DAA gives 0x10 with Carry (90+20=110).
    let (mut cpu, mut memory) = machine(&[0xC6, 0x20, 0x27]);
    cpu.a = 0x90;
    cpu.execute_next_instruction(&mut memory).unwrap();
    cpu.execute_next_instruction(&mut memory).unwrap();
    assert_eq!(cpu.a, 0x10);
    assert!(cpu.get_c());
}

#[test]
fn test_ld_r16_n16() {
    let (mut cpu, mut memory) = machine(&[0x01, 0x34, 0x12]);
    let r = cpu.execute_next_instruction(&mut memory).unwrap();
    assert_eq!(r.cycles, 3);
    assert_eq!(cpu.b, 0x12);
    assert_eq!(cpu.c, 0x34);
    assert_eq!(cpu.pc, 0x0103);
}

#[test]
fn test_push_pop_roundtrip() {
    let (mut cpu, mut memory) = machine(&[]);
    cpu.sp = 0xD000;
    cpu.push_16(&mut memory, 0xBEEF).unwrap();
    assert_eq!(cpu.sp, 0xCFFE);
    let v = cpu.pop_16(&memory);
    assert_eq!(v, 0xBEEF);
    assert_eq!(cpu.sp, 0xD000);
}

#[test]
fn test_pop_af_masks_low_nibble() {
    // Writing AF through the stack path always zeroes F's low nibble.
    let mut cpu = Cpu::new();
    cpu.write_r16_stk(3, 0x12FF);
    assert_eq!(cpu.a, 0x12);
    assert_eq!(cpu.f, 0xF0);
}

#[test]
fn test_push_af_pop_af_program() {
    // PUSH AF; POP BC: BC receives AF with the masked F.
    let (mut cpu, mut memory) = machine(&[0xF5, 0xC1]);
    cpu.sp = 0xD000;
    cpu.a = 0x5A;
    cpu.execute_next_instruction(&mut memory).unwrap();
    cpu.execute_next_instruction(&mut memory).unwrap();
    assert_eq!(cpu.b, 0x5A);
    assert_eq!(cpu.c, 0xB0);
    assert_eq!(cpu.sp, 0xD000);
}

#[test]
fn test_jp_and_call_ret() {
    // JP 0x0110; at 0x0110 CALL 0x0120; at 0x0120 RET back to 0x0113.
    let mut rom = vec![0u8; 0x8000];
    rom[0x0100] = 0xC3;
    rom[0x0101] = 0x10;
    rom[0x0102] = 0x01;
    rom[0x0110] = 0xCD;
    rom[0x0111] = 0x20;
    rom[0x0112] = 0x01;
    rom[0x0120] = 0xC9;
    let mut cpu = Cpu::new();
    let mut memory = Memory::new(rom);
    cpu.sp = 0xD000;
    cpu.execute_next_instruction(&mut memory).unwrap();
    assert_eq!(cpu.pc, 0x0110);
    cpu.execute_next_instruction(&mut memory).unwrap();
    assert_eq!(cpu.pc, 0x0120);
    assert_eq!(cpu.sp, 0xCFFE);
    cpu.execute_next_instruction(&mut memory).unwrap();
    assert_eq!(cpu.pc, 0x0113);
    assert_eq!(cpu.sp, 0xD000);
}

#[test]
fn test_jr_negative_offset() {
    // JR -2 loops back onto the JR opcode itself.
    let (mut cpu, mut memory) = machine(&[0x18, 0xFE]);
    cpu.execute_next_instruction(&mut memory).unwrap();
    assert_eq!(cpu.pc, 0x0100);
}

#[test]
fn test_cb_swap() {
    // CB 0x37: SWAP A.
    let (mut cpu, mut memory) = machine(&[0xCB, 0x37]);
    cpu.a = 0xAB;
    let r = cpu.execute_next_instruction(&mut memory).unwrap();
    assert_eq!(r.cycles, 2);
    assert_eq!(cpu.a, 0xBA);
}

#[test]
fn test_cb_bit_and_set() {
    // CB 0x7F: BIT 7,A (A=0 so Z set); CB 0xFF: SET 7,A.
    let (mut cpu, mut memory) = machine(&[0xCB, 0x7F, 0xCB, 0xFF]);
    cpu.a = 0x00;
    cpu.execute_next_instruction(&mut memory).unwrap();
    assert!(cpu.get_z());
    cpu.execute_next_instruction(&mut memory).unwrap();
    assert_eq!(cpu.a, 0x80);
}

#[test]
fn test_rlca_rotates_into_carry() {
    let (mut cpu, mut memory) = machine(&[0x07]);
    cpu.a = 0x81;
    cpu.execute_next_instruction(&mut memory).unwrap();
    assert_eq!(cpu.a, 0x03);
    assert!(cpu.get_c());
    assert!(!cpu.get_z());
}

#[test]
fn test_ld_hl_indirect_store_and_load() {
    // LD HL,0xC123; LD (HL),A; LD B,(HL).
    let (mut cpu, mut memory) = machine(&[0x21, 0x23, 0xC1, 0x77, 0x46]);
    cpu.a = 0x42;
    cpu.execute_next_instruction(&mut memory).unwrap();
    cpu.execute_next_instruction(&mut memory).unwrap();
    assert_eq!(memory.read(0xC123), 0x42);
    cpu.execute_next_instruction(&mut memory).unwrap();
    assert_eq!(cpu.b, 0x42);
}

#[test]
fn test_add_sp_signed() {
    // ADD SP,-1 from 0xD000.
    let (mut cpu, mut memory) = machine(&[0xE8, 0xFF]);
    cpu.sp = 0xD000;
    cpu.execute_next_instruction(&mut memory).unwrap();
    assert_eq!(cpu.sp, 0xCFFF);
    assert!(!cpu.get_z());
    assert!(!cpu.get_n());
}

#[test]
fn test_cb_rlc_on_hl_indirect() {
    // LD HL,0xC200; LD (HL),n is avoided by writing memory directly;
    // CB 0x06: RLC (HL).
    let (mut cpu, mut memory) = machine(&[0x21, 0x00, 0xC2, 0xCB, 0x06]);
    memory.write(0xC200, 0x81).unwrap();
    cpu.execute_next_instruction(&mut memory).unwrap();
    let r = cpu.execute_next_instruction(&mut memory).unwrap();
    assert_eq!(r.cycles, 4);
    assert_eq!(memory.read(0xC200), 0x03);
    assert!(cpu.get_c());
}

#[test]
fn test_ld_hl_sp_plus_offset_flags() {
    // LD HL,SP+0x01 with SP=0xC0FF: low-byte carry and half-carry set.
    let (mut cpu, mut memory) = machine(&[0xF8, 0x01]);
    cpu.sp = 0xC0FF;
    cpu.execute_next_instruction(&mut memory).unwrap();
    assert_eq!(cpu.h, 0xC1);
    assert_eq!(cpu.l, 0x00);
    assert_eq!(cpu.sp, 0xC0FF);
    assert!(cpu.get_h());
    assert!(cpu.get_c());
    assert!(!cpu.get_z());
}

#[test]
fn test_write_to_mirror_aborts() {
    // LD HL,0xE000; LD (HL),A: the mirror rejects the store.
    let (mut cpu, mut memory) = machine(&[0x21, 0x00, 0xE0, 0x77]);
    cpu.execute_next_instruction(&mut memory).unwrap();
    let r = cpu.execute_next_instruction(&mut memory);
    assert_eq!(
        r,
        Err(boyohboy::error::GbError::MirrorRamWrite { addr: 0xE000 })
    );
}

#[test]
fn test_interrupt_service_vectors_and_clears() {
    let (mut cpu, mut memory) = machine(&[]);
    cpu.sp = 0xD000;
    cpu.ime = true;
    memory.write(0xFFFF, 0x01).unwrap();
    memory.write(0xFF0F, 0x01).unwrap();
    let r = cpu.handle_interrupts(&mut memory).unwrap();
    assert!(r.interrupt_requested);
    assert!(r.interrupts_enabled);
    assert_eq!(r.cycles, 5);
    assert!(!cpu.ime);
    assert_eq!(cpu.pc, 0x0040);
    assert_eq!(cpu.sp, 0xCFFE);
    // The old PC (0x0100) was pushed high byte first.
    assert_eq!(memory.read(0xCFFF), 0x01);
    assert_eq!(memory.read(0xCFFE), 0x00);
    // The serviced request bit was cleared.
    assert_eq!(memory.read(0xFF0F) & 0x01, 0);
}

#[test]
fn test_interrupt_priority_lowest_bit_wins() {
    let (mut cpu, mut memory) = machine(&[]);
    cpu.sp = 0xD000;
    cpu.ime = true;
    memory.write(0xFFFF, 0x1F).unwrap();
    memory.write(0xFF0F, 0x06).unwrap();
    cpu.handle_interrupts(&mut memory).unwrap();
    // Bit 1 (LCD, vector 0x48) wins over bit 2 (Timer).
    assert_eq!(cpu.pc, 0x0048);
    assert_eq!(memory.read(0xFF0F), 0x04);
}
