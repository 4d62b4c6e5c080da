use boyohboy::error::GbError;
use boyohboy::gpu::GpuState;
use boyohboy::{GameBoy, Halt};

fn rom_with_program(program: &[u8]) -> Vec<u8> {
    let mut rom = vec![0u8; 0x8000];
    for (i, b) in program.iter().enumerate() {
        rom[0x0100 + i] = *b;
    }
    rom
}

#[test]
fn test_halt_bug_executes_next_byte_twice() {
    // HALT with IME=0 and a pending request (the power-on request
    // register already has VBlank set) enters HaltBug; the INC A at the
    // post-HALT PC is then fetched without advancing PC, so it executes
    // twice in immediate succession.
    let mut gb = GameBoy::new(rom_with_program(&[0x76, 0x3C]));
    gb.memory.write(0xFFFF, 0x01).unwrap();
    assert!(!gb.cpu.ime);
    let a0 = gb.cpu.a;

    gb.step().unwrap();
    assert_eq!(gb.halt, Halt::HaltBug);
    assert_eq!(gb.cpu.pc, 0x0101);

    gb.step().unwrap();
    assert_eq!(gb.cpu.a, a0.wrapping_add(1));
    assert_eq!(gb.cpu.pc, 0x0101);
    assert_eq!(gb.halt, Halt::Running);

    gb.step().unwrap();
    assert_eq!(gb.cpu.a, a0.wrapping_add(2));
    assert_eq!(gb.cpu.pc, 0x0102);
}

#[test]
fn test_halt_without_pending_request_halts() {
    let mut gb = GameBoy::new(rom_with_program(&[0x76]));
    // Clear all pending requests; nothing is enabled either.
    gb.memory.write(0xFF0F, 0x00).unwrap();
    gb.step().unwrap();
    assert_eq!(gb.halt, Halt::Halted);
    let pc = gb.cpu.pc;
    gb.step().unwrap();
    // Halted steps are 1-cycle no-ops: PC does not move.
    assert_eq!(gb.cpu.pc, pc);
    assert_eq!(gb.halt, Halt::Halted);
}

#[test]
fn test_frame_is_exactly_70224_dots() {
    // 154 scanlines x 456 dots / 4 dots per cycle = 17556 cycles per
    // frame; the scanline register visits 0..=153 in order and the video
    // state returns to the start of scanline 0.
    let mut gb = GameBoy::new(rom_with_program(&[]));
    for expected_ly in 1..=153u8 {
        gb.tick(114);
        assert_eq!(gb.memory.read(0xFF44), expected_ly);
    }
    gb.tick(114);
    assert_eq!(gb.memory.read(0xFF44), 0);
    match gb.gpu.state {
        GpuState::Mode2 { scanline, dots_left, window_line } => {
            assert_eq!(scanline, 0);
            assert_eq!(dots_left, 80);
            assert_eq!(window_line, 0);
        },
        _ => panic!("expected the OAM scan of scanline 0"),
    }
}

#[test]
fn test_divider_ticks_every_64_cycles() {
    let mut gb = GameBoy::new(rom_with_program(&[]));
    let div0 = gb.memory.read(0xFF04);
    gb.tick(64);
    assert_eq!(gb.memory.read(0xFF04), div0.wrapping_add(1));
}

#[test]
fn test_timer_overflow_reloads_and_requests_interrupt() {
    let mut gb = GameBoy::new(rom_with_program(&[]));
    gb.memory.write(0xFF07, 0x05).unwrap();  // enabled, period 4 cycles
    gb.memory.write(0xFF06, 0x42).unwrap();  // modulo
    gb.memory.write(0xFF05, 0xFF).unwrap();  // counter about to overflow
    gb.memory.write(0xFF0F, 0x00).unwrap();
    gb.tick(4);
    assert_eq!(gb.memory.read(0xFF05), 0x42);
    assert_eq!(gb.memory.read(0xFF0F) & 0x04, 0x04);
}

#[test]
fn test_serial_transfer_extracts_byte() {
    let mut gb = GameBoy::new(rom_with_program(&[]));
    gb.memory.write(0xFF01, 0x55).unwrap();
    gb.memory.write(0xFF02, 0x81).unwrap();
    let byte = gb.serial();
    assert_eq!(byte, Some(0x55));
    assert_eq!(gb.memory.read(0xFF02), 0x00);
    assert_eq!(gb.serial(), None);
}

#[test]
fn test_serial_byte_returned_by_step() {
    let mut gb = GameBoy::new(rom_with_program(&[0x00]));
    gb.memory.write(0xFF01, 0x50).unwrap();
    gb.memory.write(0xFF02, 0x81).unwrap();
    let (byte, _pixels) = gb.step().unwrap();
    assert_eq!(byte, Some(0x50));
}

#[test]
fn test_stop_aborts_the_run() {
    let mut gb = GameBoy::new(rom_with_program(&[0x10]));
    assert_eq!(gb.step(), Err(GbError::Unimplemented));
}

#[test]
fn test_unknown_opcode_aborts_the_run() {
    let mut gb = GameBoy::new(rom_with_program(&[0xD3]));
    assert_eq!(gb.step(), Err(GbError::UnknownInstruction { opcode: 0xD3 }));
}

#[test]
fn test_step_services_pending_interrupt() {
    let mut gb = GameBoy::new(rom_with_program(&[0x00]));
    gb.cpu.sp = 0xD000;
    gb.cpu.ime = true;
    gb.memory.write(0xFFFF, 0x01).unwrap();
    gb.memory.write(0xFF0F, 0x01).unwrap();
    gb.step().unwrap();
    // The NOP ran (PC became 0x0101), then the VBlank vector was taken.
    assert_eq!(gb.cpu.pc, 0x0040);
    assert!(!gb.cpu.ime);
    assert_eq!(gb.memory.read(0xCFFF), 0x01);
    assert_eq!(gb.memory.read(0xCFFE), 0x01);
}
