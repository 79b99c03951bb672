use pachip8risu::Chip8;
use pachip8risu::Chip8Error;
use pachip8risu::ENTRY_POINT;
use pachip8risu::SCREEN_SIZE;

/// Writes `opcode` at `entry_point` and runs one tick.
fn test_opcode(cpu: &mut Chip8, opcode: u16, entry_point: usize) -> Result<(), Chip8Error> {
    cpu.set_memory(entry_point, ((opcode & 0xFF00) >> 8) as u8);
    cpu.set_memory(entry_point + 1, (opcode & 0x00FF) as u8);
    cpu.tick()
}

#[test]
fn lib_test_cls() {
    let mut cpu = Chip8::new();

    cpu.set_gfx_buffer([true; SCREEN_SIZE]);

    // CLS
    let _ = test_opcode(&mut cpu, 0x00E0, ENTRY_POINT);

    assert_eq!(cpu.pc(), (ENTRY_POINT + 2) as u16);
    assert_eq!(*cpu.gfx_buffer(), [false; SCREEN_SIZE]);
}

#[test]
fn lib_test_ret() {
    let mut cpu = Chip8::new();

    // CALL 0x0ABC
    let _ = test_opcode(&mut cpu, 0x2ABC, ENTRY_POINT);

    // RET
    let _ = test_opcode(&mut cpu, 0x00EE, 0x0ABC);

    assert_eq!(cpu.pc(), (ENTRY_POINT + 2) as u16);
    assert_eq!(cpu.sp(), 0);
}

#[test]
fn lib_test_jp_addr() {
    let mut cpu = Chip8::new();

    // JP 0x0A2A
    let _ = test_opcode(&mut cpu, 0x1A2A, ENTRY_POINT);

    assert_eq!(cpu.pc(), 0x0A2A);
}

#[test]
fn lib_test_call_addr() {
    let mut cpu = Chip8::new();

    let _ = test_opcode(&mut cpu, 0x2ABC, ENTRY_POINT);

    assert_eq!(cpu.pc(), 0x0ABC);
    assert_eq!(cpu.sp(), 1);
    assert_eq!(cpu.stack()[0], ENTRY_POINT as u16);
}

#[test]
fn tests_test_cls() {
    let mut cpu = Chip8::new();

    cpu.set_gfx_buffer([true; SCREEN_SIZE]);

    // CLS
    let _ = test_opcode(&mut cpu, 0x00E0, ENTRY_POINT);

    assert_eq!(cpu.pc(), (ENTRY_POINT + 2) as u16);
    assert_eq!(*cpu.gfx_buffer(), [false; SCREEN_SIZE]);
}

#[test]
fn tests_test_ret() {
    let mut cpu = Chip8::new();

    // CALL 0x0ABC
    let _ = test_opcode(&mut cpu, 0x2ABC, ENTRY_POINT);

    // RET
    let _ = test_opcode(&mut cpu, 0x00EE, 0x0ABC);

    assert_eq!(cpu.pc(), (ENTRY_POINT + 2) as u16);
    assert_eq!(cpu.sp(), 0);
}

#[test]
fn tests_test_jp_addr() {
    let mut cpu = Chip8::new();

    // JP 0x0A2A
    let _ = test_opcode(&mut cpu, 0x1A2A, ENTRY_POINT);

    assert_eq!(cpu.pc(), 0x0A2A);
}

#[test]
fn tests_test_call_addr() {
    let mut cpu = Chip8::new();

    let _ = test_opcode(&mut cpu, 0x2ABC, ENTRY_POINT);

    assert_eq!(cpu.pc(), 0x0ABC);
    assert_eq!(cpu.sp(), 1);
    assert_eq!(cpu.stack()[0], ENTRY_POINT as u16);
}

#[test]
fn chip8_test_cls() {
    let mut cpu = Chip8::new();

    // Fill the graphics buffer
    cpu.set_gfx_buffer([true; SCREEN_SIZE]);

    // The byte written here is 0, and so is the byte after it: the word at
    // the entry point is 0x0000, which names no instruction.
    cpu.set_memory(ENTRY_POINT, 00E0 as u8);

    let result = cpu.tick();

    assert_eq!(result, Err(Chip8Error::UnknownOpcode(0x0000, 0)));
    assert_eq!(cpu.pc(), ENTRY_POINT as u16);
    assert_eq!(*cpu.gfx_buffer(), [true; SCREEN_SIZE]);
}

#[test]
fn lib_test_se_vx_byte() {
    let mut cpu = Chip8::new();

    let _ = test_opcode(&mut cpu, 0x3000, ENTRY_POINT);

    // V0 equals 0: the next instruction is skipped.
    assert_eq!(cpu.pc(), (ENTRY_POINT + 4) as u16);
}

#[test]
fn lib_test_sne_vx_byte() {
    let mut cpu = Chip8::new();

    let _ = test_opcode(&mut cpu, 0x4000, ENTRY_POINT);

    assert_eq!(cpu.pc(), (ENTRY_POINT + 2) as u16);
}

#[test]
fn lib_test_se_vx_vy() {
    let mut cpu = Chip8::new();

    let _ = test_opcode(&mut cpu, 0x5000, ENTRY_POINT);

    // V0 equals V0: the next instruction is skipped.
    assert_eq!(cpu.pc(), (ENTRY_POINT + 4) as u16);
}

#[test]
fn lib_test_ld_vx_byte() {
    let mut cpu = Chip8::new();

    let _ = test_opcode(&mut cpu, 0x6000, ENTRY_POINT);

    assert_eq!(cpu.pc(), (ENTRY_POINT + 2) as u16);
}

#[test]
fn lib_test_add_vx_byte() {
    let mut cpu = Chip8::new();

    let _ = test_opcode(&mut cpu, 0x7000, ENTRY_POINT);

    assert_eq!(cpu.pc(), (ENTRY_POINT + 2) as u16);
}

#[test]
fn lib_test_ld_vx_vy() {
    let mut cpu = Chip8::new();

    let _ = test_opcode(&mut cpu, 0x8000, ENTRY_POINT);

    assert_eq!(cpu.pc(), (ENTRY_POINT + 2) as u16);
}

#[test]
fn tests_test_se_vx_byte() {
    let mut cpu = Chip8::new();

    let _ = test_opcode(&mut cpu, 0x3000, ENTRY_POINT);

    // V0 equals 0: the next instruction is skipped.
    assert_eq!(cpu.pc(), (ENTRY_POINT + 4) as u16);
}

#[test]
fn tests_test_sne_vx_byte() {
    let mut cpu = Chip8::new();

    let _ = test_opcode(&mut cpu, 0x4000, ENTRY_POINT);

    assert_eq!(cpu.pc(), (ENTRY_POINT + 2) as u16);
}

#[test]
fn tests_test_se_vx_vy() {
    let mut cpu = Chip8::new();

    let _ = test_opcode(&mut cpu, 0x5000, ENTRY_POINT);

    // V0 equals V0: the next instruction is skipped.
    assert_eq!(cpu.pc(), (ENTRY_POINT + 4) as u16);
}

#[test]
fn tests_test_ld_vx_byte() {
    let mut cpu = Chip8::new();

    let _ = test_opcode(&mut cpu, 0x6000, ENTRY_POINT);

    assert_eq!(cpu.pc(), (ENTRY_POINT + 2) as u16);
}

#[test]
fn tests_test_add_vx_byte() {
    let mut cpu = Chip8::new();

    let _ = test_opcode(&mut cpu, 0x7000, ENTRY_POINT);

    assert_eq!(cpu.pc(), (ENTRY_POINT + 2) as u16);
}

#[test]
fn tests_test_ld_vx_vy() {
    let mut cpu = Chip8::new();

    let _ = test_opcode(&mut cpu, 0x8000, ENTRY_POINT);

    assert_eq!(cpu.pc(), (ENTRY_POINT + 2) as u16);
}

#[test]
fn test_or_vx_vy() {
    let mut cpu = Chip8::new();

    let _ = test_opcode(&mut cpu, 0x8001, ENTRY_POINT);

    assert_eq!(cpu.pc(), (ENTRY_POINT + 2) as u16);
}

#[test]
fn test_and_vx_vy() {
    let mut cpu = Chip8::new();

    let _ = test_opcode(&mut cpu, 0x8002, ENTRY_POINT);

    assert_eq!(cpu.pc(), (ENTRY_POINT + 2) as u16);
}

#[test]
fn test_xor_vx_vy() {
    let mut cpu = Chip8::new();

    let _ = test_opcode(&mut cpu, 0x8003, ENTRY_POINT);

    assert_eq!(cpu.pc(), (ENTRY_POINT + 2) as u16);
}

#[test]
fn test_add_vx_vy() {
    let mut cpu = Chip8::new();

    let _ = test_opcode(&mut cpu, 0x8004, ENTRY_POINT);

    assert_eq!(cpu.pc(), (ENTRY_POINT + 2) as u16);
}

#[test]
fn test_sub_vx_vy() {
    let mut cpu = Chip8::new();

    let _ = test_opcode(&mut cpu, 0x8005, ENTRY_POINT);

    assert_eq!(cpu.pc(), (ENTRY_POINT + 2) as u16);
}

#[test]
fn test_shr_vx_vy() {
    let mut cpu = Chip8::new();

    let _ = test_opcode(&mut cpu, 0x8006, ENTRY_POINT);

    assert_eq!(cpu.pc(), (ENTRY_POINT + 2) as u16);
}

#[test]
fn test_subn_vx_vy() {
    let mut cpu = Chip8::new();

    let _ = test_opcode(&mut cpu, 0x8007, ENTRY_POINT);

    assert_eq!(cpu.pc(), (ENTRY_POINT + 2) as u16);
}

#[test]
fn test_shl_vx_vy() {
    let mut cpu = Chip8::new();

    let _ = test_opcode(&mut cpu, 0x800E, ENTRY_POINT);

    assert_eq!(cpu.pc(), (ENTRY_POINT + 2) as u16);
}
