use chip8::cpu::{Chip8, Chip8Error, OpCode};
use chip8::rom::{boot, font};
use chip8::run::{CPUState, RunState, HZ_DEFAULT, HZ_MAX, HZ_MIN};
use chip8::state::{Chip8State, MAX_PROGRAM_SIZE, PROGRAM_START};

fn loaded(program: &[u8]) -> Chip8 {
    let mut cpu = Chip8::new();
    assert_eq!(cpu.load_rom(program), Ok(program.len()));
    cpu
}

#[test]
fn add_byte_twice_equals_doubled_add() {
    for v in [0u8, 1, 100, 200, 255] {
        for b in [0u8, 1, 127, 128, 200, 255] {
            let mut twice = Chip8::new();
            twice.state.v[3] = v;
            twice.apply(OpCode::AddByte { x: 3, byte: b }, 0).unwrap();
            twice.apply(OpCode::AddByte { x: 3, byte: b }, 0).unwrap();
            let mut once = Chip8::new();
            once.state.v[3] = v;
            once.apply(OpCode::AddByte { x: 3, byte: b.wrapping_mul(2) }, 0).unwrap();
            assert_eq!(twice.state.v, once.state.v);
        }
    }
}

#[test]
fn draw_twice_restores_video() {
    let mut cpu = Chip8::new();
    for k in 0..256 {
        cpu.state.video[k] = (k * 37 % 251) as u8;
    }
    let before = cpu.state.video;
    cpu.state.i = 0x300;
    for (k, b) in [0xA5u8, 0xFF, 0x81, 0x3C].iter().enumerate() {
        cpu.state.memory[0x300 + k] = *b;
    }
    cpu.state.v[2] = 61;
    cpu.state.v[4] = 29;
    cpu.apply(OpCode::Draw { x: 2, y: 4, n: 4 }, 0).unwrap();
    assert_ne!(cpu.state.video, before);
    cpu.apply(OpCode::Draw { x: 2, y: 4, n: 4 }, 0).unwrap();
    assert_eq!(cpu.state.video, before);
}

#[test]
fn draw_straddles_bytes_and_flags_collision() {
    let mut cpu = Chip8::new();
    cpu.state.i = 0x300;
    cpu.state.memory[0x300] = 0xFF;
    cpu.state.v[0] = 3;
    cpu.state.v[1] = 0;
    cpu.apply(OpCode::Draw { x: 0, y: 1, n: 1 }, 0).unwrap();
    assert_eq!(cpu.state.video[0], 0x1F);
    assert_eq!(cpu.state.video[1], 0xE0);
    assert_eq!(cpu.state.v[0xF], 0);
    cpu.state.v[0] = 4;
    cpu.apply(OpCode::Draw { x: 0, y: 1, n: 1 }, 0).unwrap();
    assert_eq!(cpu.state.video[0], 0x10);
    assert_eq!(cpu.state.video[1], 0x10);
    assert_eq!(cpu.state.v[0xF], 1);
}

#[test]
fn draw_skips_rows_past_the_bottom() {
    let mut cpu = Chip8::new();
    cpu.state.i = 0x300;
    cpu.state.memory[0x300] = 0x80;
    cpu.state.memory[0x301] = 0x80;
    cpu.state.v[0] = 0;
    cpu.state.v[1] = 31;
    cpu.apply(OpCode::Draw { x: 0, y: 1, n: 2 }, 0).unwrap();
    assert_eq!(cpu.state.video[248], 0x80);
    assert_eq!(cpu.state.video[0], 0);
    assert_eq!(cpu.state.video.iter().filter(|b| **b != 0).count(), 1);
}

#[test]
fn draw_out_of_memory_faults() {
    let mut cpu = Chip8::new();
    cpu.state.i = 4090;
    let r = cpu.apply(OpCode::Draw { x: 0, y: 1, n: 8 }, 0);
    assert_eq!(r, Err(Chip8Error::AddressOutOfRangeError));
    assert_eq!(cpu.state.error, Some(Chip8Error::AddressOutOfRangeError));
}

#[test]
fn add_registers_carry_boundaries() {
    let mut cpu = Chip8::new();
    cpu.state.v[0] = 255;
    cpu.state.v[1] = 1;
    cpu.apply(OpCode::Add { x: 0, y: 1 }, 0).unwrap();
    assert_eq!(cpu.state.v[0], 0);
    assert_eq!(cpu.state.v[0xF], 1);

    cpu.state.v[0] = 255;
    cpu.state.v[1] = 0;
    cpu.apply(OpCode::Add { x: 0, y: 1 }, 0).unwrap();
    assert_eq!(cpu.state.v[0], 255);
    assert_eq!(cpu.state.v[0xF], 0);
}

#[test]
fn sub_and_shift_flags() {
    let mut cpu = Chip8::new();
    cpu.state.v[0] = 3;
    cpu.state.v[1] = 5;
    cpu.apply(OpCode::Sub { x: 0, y: 1 }, 0).unwrap();
    assert_eq!(cpu.state.v[0], 254);
    assert_eq!(cpu.state.v[0xF], 0);

    cpu.state.v[0] = 3;
    cpu.apply(OpCode::SubReverse { x: 0, y: 1 }, 0).unwrap();
    assert_eq!(cpu.state.v[0], 2);
    assert_eq!(cpu.state.v[0xF], 1);

    cpu.state.v[2] = 0b1000_0011;
    cpu.apply(OpCode::ShiftRight { x: 2 }, 0).unwrap();
    assert_eq!(cpu.state.v[2], 0b0100_0001);
    assert_eq!(cpu.state.v[0xF], 1);

    cpu.state.v[2] = 0b1000_0011;
    cpu.apply(OpCode::ShiftLeft { x: 2 }, 0).unwrap();
    assert_eq!(cpu.state.v[2], 0b0000_0110);
    assert_eq!(cpu.state.v[0xF], 1);
}

#[test]
fn call_depth_and_overflow() {
    let mut cpu = Chip8::new();
    for k in 0..16 {
        assert_eq!(cpu.apply(OpCode::Call { address: 0x300 }, 0), Ok(()));
        assert_eq!(cpu.state.sp, k + 1);
    }
    assert_eq!(cpu.apply(OpCode::Call { address: 0x300 }, 0), Err(Chip8Error::StackOverflowError));
    assert_eq!(cpu.state.sp, 16);
    assert_eq!(cpu.state.error, Some(Chip8Error::StackOverflowError));
}

#[test]
fn return_on_empty_stack_underflows() {
    let mut cpu = Chip8::new();
    assert_eq!(cpu.apply(OpCode::Return, 0), Err(Chip8Error::StackUnderflowError));
    assert_eq!(cpu.state.error, Some(Chip8Error::StackUnderflowError));
}

#[test]
fn call_then_return() {
    let mut cpu = loaded(&[0x23, 0x00]);
    cpu.state.memory[0x300] = 0x00;
    cpu.state.memory[0x301] = 0xEE;
    cpu.cycle_with(0).unwrap();
    assert_eq!(cpu.state.pc, 0x300);
    assert_eq!(cpu.state.stack[0], 0x202);
    cpu.cycle_with(0).unwrap();
    assert_eq!(cpu.state.pc, 0x202);
    assert_eq!(cpu.state.sp, 0);
}

#[test]
fn call_outside_program_region() {
    let mut cpu = Chip8::new();
    let r = cpu.apply(OpCode::Call { address: 0xE00 }, 0);
    assert_eq!(r, Err(Chip8Error::AddressOutOfRangeError));
    assert_eq!(cpu.state.sp, 0);
}

#[test]
fn load_largest_program() {
    let mut cpu = Chip8::new();
    let image = vec![0xABu8; MAX_PROGRAM_SIZE];
    assert_eq!(cpu.load_rom(&image), Ok(MAX_PROGRAM_SIZE));
    assert_eq!(cpu.state.memory[PROGRAM_START], 0xAB);
    assert_eq!(cpu.state.memory[4095], 0xAB);
    assert_eq!(cpu.state.memory[0], 0xF0);

    let too_long = vec![0u8; MAX_PROGRAM_SIZE + 1];
    assert_eq!(cpu.load_rom(&too_long), Err(Chip8Error::ProgramLoadError));
    assert_eq!(cpu.state.memory[PROGRAM_START], 0xAB);
}

#[test]
fn wait_key_repeats_until_pressed() {
    let mut cpu = loaded(&[0xF3, 0x0A]);
    cpu.cycle_with(0).unwrap();
    assert_eq!(cpu.state.pc, PROGRAM_START);
    cpu.cycle_with(0).unwrap();
    assert_eq!(cpu.state.pc, PROGRAM_START);
    cpu.press_key(9);
    cpu.press_key(7);
    cpu.cycle_with(0).unwrap();
    assert_eq!(cpu.state.v[3], 7);
    assert_eq!(cpu.state.pc, PROGRAM_START + 2);
}

#[test]
fn boot_rom_draws_banner() {
    let mut cpu = loaded(&boot());
    for _ in 0..21 {
        cpu.execute_cycle().unwrap();
    }
    let expected: [(usize, u8); 42] = [
        (25, 0x0f), (26, 0x33), (27, 0x7e), (28, 0xf8), (29, 0x07), (30, 0x80),
        (33, 0x19), (34, 0xb3), (35, 0x18), (36, 0xcc), (37, 0x0c), (38, 0xc0),
        (41, 0x18), (42, 0x33), (43, 0x18), (44, 0xcc), (45, 0x0c), (46, 0xc0),
        (49, 0x18), (50, 0x3f), (51, 0x18), (52, 0xf9), (53, 0xe7), (54, 0x80),
        (57, 0x18), (58, 0x33), (59, 0x18), (60, 0xc0), (61, 0x0c), (62, 0xc0),
        (65, 0x19), (66, 0xb3), (67, 0x18), (68, 0xc0), (69, 0x0c), (70, 0xc0),
        (73, 0x0f), (74, 0x33), (75, 0x7e), (76, 0xc0), (77, 0x07), (78, 0x80),
    ];
    let mut want = [0u8; 256];
    for (k, b) in expected.iter() {
        want[*k] = *b;
    }
    assert_eq!(cpu.state.video, want);
    assert_eq!(cpu.state.pc, 0x22A);
    assert_eq!(cpu.state.v[0], 44);
    assert_eq!(cpu.state.v[0xF], 0);
}

#[test]
fn decode_table_examples() {
    assert_eq!(OpCode::decode(0x00E0), OpCode::ClearScreen);
    assert_eq!(OpCode::decode(0xA2F0), OpCode::LoadAddress { address: 0x2F0 });
    assert_eq!(OpCode::decode(0x0123), OpCode::Unknown { instruction: 0x0123 });
    assert_eq!(OpCode::decode(0x800F), OpCode::Unknown { instruction: 0x800F });
    assert_eq!(OpCode::decode(0xE0FF), OpCode::Unknown { instruction: 0xE0FF });
    assert_eq!(OpCode::decode(0x5555), OpCode::Unknown { instruction: 0x5555 });
    assert_eq!(OpCode::decode(0x5550), OpCode::SkipEqual { x: 5, y: 5 });
    assert_eq!(OpCode::decode(0x9AB1), OpCode::Unknown { instruction: 0x9AB1 });
    assert_eq!(OpCode::decode(0x8AB4), OpCode::Add { x: 0xA, y: 0xB });
    assert_eq!(OpCode::decode(0xD12F), OpCode::Draw { x: 1, y: 2, n: 15 });
    assert_eq!(OpCode::decode(0xF265), OpCode::Restore { x: 2 });
}

#[test]
fn disassemble_formats() {
    assert_eq!(OpCode::disassemble(0x00E0), ("CLS".to_string(), String::new()));
    assert_eq!(OpCode::disassemble(0xA2F0), ("LOAD".to_string(), "I, #02F0".to_string()));
    assert_eq!(OpCode::disassemble(0x1ABC), ("JUMP".to_string(), "#0ABC".to_string()));
    assert_eq!(OpCode::disassemble(0x3A0F), ("SE".to_string(), "VA, 0F".to_string()));
    assert_eq!(OpCode::disassemble(0x5AB0), ("SE".to_string(), "VA, V11".to_string()));
    assert_eq!(OpCode::disassemble(0x8AB4), ("ADD".to_string(), "VA, VB".to_string()));
    assert_eq!(OpCode::disassemble(0xC13F), ("RND".to_string(), "V1, #3F".to_string()));
    assert_eq!(OpCode::disassemble(0xD12C), ("DRAW".to_string(), "V1, V2, 12".to_string()));
    assert_eq!(OpCode::disassemble(0xF20A), ("LOAD".to_string(), "V2, K".to_string()));
    assert_eq!(OpCode::disassemble(0xF265), ("RST".to_string(), "V2, [I]".to_string()));
    assert_eq!(OpCode::disassemble(0x0123), ("???".to_string(), String::new()));
    assert_eq!(OpCode::disassemble(0x5555), ("???".to_string(), String::new()));
}

#[test]
fn unknown_instruction_faults() {
    let mut cpu = loaded(&[0x01, 0x23]);
    assert_eq!(cpu.execute_cycle(), Err(Chip8Error::UnknownInstructionError));
    assert_eq!(cpu.state.error, Some(Chip8Error::UnknownInstructionError));
    assert_eq!(cpu.state.pc, PROGRAM_START + 2);
    assert_eq!(Chip8Error::UnknownInstructionError.description(), "instruction unknown");
}

#[test]
fn fetch_past_memory_end_faults() {
    let mut cpu = Chip8::new();
    cpu.state.pc = 4095;
    assert_eq!(cpu.execute_cycle(), Err(Chip8Error::AddressOutOfRangeError));
}

#[test]
fn random_is_masked() {
    let mut cpu = Chip8::new();
    for _ in 0..50 {
        cpu.execute(OpCode::Random { x: 4, byte: 0x0F }).unwrap();
        assert!(cpu.state.v[4] <= 0x0F);
    }
    cpu.apply(OpCode::Random { x: 4, byte: 0x3C }, 0xFF).unwrap();
    assert_eq!(cpu.state.v[4], 0x3C);
}

#[test]
fn timers_count_down_to_zero() {
    let mut cpu = loaded(&[0x60, 0x02, 0xF0, 0x15, 0xF0, 0x18, 0x12, 0x06]);
    for _ in 0..3 {
        cpu.cycle_with(0).unwrap();
    }
    assert_eq!(cpu.state.dt, 1);
    assert_eq!(cpu.state.st, 2);
    cpu.cycle_with(0).unwrap();
    assert_eq!(cpu.state.dt, 0);
    assert_eq!(cpu.state.st, 1);
    cpu.cycle_with(0).unwrap();
    cpu.cycle_with(0).unwrap();
    assert_eq!(cpu.state.dt, 0);
    assert_eq!(cpu.state.st, 0);
    assert_eq!(cpu.state.pc, 0x206);
}

#[test]
fn bcd_font_save_restore() {
    let mut cpu = Chip8::new();
    cpu.state.v[5] = 234;
    cpu.state.i = 0x400;
    cpu.apply(OpCode::BCD { x: 5 }, 0).unwrap();
    assert_eq!(&cpu.state.memory[0x400..0x403], &[2, 3, 4]);

    cpu.state.v[0] = 10;
    cpu.state.v[1] = 11;
    cpu.state.v[2] = 12;
    cpu.apply(OpCode::Save { x: 1 }, 0).unwrap();
    assert_eq!(&cpu.state.memory[0x400..0x403], &[10, 11, 4]);
    cpu.state.v[0] = 0;
    cpu.state.v[1] = 0;
    cpu.apply(OpCode::Restore { x: 2 }, 0).unwrap();
    assert_eq!(&cpu.state.v[0..3], &[10, 11, 4]);

    cpu.state.v[7] = 0x1B;
    cpu.apply(OpCode::LoadFont { x: 7 }, 0).unwrap();
    assert_eq!(cpu.state.i, 55);
    cpu.apply(OpCode::AddAddress { x: 7 }, 0).unwrap();
    assert_eq!(cpu.state.i, 82);

    cpu.state.i = 4094;
    assert_eq!(cpu.apply(OpCode::BCD { x: 5 }, 0), Err(Chip8Error::AddressOutOfRangeError));
}

#[test]
fn skips_and_jump_offset() {
    let mut cpu = Chip8::new();
    cpu.state.v[1] = 7;
    cpu.apply(OpCode::SkipByteEqual { x: 1, byte: 7 }, 0).unwrap();
    assert_eq!(cpu.state.pc, PROGRAM_START + 2);
    cpu.apply(OpCode::SkipByteNotEqual { x: 1, byte: 7 }, 0).unwrap();
    assert_eq!(cpu.state.pc, PROGRAM_START + 2);
    cpu.press_key(3);
    cpu.apply(OpCode::SkipKeyPressed { x: 3 }, 0).unwrap();
    assert_eq!(cpu.state.pc, PROGRAM_START + 4);
    cpu.state.v[0] = 4;
    cpu.apply(OpCode::JumpOffset { address: 0x300 }, 0).unwrap();
    assert_eq!(cpu.state.pc, 0x304);
}

#[test]
fn resets_keep_or_wipe_program() {
    let mut cpu = loaded(&[0x60, 0x09]);
    cpu.cycle_with(0).unwrap();
    assert_eq!(cpu.state.v[0], 9);
    cpu.soft_reset();
    assert_eq!(cpu.state.v[0], 0);
    assert_eq!(cpu.state.pc, PROGRAM_START);
    assert_eq!(cpu.state.memory[PROGRAM_START], 0x60);
    cpu.hard_reset();
    assert_eq!(cpu.state.memory[PROGRAM_START], 0);
    assert_eq!(&cpu.state.memory[0..80], &font()[..]);
    let fresh = Chip8State::new();
    assert_eq!(fresh.fetch(0), 0xF090);
}

#[test]
fn run_state_pacing() {
    let mut run = RunState::new();
    assert_eq!(run.cpu_state, CPUState::Stopped);
    assert_eq!(run.hz, HZ_DEFAULT);
    assert_eq!(run.cycles_since(1000), 0);
    run.toggle_pause();
    assert_eq!(run.cpu_state, CPUState::Stopped);

    let mut run = RunState::running(0);
    assert_eq!(run.cycles_since(10), 5);
    run.dec_hz();
    assert_eq!(run.hz, 400);
    run.hz = 100;
    run.dec_hz();
    assert_eq!(run.hz, 90);
    run.hz = 15;
    run.dec_hz();
    assert_eq!(run.hz, 14);
    run.hz = HZ_MIN;
    run.dec_hz();
    assert_eq!(run.hz, HZ_MIN);
    run.hz = 19;
    run.inc_hz();
    assert_eq!(run.hz, 20);
    run.hz = 1950;
    run.inc_hz();
    assert_eq!(run.hz, HZ_MAX);

    run.toggle_pause();
    assert_eq!(run.cpu_state, CPUState::Paused);
    assert_eq!(run.cycles_since(1000), 0);
    run.cpu_state = CPUState::OneStep;
    assert_eq!(run.cycles_since(0), 1);
    run.finish_batch(false);
    assert_eq!(run.cpu_state, CPUState::Paused);
    run.toggle_pause();
    run.finish_batch(true);
    assert_eq!(run.cpu_state, CPUState::Paused);
}

#[test]
fn load_replaces_memory_only() {
    let mut cpu = loaded(&[0x60, 0x09, 0x12, 0x02]);
    cpu.cycle_with(0).unwrap();
    cpu.state.memory[0x900] = 0x55;
    assert_eq!(cpu.load_rom(&[0x61, 0x01]), Ok(2));
    assert_eq!(cpu.state.v[0], 9);
    assert_eq!(cpu.state.pc, PROGRAM_START + 2);
    assert_eq!(cpu.state.memory[0x900], 0);
    assert_eq!(cpu.state.memory[PROGRAM_START + 2], 0);
    assert_eq!(cpu.state.memory[PROGRAM_START], 0x61);
}
