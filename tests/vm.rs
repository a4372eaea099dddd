use chip8::cpu::{Chip8, Chip8Error, OpCode};
use chip8::state::PITCH;

fn execute(cpu: &mut Chip8, words: &[u16]) -> Result<(), Chip8Error> {
    for w in words {
        cpu.execute(OpCode::decode(*w))?;
    }
    Ok(())
}

fn get_pixel(cpu: &Chip8, x: u16, y: u16) -> u8 {
    let byte_offset = (y as u32) * PITCH as u32 + (x as u32) / PITCH as u32;
    let byte = cpu.state.video[byte_offset as usize];
    let bit_offset = x % 8;
    (byte & (1 << (7 - bit_offset))) >> (7 - bit_offset)
}

#[test]
fn vm_test_jp() {
    let mut cpu = Chip8::new();

    execute(&mut cpu, &[0x10FF]).unwrap();
    assert_eq!(cpu.state.pc, 0xFF);
}

#[test]
fn vm_test_ld() {
    let mut cpu = Chip8::new();

    execute(
        &mut cpu,
        &[
            0x60FF, // LD v0, FF
            0x8100, // LD v1, v0
        ],
    )
    .unwrap();

    assert_eq!(cpu.state.v[0], 0xFF);
    assert_eq!(cpu.state.v[1], 0xFF);
}

#[test]
fn vm_test_drw() {
    let mut cpu = Chip8::new();
    let i = cpu.state.i;
    cpu.state.memory[i] = 0b10000000;

    for i in 0..16 {
        execute(
            &mut cpu,
            &[
                0x6000 + i, // LD v0, i
                0x6100 + i, // LD v1, i
                0xD011,     // DRW v0, v1, 1
            ],
        )
        .unwrap();

        assert_eq!(1, get_pixel(&cpu, i, i));

        execute(&mut cpu, &[0xD011]).unwrap();

        assert_eq!(0, get_pixel(&cpu, i, i));
    }
}

#[test]
fn vm_test_drw_multiline() {
    let mut cpu = Chip8::new();
    let i = cpu.state.i;
    cpu.state.memory[i] = 0b11000000;
    cpu.state.memory[i + 1] = 0b11000000;

    for i in 0..15 {
        execute(
            &mut cpu,
            &[
                0x6000 + i, // LD v0, i
                0x6100 + i, // LD v1, i
                0xD012,     // DRW v0, v1, 2
            ],
        )
        .unwrap();

        assert_eq!(1, get_pixel(&cpu, i, i));
        assert_eq!(1, get_pixel(&cpu, i + 1, i));
        assert_eq!(1, get_pixel(&cpu, i, i + 1));
        assert_eq!(1, get_pixel(&cpu, i + 1, i + 1));

        execute(&mut cpu, &[0xD012]).unwrap();

        assert_eq!(0, get_pixel(&cpu, i, i));
        assert_eq!(0, get_pixel(&cpu, i + 1, i));
        assert_eq!(0, get_pixel(&cpu, i, i + 1));
        assert_eq!(0, get_pixel(&cpu, i + 1, i + 1));
    }
}
