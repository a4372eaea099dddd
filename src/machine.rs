use vstd::prelude::*;
use crate::opcode::{decode_spec, Chip8Error, OpCode};
use crate::state::{word_at, MachineView, MAX_PROGRAM_SIZE, MEMORY_SIZE, STACK_SIZE, VIDEO_SIZE};
use crate::video::{collides, drawn};

verus! {

/// Index of the flag register `VF`.
pub const FLAG: usize = 15;

/// A step that completes without a fault.
pub open spec fn done(m: MachineView) -> (MachineView, Result<(), Chip8Error>) {
    (m, Ok(()))
}

/// A step that records `e` as the last fault and reports it; nothing else changes.
pub open spec fn fault(m: MachineView, e: Chip8Error) -> (MachineView, Result<(), Chip8Error>) {
    (MachineView { error: Some(e), ..m }, Err(e))
}

/// Register `x` set to `b`.
pub open spec fn set_reg(m: MachineView, x: int, b: u8) -> MachineView {
    MachineView { v: m.v.update(x, b), ..m }
}

/// The next instruction skipped when `c` holds.
pub open spec fn skip_if(m: MachineView, c: bool) -> MachineView {
    if c {
        MachineView { pc: (m.pc + 2) as usize, ..m }
    } else {
        m
    }
}

/// `k` is the lowest key that is held down.
pub open spec fn is_first_pressed(keys: Seq<bool>, k: int) -> bool {
    &&& 0 <= k < keys.len()
    &&& keys[k]
    &&& forall|j: int| 0 <= j < k ==> !keys[j]
}

/// Some key is held down.
pub open spec fn any_pressed(keys: Seq<bool>) -> bool {
    exists|k: int| is_first_pressed(keys, k)
}

/// The lowest key that is held down, where one is.
pub open spec fn first_pressed(keys: Seq<bool>) -> int {
    choose|k: int| is_first_pressed(keys, k)
}

/// The three decimal digits of `b`, hundreds first.
pub open spec fn bcd_memory(memory: Seq<u8>, at: int, b: u8) -> Seq<u8> {
    memory.update(at, b / 100).update(at + 1, (b / 10) % 10).update(at + 2, b % 10)
}

/// `V0` to `Vx` copied to memory from address `at`.
pub open spec fn saved_memory(memory: Seq<u8>, v: Seq<u8>, at: int, x: int) -> Seq<u8> {
    Seq::new(memory.len(), |j: int| if at <= j <= at + x { v[j - at] } else { memory[j] })
}

/// `V0` to `Vx` loaded from memory at address `at`.
pub open spec fn restored_registers(v: Seq<u8>, memory: Seq<u8>, at: int, x: int) -> Seq<u8> {
    Seq::new(v.len(), |j: int| if j <= x { memory[at + j] } else { v[j] })
}

/// What one instruction does to the machine, and what it reports; `rnd` is
/// the random byte that `RND` uses.
pub open spec fn step(m: MachineView, op: OpCode, rnd: u8) -> (MachineView, Result<(), Chip8Error>) {
    match op {
        OpCode::ClearScreen => done(MachineView { video: Seq::new(VIDEO_SIZE as nat, |j: int| 0u8), ..m }),
        OpCode::Return => if m.sp == 0 {
            fault(m, Chip8Error::StackUnderflowError)
        } else {
            done(MachineView { sp: (m.sp - 1) as usize, pc: m.stack[m.sp - 1], ..m })
        },
        OpCode::Jump { address } => done(MachineView { pc: address, ..m }),
        OpCode::Call { address } => if address >= MAX_PROGRAM_SIZE {
            fault(m, Chip8Error::AddressOutOfRangeError)
        } else if m.sp >= STACK_SIZE {
            fault(m, Chip8Error::StackOverflowError)
        } else {
            done(MachineView { stack: m.stack.update(m.sp as int, m.pc), sp: (m.sp + 1) as usize, pc: address, ..m })
        },
        OpCode::SkipByteEqual { x, byte } => done(skip_if(m, m.v[x as int] == byte)),
        OpCode::SkipByteNotEqual { x, byte } => done(skip_if(m, m.v[x as int] != byte)),
        OpCode::SkipEqual { x, y } => done(skip_if(m, m.v[x as int] == m.v[y as int])),
        OpCode::SkipNotEqual { x, y } => done(skip_if(m, m.v[x as int] != m.v[y as int])),
        OpCode::LoadByte { x, byte } => done(set_reg(m, x as int, byte)),
        OpCode::AddByte { x, byte } => done(set_reg(m, x as int, ((m.v[x as int] + byte) % 256) as u8)),
        OpCode::Load { x, y } => done(set_reg(m, x as int, m.v[y as int])),
        OpCode::Or { x, y } => done(set_reg(m, x as int, m.v[x as int] | m.v[y as int])),
        OpCode::And { x, y } => done(set_reg(m, x as int, m.v[x as int] & m.v[y as int])),
        OpCode::Xor { x, y } => done(set_reg(m, x as int, m.v[x as int] ^ m.v[y as int])),
        OpCode::Add { x, y } => {
            let sum = m.v[x as int] + m.v[y as int];
            let f = set_reg(m, FLAG as int, if sum > 255 { 1 } else { 0 });
            done(set_reg(f, x as int, (sum % 256) as u8))
        },
        OpCode::Sub { x, y } => {
            let f = set_reg(m, FLAG as int, if m.v[x as int] > m.v[y as int] { 1 } else { 0 });
            done(set_reg(f, x as int, ((f.v[x as int] - f.v[y as int]) % 256) as u8))
        },
        OpCode::ShiftRight { x } => {
            let b = m.v[x as int];
            done(set_reg(set_reg(m, FLAG as int, b % 2), x as int, b / 2))
        },
        OpCode::SubReverse { x, y } => {
            let f = set_reg(m, FLAG as int, if m.v[y as int] > m.v[x as int] { 1 } else { 0 });
            done(set_reg(f, x as int, ((f.v[y as int] - f.v[x as int]) % 256) as u8))
        },
        OpCode::ShiftLeft { x } => {
            let b = m.v[x as int];
            done(set_reg(set_reg(m, FLAG as int, b / 128), x as int, ((b * 2) % 256) as u8))
        },
        OpCode::LoadAddress { address } => done(MachineView { i: address, ..m }),
        OpCode::JumpOffset { address } => done(MachineView { pc: (m.v[0] + address) as usize, ..m }),
        OpCode::Random { x, byte } => done(set_reg(m, x as int, rnd & byte)),
        OpCode::Draw { x, y, n } => if m.i + n > MEMORY_SIZE {
            fault(m, Chip8Error::AddressOutOfRangeError)
        } else {
            let sprite = m.memory.subrange(m.i as int, m.i + n);
            let vx = m.v[x as int];
            let vy = m.v[y as int];
            let hit = collides(m.video, sprite, vx, vy);
            done(MachineView {
                video: drawn(m.video, sprite, vx, vy),
                v: m.v.update(FLAG as int, if hit { 1 } else { 0 }),
                ..m
            })
        },
        OpCode::SkipKeyPressed { x } => done(skip_if(m, m.keys[x as int])),
        OpCode::SkipNotPressed { x } => done(skip_if(m, !m.keys[x as int])),
        OpCode::LoadFromDelayTimer { x } => done(set_reg(m, x as int, m.dt)),
        OpCode::WaitKey { x } => if any_pressed(m.keys) {
            done(set_reg(m, x as int, first_pressed(m.keys) as u8))
        } else {
            done(MachineView { pc: (m.pc - 2) as usize, ..m })
        },
        OpCode::LoadDelayTimer { x } => done(MachineView { dt: m.v[x as int], ..m }),
        OpCode::LoadSoundTimer { x } => done(MachineView { st: m.v[x as int], ..m }),
        OpCode::AddAddress { x } => {
            let sum = m.i + m.v[x as int];
            done(MachineView { i: (if sum > usize::MAX { sum - usize::MAX - 1 } else { sum }) as usize, ..m })
        },
        OpCode::LoadFont { x } => done(MachineView { i: ((m.v[x as int] % 16) * 5) as usize, ..m }),
        OpCode::BCD { x } => if m.i + 3 > MEMORY_SIZE {
            fault(m, Chip8Error::AddressOutOfRangeError)
        } else {
            done(MachineView { memory: bcd_memory(m.memory, m.i as int, m.v[x as int]), ..m })
        },
        OpCode::Save { x } => if m.i + x + 1 > MEMORY_SIZE {
            fault(m, Chip8Error::AddressOutOfRangeError)
        } else {
            done(MachineView { memory: saved_memory(m.memory, m.v, m.i as int, x as int), ..m })
        },
        OpCode::Restore { x } => if m.i + x + 1 > MEMORY_SIZE {
            fault(m, Chip8Error::AddressOutOfRangeError)
        } else {
            done(MachineView { v: restored_registers(m.v, m.memory, m.i as int, x as int), ..m })
        },
        OpCode::Unknown { .. } => fault(m, Chip8Error::UnknownInstructionError),
    }
}

/// Both timers counted down by one tick, stopping at zero.
pub open spec fn tick(m: MachineView) -> MachineView {
    MachineView {
        dt: if m.dt > 0 { (m.dt - 1) as u8 } else { 0 },
        st: if m.st > 0 { (m.st - 1) as u8 } else { 0 },
        ..m
    }
}

/// One engine cycle: tick the timers, fetch the word at PC (a PC without two
/// bytes of memory behind it is a fault), advance PC by two, then execute.
pub open spec fn cycle(m: MachineView, rnd: u8) -> (MachineView, Result<(), Chip8Error>) {
    let t = tick(m);
    if t.pc + 1 >= MEMORY_SIZE {
        fault(t, Chip8Error::AddressOutOfRangeError)
    } else {
        step(MachineView { pc: (t.pc + 2) as usize, ..t }, decode_spec(word_at(t.memory, t.pc as int)), rnd)
    }
}

/// An instruction can run on this machine: the state and the operands are in
/// range, PC can advance once more, and `LD Vx, K` can rewind PC.
pub open spec fn can_execute(m: MachineView, op: OpCode) -> bool {
    &&& m.wf()
    &&& op.wf()
    &&& m.pc + 2 <= usize::MAX
    &&& (op is WaitKey ==> m.pc >= 2)
}

} // verus!
