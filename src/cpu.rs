use vstd::prelude::*;
use crate::machine::{can_execute, cycle, fault, is_first_pressed, restored_registers, saved_memory, step, FLAG};
pub use crate::opcode::{Chip8Error, OpCode};
use crate::state::{
    program_memory, reset_memory, reset_view, Chip8State, MachineView, MAX_PROGRAM_SIZE, MEMORY_SIZE, N_KEYS,
    N_REGISTERS, STACK_SIZE, VIDEO_SIZE,
};
use crate::video::blit;

verus! {

/// Relies on `rand::random::<u8>`: a byte from the thread-local generator.
/// Nothing is promised of its value.
#[verifier::external_body]
fn random_byte() -> (r: u8) {
    rand::random::<u8>()
}

/// The CHIP-8 engine.
pub struct Chip8 {
    pub state: Chip8State,
}

impl Chip8 {
    /// A machine after a hard reset, with no program loaded.
    pub fn new() -> (r: Chip8)
        ensures
            r.state@ == reset_view(reset_memory()),
    {
        Chip8 { state: Chip8State::new() }
    }

    /// The machine state, for reading.
    pub fn state(&self) -> (r: &Chip8State)
        ensures
            r == &self.state,
    {
        &self.state
    }

    /// Clears registers, stack, display, timers and fault, keeping memory.
    pub fn soft_reset(&mut self)
        ensures
            final(self).state@ == reset_view(old(self).state.memory@),
    {
        self.state = Chip8State::from_state(&self.state);
    }

    /// Resets everything, memory included: only the font table stays.
    pub fn hard_reset(&mut self)
        ensures
            final(self).state@ == reset_view(reset_memory()),
    {
        self.state = Chip8State::new();
    }

    /// Marks key `key` as held down.
    pub fn press_key(&mut self, key: usize)
        requires
            key < N_KEYS,
        ensures
            final(self).state@ == (MachineView { keys: old(self).state@.keys.update(key as int, true), ..old(self).state@ }),
    {
        self.state.keys[key] = true;
    }

    /// Marks key `key` as released.
    pub fn release_key(&mut self, key: usize)
        requires
            key < N_KEYS,
        ensures
            final(self).state@ == (MachineView { keys: old(self).state@.keys.update(key as int, false), ..old(self).state@ }),
    {
        self.state.keys[key] = false;
    }

    /// Loads a program image: memory is cleared, the font table installed and
    /// the image copied in at `PROGRAM_START`; registers, PC and the rest stay
    /// as they are. An image longer than `MAX_PROGRAM_SIZE` is refused and
    /// changes nothing.
    pub fn load_rom(&mut self, bytes: &[u8]) -> (r: Result<usize, Chip8Error>)
        ensures
            bytes@.len() > MAX_PROGRAM_SIZE ==> r == Err::<usize, Chip8Error>(Chip8Error::ProgramLoadError)
                && final(self).state@ == old(self).state@,
            bytes@.len() <= MAX_PROGRAM_SIZE ==> r == Ok::<usize, Chip8Error>(bytes@.len() as usize)
                && final(self).state@ == (MachineView { memory: program_memory(bytes@), ..old(self).state@ }),
    {
        if bytes.len() > MAX_PROGRAM_SIZE {
            return Err(Chip8Error::ProgramLoadError);
        }
        let image = Chip8State::from_rom(bytes);
        self.state.memory = image.memory;
        Ok(bytes.len())
    }

    /// One engine cycle: timers, fetch, advance, execute.
    pub fn execute_cycle(&mut self) -> (r: Result<(), Chip8Error>)
        requires
            old(self).state.wf(),
        ensures
            exists|rnd: u8| (final(self).state@, r) == cycle(old(self).state@, rnd),
            final(self).state.wf(),
    {
        let rnd = random_byte();
        self.cycle_with(rnd)
    }

    /// One engine cycle, with `rnd` as the byte that `RND` draws.
    pub fn cycle_with(&mut self, rnd: u8) -> (r: Result<(), Chip8Error>)
        requires
            old(self).state.wf(),
        ensures
            (final(self).state@, r) == cycle(old(self).state@, rnd),
            final(self).state.wf(),
    {
        if self.state.dt > 0 {
            self.state.dt = self.state.dt - 1;
        }
        if self.state.st > 0 {
            self.state.st = self.state.st - 1;
        }
        if self.state.pc >= MEMORY_SIZE - 1 {
            self.state.error = Some(Chip8Error::AddressOutOfRangeError);
            return Err(Chip8Error::AddressOutOfRangeError);
        }
        let instruction = self.state.fetch(self.state.pc);
        self.state.pc = self.state.pc + 2;
        self.apply(OpCode::decode(instruction), rnd)
    }

    /// Executes one decoded instruction.
    pub fn execute(&mut self, opcode: OpCode) -> (r: Result<(), Chip8Error>)
        requires
            can_execute(old(self).state@, opcode),
        ensures
            exists|rnd: u8| (final(self).state@, r) == step(old(self).state@, opcode, rnd),
            final(self).state.wf(),
    {
        let rnd = random_byte();
        self.apply(opcode, rnd)
    }

    /// Executes one decoded instruction, with `rnd` as the byte that `RND` draws.
    pub fn apply(&mut self, opcode: OpCode, rnd: u8) -> (r: Result<(), Chip8Error>)
        requires
            can_execute(old(self).state@, opcode),
        ensures
            (final(self).state@, r) == step(old(self).state@, opcode, rnd),
            final(self).state.wf(),
    {
        match opcode {
            OpCode::ClearScreen => self.clear_screen(),
            OpCode::Jump { address } => self.jump(address),
            OpCode::Call { address } => return self.call(address),
            OpCode::Return => return self.return_(),
            OpCode::SkipByteEqual { x, byte } => self.skip_byte_equal(x, byte),
            OpCode::SkipByteNotEqual { x, byte } => self.skip_byte_not_equal(x, byte),
            OpCode::SkipEqual { x, y } => self.skip_equal(x, y),
            OpCode::LoadByte { x, byte } => self.load_byte(x, byte),
            OpCode::AddByte { x, byte } => self.add_byte(x, byte),
            OpCode::Load { x, y } => self.load(x, y),
            OpCode::Or { x, y } => self.or(x, y),
            OpCode::And { x, y } => self.and(x, y),
            OpCode::Xor { x, y } => self.xor(x, y),
            OpCode::Add { x, y } => self.add(x, y),
            OpCode::Sub { x, y } => self.sub(x, y),
            OpCode::ShiftRight { x } => self.shift_right(x),
            OpCode::SubReverse { x, y } => self.sub_reverse(x, y),
            OpCode::ShiftLeft { x } => self.shift_left(x),
            OpCode::SkipNotEqual { x, y } => self.skip_not_equal(x, y),
            OpCode::LoadAddress { address } => self.load_address(address),
            OpCode::JumpOffset { address } => self.jump_offset(address),
            OpCode::Random { x, byte } => self.random(x, byte, rnd),
            OpCode::Draw { x, y, n } => return self.draw(x, y, n),
            OpCode::SkipKeyPressed { x } => self.skip_key_pressed(x),
            OpCode::SkipNotPressed { x } => self.skip_not_pressed(x),
            OpCode::LoadFromDelayTimer { x } => self.ld_v_dt(x),
            OpCode::WaitKey { x } => self.ld_key(x),
            OpCode::LoadDelayTimer { x } => self.ld_dt_v(x),
            OpCode::LoadSoundTimer { x } => self.ld_st_v(x),
            OpCode::AddAddress { x } => self.add_address(x),
            OpCode::LoadFont { x } => self.load_font(x),
            OpCode::BCD { x } => return self.bcd(x),
            OpCode::Save { x } => return self.save(x),
            OpCode::Restore { x } => return self.restore(x),
            OpCode::Unknown { .. } => {
                self.state.error = Some(Chip8Error::UnknownInstructionError);
                return Err(Chip8Error::UnknownInstructionError);
            },
        }
        Ok(())
    }

    /// Records a fault and reports it.
    fn fail(&mut self, e: Chip8Error) -> (r: Result<(), Chip8Error>)
        ensures
            (final(self).state@, r) == fault(old(self).state@, e),
    {
        self.state.error = Some(e);
        Err(e)
    }

    fn clear_screen(&mut self)
        ensures
            final(self).state@ == step(old(self).state@, OpCode::ClearScreen, 0).0,
    {
        self.state.video = [0u8; VIDEO_SIZE];
        assert(self.state.video@ =~= step(old(self).state@, OpCode::ClearScreen, 0).0.video);
    }

    fn return_(&mut self) -> (r: Result<(), Chip8Error>)
        requires
            old(self).state.wf(),
        ensures
            (final(self).state@, r) == step(old(self).state@, OpCode::Return, 0),
    {
        if self.state.sp > 0 {
            self.state.sp = self.state.sp - 1;
            self.state.pc = self.state.stack[self.state.sp];
            Ok(())
        } else {
            self.fail(Chip8Error::StackUnderflowError)
        }
    }

    fn jump(&mut self, address: usize)
        ensures
            final(self).state@ == step(old(self).state@, OpCode::Jump { address }, 0).0,
    {
        self.state.pc = address;
    }

    fn jump_offset(&mut self, address: usize)
        requires
            address < 0x1000,
        ensures
            final(self).state@ == step(old(self).state@, OpCode::JumpOffset { address }, 0).0,
    {
        self.state.pc = self.state.v[0] as usize + address;
    }

    fn call(&mut self, address: usize) -> (r: Result<(), Chip8Error>)
        requires
            old(self).state.wf(),
        ensures
            (final(self).state@, r) == step(old(self).state@, OpCode::Call { address }, 0),
    {
        if address >= MAX_PROGRAM_SIZE {
            self.fail(Chip8Error::AddressOutOfRangeError)
        } else if self.state.sp >= STACK_SIZE {
            self.fail(Chip8Error::StackOverflowError)
        } else {
            self.state.stack[self.state.sp] = self.state.pc;
            self.state.sp = self.state.sp + 1;
            self.state.pc = address;
            Ok(())
        }
    }

    fn skip_byte_equal(&mut self, x: usize, byte: u8)
        requires
            can_execute(old(self).state@, OpCode::SkipByteEqual { x, byte }),
        ensures
            final(self).state@ == step(old(self).state@, OpCode::SkipByteEqual { x, byte }, 0).0,
    {
        if self.state.v[x] == byte {
            self.state.pc = self.state.pc + 2;
        }
    }

    fn skip_equal(&mut self, x: usize, y: usize)
        requires
            can_execute(old(self).state@, OpCode::SkipEqual { x, y }),
        ensures
            final(self).state@ == step(old(self).state@, OpCode::SkipEqual { x, y }, 0).0,
    {
        if self.state.v[x] == self.state.v[y] {
            self.state.pc = self.state.pc + 2;
        }
    }

    fn skip_byte_not_equal(&mut self, x: usize, byte: u8)
        requires
            can_execute(old(self).state@, OpCode::SkipByteNotEqual { x, byte }),
        ensures
            final(self).state@ == step(old(self).state@, OpCode::SkipByteNotEqual { x, byte }, 0).0,
    {
        if self.state.v[x] != byte {
            self.state.pc = self.state.pc + 2;
        }
    }

    fn skip_not_equal(&mut self, x: usize, y: usize)
        requires
            can_execute(old(self).state@, OpCode::SkipNotEqual { x, y }),
        ensures
            final(self).state@ == step(old(self).state@, OpCode::SkipNotEqual { x, y }, 0).0,
    {
        if self.state.v[x] != self.state.v[y] {
            self.state.pc = self.state.pc + 2;
        }
    }

    fn load_byte(&mut self, x: usize, byte: u8)
        requires
            x < N_REGISTERS,
        ensures
            final(self).state@ == step(old(self).state@, OpCode::LoadByte { x, byte }, 0).0,
    {
        self.state.v[x] = byte;
    }

    fn load(&mut self, x: usize, y: usize)
        requires
            x < N_REGISTERS,
            y < N_REGISTERS,
        ensures
            final(self).state@ == step(old(self).state@, OpCode::Load { x, y }, 0).0,
    {
        self.state.v[x] = self.state.v[y];
    }

    fn load_address(&mut self, address: usize)
        ensures
            final(self).state@ == step(old(self).state@, OpCode::LoadAddress { address }, 0).0,
    {
        self.state.i = address;
    }

    fn add_byte(&mut self, x: usize, byte: u8)
        requires
            x < N_REGISTERS,
        ensures
            final(self).state@ == step(old(self).state@, OpCode::AddByte { x, byte }, 0).0,
    {
        self.state.v[x] = self.state.v[x].wrapping_add(byte);
    }

    fn add(&mut self, x: usize, y: usize)
        requires
            x < N_REGISTERS,
            y < N_REGISTERS,
        ensures
            final(self).state@ == step(old(self).state@, OpCode::Add { x, y }, 0).0,
    {
        let sum = self.state.v[x] as u16 + self.state.v[y] as u16;
        self.state.v[FLAG] = if sum > 0xFF { 1 } else { 0 };
        self.state.v[x] = (sum % 256) as u8;
    }

    fn or(&mut self, x: usize, y: usize)
        requires
            x < N_REGISTERS,
            y < N_REGISTERS,
        ensures
            final(self).state@ == step(old(self).state@, OpCode::Or { x, y }, 0).0,
    {
        self.state.v[x] = self.state.v[x] | self.state.v[y];
    }

    fn and(&mut self, x: usize, y: usize)
        requires
            x < N_REGISTERS,
            y < N_REGISTERS,
        ensures
            final(self).state@ == step(old(self).state@, OpCode::And { x, y }, 0).0,
    {
        self.state.v[x] = self.state.v[x] & self.state.v[y];
    }

    fn xor(&mut self, x: usize, y: usize)
        requires
            x < N_REGISTERS,
            y < N_REGISTERS,
        ensures
            final(self).state@ == step(old(self).state@, OpCode::Xor { x, y }, 0).0,
    {
        self.state.v[x] = self.state.v[x] ^ self.state.v[y];
    }

    fn sub(&mut self, x: usize, y: usize)
        requires
            x < N_REGISTERS,
            y < N_REGISTERS,
        ensures
            final(self).state@ == step(old(self).state@, OpCode::Sub { x, y }, 0).0,
    {
        if self.state.v[x] > self.state.v[y] {
            self.state.v[FLAG] = 1;
        } else {
            self.state.v[FLAG] = 0;
        }
        self.state.v[x] = self.state.v[x].wrapping_sub(self.state.v[y]);
    }

    fn shift_right(&mut self, x: usize)
        requires
            x < N_REGISTERS,
        ensures
            final(self).state@ == step(old(self).state@, OpCode::ShiftRight { x }, 0).0,
    {
        let b = self.state.v[x];
        self.state.v[FLAG] = b % 2;
        self.state.v[x] = b / 2;
    }

    fn shift_left(&mut self, x: usize)
        requires
            x < N_REGISTERS,
        ensures
            final(self).state@ == step(old(self).state@, OpCode::ShiftLeft { x }, 0).0,
    {
        let b = self.state.v[x];
        self.state.v[FLAG] = b / 128;
        self.state.v[x] = ((b as u16 * 2) % 256) as u8;
    }

    fn sub_reverse(&mut self, x: usize, y: usize)
        requires
            x < N_REGISTERS,
            y < N_REGISTERS,
        ensures
            final(self).state@ == step(old(self).state@, OpCode::SubReverse { x, y }, 0).0,
    {
        if self.state.v[y] > self.state.v[x] {
            self.state.v[FLAG] = 1;
        } else {
            self.state.v[FLAG] = 0;
        }
        self.state.v[x] = self.state.v[y].wrapping_sub(self.state.v[x]);
    }

    fn random(&mut self, x: usize, byte: u8, rnd: u8)
        requires
            x < N_REGISTERS,
        ensures
            final(self).state@ == step(old(self).state@, OpCode::Random { x, byte }, rnd).0,
    {
        self.state.v[x] = rnd & byte;
    }

    fn ld_dt_v(&mut self, x: usize)
        requires
            x < N_REGISTERS,
        ensures
            final(self).state@ == step(old(self).state@, OpCode::LoadDelayTimer { x }, 0).0,
    {
        self.state.dt = self.state.v[x];
    }

    fn ld_v_dt(&mut self, x: usize)
        requires
            x < N_REGISTERS,
        ensures
            final(self).state@ == step(old(self).state@, OpCode::LoadFromDelayTimer { x }, 0).0,
    {
        self.state.v[x] = self.state.dt;
    }

    fn ld_key(&mut self, x: usize)
        requires
            can_execute(old(self).state@, OpCode::WaitKey { x }),
        ensures
            final(self).state@ == step(old(self).state@, OpCode::WaitKey { x }, 0).0,
    {
        let mut k: usize = 0;
        while k < N_KEYS
            invariant
                k <= N_KEYS,
                can_execute(old(self).state@, OpCode::WaitKey { x }),
                self.state@ == old(self).state@,
                forall|j: int| 0 <= j < k ==> !self.state.keys@[j],
            decreases N_KEYS - k,
        {
            if self.state.keys[k] {
                assert(is_first_pressed(self.state.keys@, k as int));
                assert forall|j: int| is_first_pressed(self.state.keys@, j) implies j == k by {
                    if j < k {
                    } else if j > k {
                        assert(!self.state.keys@[k as int]);
                    }
                }
                self.state.v[x] = k as u8;
                return;
            }
            k = k + 1;
        }
        self.state.pc = self.state.pc - 2;
    }

    fn ld_st_v(&mut self, x: usize)
        requires
            x < N_REGISTERS,
        ensures
            final(self).state@ == step(old(self).state@, OpCode::LoadSoundTimer { x }, 0).0,
    {
        self.state.st = self.state.v[x];
    }

    fn skip_key_pressed(&mut self, x: usize)
        requires
            can_execute(old(self).state@, OpCode::SkipKeyPressed { x }),
        ensures
            final(self).state@ == step(old(self).state@, OpCode::SkipKeyPressed { x }, 0).0,
    {
        if self.state.keys[x] {
            self.state.pc = self.state.pc + 2;
        }
    }

    fn skip_not_pressed(&mut self, x: usize)
        requires
            can_execute(old(self).state@, OpCode::SkipNotPressed { x }),
        ensures
            final(self).state@ == step(old(self).state@, OpCode::SkipNotPressed { x }, 0).0,
    {
        if !self.state.keys[x] {
            self.state.pc = self.state.pc + 2;
        }
    }

    fn draw(&mut self, x: usize, y: usize, n: u8) -> (r: Result<(), Chip8Error>)
        requires
            can_execute(old(self).state@, OpCode::Draw { x, y, n }),
        ensures
            (final(self).state@, r) == step(old(self).state@, OpCode::Draw { x, y, n }, 0),
    {
        if self.state.i > MEMORY_SIZE - n as usize {
            return self.fail(Chip8Error::AddressOutOfRangeError);
        }
        let vx = self.state.v[x];
        let vy = self.state.v[y];
        let hit = blit(&mut self.state.video, &self.state.memory, self.state.i, n, vx, vy);
        self.state.v[FLAG] = if hit { 1 } else { 0 };
        Ok(())
    }

    fn add_address(&mut self, x: usize)
        requires
            x < N_REGISTERS,
        ensures
            final(self).state@ == step(old(self).state@, OpCode::AddAddress { x }, 0).0,
    {
        self.state.i = self.state.i.wrapping_add(self.state.v[x] as usize);
    }

    fn load_font(&mut self, x: usize)
        requires
            x < N_REGISTERS,
        ensures
            final(self).state@ == step(old(self).state@, OpCode::LoadFont { x }, 0).0,
    {
        self.state.i = (self.state.v[x] % 16) as usize * 5;
    }

    fn bcd(&mut self, x: usize) -> (r: Result<(), Chip8Error>)
        requires
            can_execute(old(self).state@, OpCode::BCD { x }),
        ensures
            (final(self).state@, r) == step(old(self).state@, OpCode::BCD { x }, 0),
    {
        if self.state.i > MEMORY_SIZE - 3 {
            return self.fail(Chip8Error::AddressOutOfRangeError);
        }
        let value = self.state.v[x];
        let at = self.state.i;
        self.state.memory[at] = value / 100;
        self.state.memory[at + 1] = (value / 10) % 10;
        self.state.memory[at + 2] = value % 10;
        Ok(())
    }

    fn save(&mut self, x: usize) -> (r: Result<(), Chip8Error>)
        requires
            can_execute(old(self).state@, OpCode::Save { x }),
        ensures
            (final(self).state@, r) == step(old(self).state@, OpCode::Save { x }, 0),
    {
        if self.state.i > MEMORY_SIZE - 1 - x {
            return self.fail(Chip8Error::AddressOutOfRangeError);
        }
        let at = self.state.i;
        let ghost m = self.state@;
        let mut k: usize = 0;
        while k <= x
            invariant
                x < N_REGISTERS,
                at == m.i,
                at + x + 1 <= MEMORY_SIZE,
                k <= x + 1,
                self.state@ == (MachineView { memory: self.state@.memory, ..m }),
                self.state.memory@.len() == MEMORY_SIZE,
                forall|j: int| 0 <= j < MEMORY_SIZE ==> #[trigger] self.state.memory@[j] == if at <= j < at + k {
                    m.v[j - at]
                } else {
                    m.memory[j]
                },
            decreases x + 1 - k,
        {
            self.state.memory[at + k] = self.state.v[k];
            k = k + 1;
        }
        assert(self.state.memory@ =~= saved_memory(m.memory, m.v, at as int, x as int));
        Ok(())
    }

    fn restore(&mut self, x: usize) -> (r: Result<(), Chip8Error>)
        requires
            can_execute(old(self).state@, OpCode::Restore { x }),
        ensures
            (final(self).state@, r) == step(old(self).state@, OpCode::Restore { x }, 0),
    {
        if self.state.i > MEMORY_SIZE - 1 - x {
            return self.fail(Chip8Error::AddressOutOfRangeError);
        }
        let at = self.state.i;
        let ghost m = self.state@;
        let mut k: usize = 0;
        while k <= x
            invariant
                x < N_REGISTERS,
                at == m.i,
                at + x + 1 <= MEMORY_SIZE,
                k <= x + 1,
                self.state@ == (MachineView { v: self.state@.v, ..m }),
                self.state.v@.len() == N_REGISTERS,
                forall|j: int| 0 <= j < N_REGISTERS ==> #[trigger] self.state.v@[j] == if j < k {
                    m.memory[at + j]
                } else {
                    m.v[j]
                },
            decreases x + 1 - k,
        {
            self.state.v[k] = self.state.memory[at + k];
            k = k + 1;
        }
        assert(self.state.v@ =~= restored_registers(m.v, m.memory, at as int, x as int));
        Ok(())
    }
}

} // verus!
