use vstd::prelude::*;
use crate::opcode::Chip8Error;
use crate::rom::{font, font_glyphs, FONT_SIZE};

verus! {

/// First address of a loaded program.
pub const PROGRAM_START: usize = 512;

/// Bytes of addressable memory.
pub const MEMORY_SIZE: usize = 4096;

/// Bytes of the packed 64 by 32 monochrome display.
pub const VIDEO_SIZE: usize = 256;

/// Largest program image that fits above the reserved low region.
pub const MAX_PROGRAM_SIZE: usize = 3584;

/// Depth of the return-address stack.
pub const STACK_SIZE: usize = 16;

/// Number of general registers `V0` to `VF`.
pub const N_REGISTERS: usize = 16;

/// Number of keypad keys.
pub const N_KEYS: usize = 16;

/// Bytes per display row.
pub const PITCH: usize = 8;

/// The whole machine state: memory, registers, stack, keypad, display, timers
/// and the last fault.
pub struct Chip8State {
    pub video: [u8; VIDEO_SIZE],
    pub memory: [u8; MEMORY_SIZE],
    pub v: [u8; N_REGISTERS],
    pub stack: [usize; STACK_SIZE],
    pub keys: [bool; N_KEYS],
    pub pc: usize,
    pub sp: usize,
    pub i: usize,
    pub dt: u8,
    pub st: u8,
    pub error: Option<Chip8Error>,
}

/// The machine state as mathematical values.
pub ghost struct MachineView {
    pub video: Seq<u8>,
    pub memory: Seq<u8>,
    pub v: Seq<u8>,
    pub stack: Seq<usize>,
    pub keys: Seq<bool>,
    pub pc: usize,
    pub sp: usize,
    pub i: usize,
    pub dt: u8,
    pub st: u8,
    pub error: Option<Chip8Error>,
}

impl MachineView {
    /// Sizes of the fixed areas, and a stack pointer within the stack.
    pub open spec fn wf(self) -> bool {
        &&& self.video.len() == VIDEO_SIZE
        &&& self.memory.len() == MEMORY_SIZE
        &&& self.v.len() == N_REGISTERS
        &&& self.stack.len() == STACK_SIZE
        &&& self.keys.len() == N_KEYS
        &&& self.sp <= STACK_SIZE
    }
}

impl View for Chip8State {
    type V = MachineView;

    open spec fn view(&self) -> MachineView {
        MachineView {
            video: self.video@,
            memory: self.memory@,
            v: self.v@,
            stack: self.stack@,
            keys: self.keys@,
            pc: self.pc,
            sp: self.sp,
            i: self.i,
            dt: self.dt,
            st: self.st,
            error: self.error,
        }
    }
}

/// Memory after a reset: the font table at address 0, zeros elsewhere.
pub open spec fn reset_memory() -> Seq<u8> {
    Seq::new(MEMORY_SIZE as nat, |j: int| if j < FONT_SIZE { font_glyphs()[j] } else { 0u8 })
}

/// Memory after a reset with a program image copied in at `PROGRAM_START`.
pub open spec fn program_memory(image: Seq<u8>) -> Seq<u8> {
    Seq::new(
        MEMORY_SIZE as nat,
        |j: int|
            if j < FONT_SIZE {
                font_glyphs()[j]
            } else if PROGRAM_START <= j < PROGRAM_START + image.len() {
                image[j - PROGRAM_START]
            } else {
                0u8
            },
    )
}

/// A machine freshly reset around the given memory: registers, stack, keys and
/// display cleared, timers stopped, no fault, PC and I at `PROGRAM_START`.
pub open spec fn reset_view(memory: Seq<u8>) -> MachineView {
    MachineView {
        video: Seq::new(VIDEO_SIZE as nat, |j: int| 0u8),
        memory,
        v: Seq::new(N_REGISTERS as nat, |j: int| 0u8),
        stack: Seq::new(STACK_SIZE as nat, |j: int| 0usize),
        keys: Seq::new(N_KEYS as nat, |j: int| false),
        pc: PROGRAM_START,
        sp: 0,
        i: PROGRAM_START,
        dt: 0,
        st: 0,
        error: None,
    }
}

/// The big-endian instruction word at `address`.
pub open spec fn word_at(memory: Seq<u8>, address: int) -> u16 {
    (memory[address] as u16 * 256 + memory[address + 1] as u16) as u16
}

impl Chip8State {
    pub open spec fn wf(&self) -> bool {
        self@.wf()
    }

    /// A reset machine whose memory holds only the font table.
    pub fn new() -> (r: Chip8State)
        ensures
            r@ == reset_view(reset_memory()),
            r.wf(),
    {
        let glyphs = font();
        let mut memory = [0u8; MEMORY_SIZE];
        let mut k: usize = 0;
        while k < FONT_SIZE
            invariant
                k <= FONT_SIZE,
                glyphs@ == font_glyphs(),
                forall|j: int| 0 <= j < k ==> memory@[j] == font_glyphs()[j],
                forall|j: int| k <= j < MEMORY_SIZE ==> memory@[j] == 0,
            decreases FONT_SIZE - k,
        {
            memory[k] = glyphs[k];
            k = k + 1;
        }
        let r = Chip8State {
            video: [0u8; VIDEO_SIZE],
            memory,
            v: [0u8; N_REGISTERS],
            stack: [0usize; STACK_SIZE],
            keys: [false; N_KEYS],
            pc: PROGRAM_START,
            sp: 0,
            i: PROGRAM_START,
            dt: 0,
            st: 0,
            error: None,
        };
        assert(r.memory@ =~= reset_memory());
        assert(r.video@ =~= reset_view(reset_memory()).video);
        assert(r.v@ =~= reset_view(reset_memory()).v);
        assert(r.stack@ =~= reset_view(reset_memory()).stack);
        assert(r.keys@ =~= reset_view(reset_memory()).keys);
        r
    }

    /// A reset machine with a program image copied in at `PROGRAM_START`.
    pub fn from_rom(bytes: &[u8]) -> (r: Chip8State)
        requires
            bytes@.len() <= MAX_PROGRAM_SIZE,
        ensures
            r@ == reset_view(program_memory(bytes@)),
            r.wf(),
    {
        let mut state = Chip8State::new();
        let mut k: usize = 0;
        while k < bytes.len()
            invariant
                k <= bytes@.len() <= MAX_PROGRAM_SIZE,
                state@ == (MachineView { memory: state@.memory, ..reset_view(reset_memory()) }),
                state.memory@.len() == MEMORY_SIZE,
                forall|j: int| 0 <= j < PROGRAM_START + k ==> state.memory@[j] == program_memory(bytes@)[j],
                forall|j: int| PROGRAM_START + k <= j < MEMORY_SIZE ==> state.memory@[j] == 0,
            decreases bytes@.len() - k,
        {
            state.memory[PROGRAM_START + k] = bytes[k];
            k = k + 1;
        }
        assert(state.memory@ =~= program_memory(bytes@));
        state
    }

    /// A reset machine that keeps the memory of `other`.
    pub fn from_state(other: &Chip8State) -> (r: Chip8State)
        ensures
            r@ == reset_view(other.memory@),
            r.wf(),
    {
        let mut state = Chip8State::new();
        state.memory = other.memory;
        state
    }

    /// The display bytes.
    pub fn video(&self) -> (r: &[u8])
        ensures
            r@ == self.video@,
    {
        self.video.as_slice()
    }

    /// The memory bytes.
    pub fn memory(&self) -> (r: &[u8])
        ensures
            r@ == self.memory@,
    {
        self.memory.as_slice()
    }

    /// The registers `V0` to `VF`.
    pub fn registers(&self) -> (r: &[u8])
        ensures
            r@ == self.v@,
    {
        self.v.as_slice()
    }

    /// The return-address stack.
    pub fn stack(&self) -> (r: &[usize])
        ensures
            r@ == self.stack@,
    {
        self.stack.as_slice()
    }

    /// The index register.
    pub fn i(&self) -> (r: usize)
        ensures
            r == self.i,
    {
        self.i
    }

    /// The stack pointer.
    pub fn sp(&self) -> (r: usize)
        ensures
            r == self.sp,
    {
        self.sp
    }

    /// The delay timer.
    pub fn dt(&self) -> (r: u8)
        ensures
            r == self.dt,
    {
        self.dt
    }

    /// The sound timer.
    pub fn st(&self) -> (r: u8)
        ensures
            r == self.st,
    {
        self.st
    }

    /// The program counter.
    pub fn pc(&self) -> (r: usize)
        ensures
            r == self.pc,
    {
        self.pc
    }

    /// The big-endian word at `address`.
    pub fn fetch(&self, address: usize) -> (r: u16)
        requires
            address + 1 < MEMORY_SIZE,
        ensures
            r == word_at(self.memory@, address as int),
    {
        (self.memory[address] as u16) * 256 + (self.memory[address + 1] as u16)
    }
}

} // verus!
