use vstd::prelude::*;
use crate::machine::{any_pressed, cycle, first_pressed, is_first_pressed, step, tick, FLAG};
use crate::opcode::{decode_spec, Chip8Error, OpCode};
use crate::state::{word_at, MachineView, MAX_PROGRAM_SIZE, MEMORY_SIZE, STACK_SIZE};
use crate::video::lemma_draw_twice_restores;

verus! {

proof fn lemma_wrap_twice(a: u8, b: u8)
    ensures
        ((((a + b) % 256) as u8) + b) % 256 == (a + (((2 * b) % 256) as u8)) % 256,
{
    assert(((((a + b) % 256) as u8) + b) % 256 == (a + (((2 * b) % 256) as u8)) % 256) by (nonlinear_arith)
        requires 0 <= a < 256, 0 <= b < 256;
}

/// `ADD Vx, b` done twice has the effect of one `ADD Vx, (2b mod 256)`.
pub proof fn lemma_add_byte_twice(m: MachineView, x: usize, b: u8, r1: u8, r2: u8)
    requires
        m.wf(),
        x < 16,
    ensures
        step(step(m, OpCode::AddByte { x, byte: b }, r1).0, OpCode::AddByte { x, byte: b }, r2)
            == step(m, OpCode::AddByte { x, byte: ((2 * b) % 256) as u8 }, r1),
{
    lemma_wrap_twice(m.v[x as int], b);
    let once = step(m, OpCode::AddByte { x, byte: b }, r1).0;
    let twice = step(once, OpCode::AddByte { x, byte: b }, r2).0;
    let direct = step(m, OpCode::AddByte { x, byte: ((2 * b) % 256) as u8 }, r1).0;
    assert(twice.v =~= direct.v);
}

/// Drawing the same sprite at the same place twice leaves the display as it
/// was, as long as neither coordinate register is `VF`, which the first draw
/// overwrites with the collision flag.
pub proof fn lemma_draw_twice(m: MachineView, x: usize, y: usize, n: u8, r1: u8, r2: u8)
    requires
        m.wf(),
        x < 15,
        y < 15,
        n < 16,
    ensures
        step(step(m, OpCode::Draw { x, y, n }, r1).0, OpCode::Draw { x, y, n }, r2).0.video == m.video,
{
    if m.i + n <= MEMORY_SIZE {
        let sprite = m.memory.subrange(m.i as int, m.i + n);
        lemma_draw_twice_restores(m.video, sprite, m.v[x as int], m.v[y as int]);
    }
}

/// `ADD Vx, Vy` sets `VF` to 1 exactly when the sum passes 255, and leaves
/// the sum modulo 256 in `Vx` (for `Vx` other than `VF`).
pub proof fn lemma_add_carry(m: MachineView, x: usize, y: usize, r: u8)
    requires
        m.wf(),
        x < 15,
        y < 16,
    ensures
        ({
            let (after, res) = step(m, OpCode::Add { x, y }, r);
            &&& res is Ok
            &&& (after.v[FLAG as int] == 1) == (m.v[x as int] + m.v[y as int] > 255)
            &&& (after.v[FLAG as int] == 0) == (m.v[x as int] + m.v[y as int] <= 255)
            &&& after.v[x as int] == (m.v[x as int] + m.v[y as int]) % 256
        }),
{
}

/// The machine after `k` more `CALL address` instructions.
pub open spec fn calls(m: MachineView, address: usize, k: nat) -> MachineView
    decreases k,
{
    if k == 0 {
        m
    } else {
        step(calls(m, address, (k - 1) as nat), OpCode::Call { address }, 0).0
    }
}

/// From an empty stack, sixteen calls succeed, each one deeper; the
/// seventeenth reports a stack overflow.
pub proof fn lemma_call_depth(m: MachineView, address: usize, k: nat)
    requires
        m.wf(),
        m.sp == 0,
        address < MAX_PROGRAM_SIZE,
        k <= STACK_SIZE,
    ensures
        calls(m, address, k).wf(),
        calls(m, address, k).sp == k,
        k < STACK_SIZE ==> step(calls(m, address, k), OpCode::Call { address }, 0).1 is Ok,
        k == STACK_SIZE ==> step(calls(m, address, k), OpCode::Call { address }, 0).1
            == Err::<(), Chip8Error>(Chip8Error::StackOverflowError),
    decreases k,
{
    if k > 0 {
        lemma_call_depth(m, address, (k - 1) as nat);
    }
}

/// `RET` on an empty stack reports a stack underflow.
pub proof fn lemma_return_empty(m: MachineView, r: u8)
    requires
        m.sp == 0,
    ensures
        step(m, OpCode::Return, r).1 == Err::<(), Chip8Error>(Chip8Error::StackUnderflowError),
{
}

/// A cycle on `LD Vx, K` with no key held leaves PC where it was, so the same
/// instruction runs again; with a key held, `Vx` receives the lowest such key
/// and PC moves past the instruction.
pub proof fn lemma_wait_key(m: MachineView, x: usize, r: u8)
    requires
        m.wf(),
        m.pc + 1 < MEMORY_SIZE,
        x < 16,
        decode_spec(word_at(m.memory, m.pc as int)) == (OpCode::WaitKey { x }),
    ensures
        !any_pressed(m.keys) ==> cycle(m, r).0.pc == m.pc,
        any_pressed(m.keys) ==> cycle(m, r).0.pc == m.pc + 2
            && cycle(m, r).0.v[x as int] == first_pressed(m.keys)
            && is_first_pressed(m.keys, first_pressed(m.keys)),
        cycle(m, r).1 is Ok,
{
    assert(tick(m).memory == m.memory);
    assert(tick(m).keys == m.keys);
    if any_pressed(m.keys) {
        let k = first_pressed(m.keys);
        assert(is_first_pressed(m.keys, k));
    }
}

/// The instruction that the next cycle fetches is `RND`.
pub open spec fn next_is_random(m: MachineView) -> bool {
    m.pc + 1 < MEMORY_SIZE && decode_spec(word_at(m.memory, m.pc as int)) is Random
}

/// A cycle that does not fetch `RND` does not depend on the random byte.
pub proof fn lemma_cycle_deterministic(m: MachineView, r1: u8, r2: u8)
    requires
        !next_is_random(m),
    ensures
        cycle(m, r1) == cycle(m, r2),
{
    assert(tick(m).memory == m.memory);
    assert(tick(m).pc == m.pc);
}

/// The machine after one cycle per byte of `rnds`, each cycle using its byte.
pub open spec fn run_cycles(m: MachineView, rnds: Seq<u8>) -> MachineView
    decreases rnds.len(),
{
    if rnds.len() == 0 {
        m
    } else {
        run_cycles(cycle(m, rnds[0]).0, rnds.drop_first())
    }
}

/// None of the next `n` cycles fetches `RND`.
pub open spec fn random_free(m: MachineView, n: nat) -> bool
    decreases n,
{
    n == 0 || (!next_is_random(m) && random_free(cycle(m, 0).0, (n - 1) as nat))
}

/// Runs of equal length that fetch no `RND` end in the same machine, whatever
/// random bytes they are given: such a run is reproducible.
pub proof fn lemma_run_deterministic(m: MachineView, rnds1: Seq<u8>, rnds2: Seq<u8>)
    requires
        rnds1.len() == rnds2.len(),
        random_free(m, rnds1.len()),
    ensures
        run_cycles(m, rnds1) == run_cycles(m, rnds2),
    decreases rnds1.len(),
{
    if rnds1.len() > 0 {
        lemma_cycle_deterministic(m, rnds1[0], 0);
        lemma_cycle_deterministic(m, rnds2[0], 0);
        lemma_run_deterministic(cycle(m, 0).0, rnds1.drop_first(), rnds2.drop_first());
    }
}

} // verus!
