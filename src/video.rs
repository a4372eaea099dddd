use vstd::prelude::*;
use crate::state::{MEMORY_SIZE, PITCH, VIDEO_SIZE};

verus! {

/// Display byte that sprite row `r` starts in when the sprite is drawn at (x, y).
pub open spec fn row_addr(x: u8, y: u8, r: int) -> int {
    (y + r) * PITCH + x / 8
}

/// A sprite row is drawn only if both bytes it may touch lie in the display;
/// rows past the lower edge are skipped, not wrapped.
pub open spec fn row_visible(x: u8, y: u8, r: int) -> bool {
    row_addr(x, y, r) < VIDEO_SIZE - 1
}

/// The bits that sprite row `r` flips in display byte `j`: the row byte split
/// at bit offset `x % 8` over two adjacent display bytes.
pub open spec fn row_bits(sprite: Seq<u8>, x: u8, y: u8, r: int, j: int) -> u8 {
    if row_visible(x, y, r) && j == row_addr(x, y, r) {
        sprite[r] >> (x % 8)
    } else if row_visible(x, y, r) && j == row_addr(x, y, r) + 1 && x % 8 != 0 {
        sprite[r] << ((8 - x % 8) as u8)
    } else {
        0
    }
}

/// The bits that the first `rows` sprite rows flip in display byte `j`.
pub open spec fn sprite_mask(sprite: Seq<u8>, x: u8, y: u8, rows: nat, j: int) -> u8
    decreases rows,
{
    if rows == 0 {
        0
    } else {
        sprite_mask(sprite, x, y, (rows - 1) as nat, j) ^ row_bits(sprite, x, y, rows - 1, j)
    }
}

/// The display after XOR-drawing the first `rows` sprite rows.
pub open spec fn blit_rows(video: Seq<u8>, sprite: Seq<u8>, x: u8, y: u8, rows: nat) -> Seq<u8> {
    Seq::new(video.len(), |j: int| video[j] ^ sprite_mask(sprite, x, y, rows, j))
}

/// The display after XOR-drawing the whole sprite at (x, y).
pub open spec fn drawn(video: Seq<u8>, sprite: Seq<u8>, x: u8, y: u8) -> Seq<u8> {
    blit_rows(video, sprite, x, y, sprite.len())
}

/// Drawing sprite row `r` onto `cur` clears at least one lit pixel.
pub open spec fn row_clears(cur: Seq<u8>, sprite: Seq<u8>, x: u8, y: u8, r: int) -> bool {
    let a = row_addr(x, y, r);
    row_visible(x, y, r) && (cur[a] & row_bits(sprite, x, y, r, a) != 0 || cur[a + 1]
        & row_bits(sprite, x, y, r, a + 1) != 0)
}

/// Some of the first `rows` sprite rows clears a lit pixel as it is drawn.
pub open spec fn collides_rows(video: Seq<u8>, sprite: Seq<u8>, x: u8, y: u8, rows: nat) -> bool
    decreases rows,
{
    rows > 0 && (collides_rows(video, sprite, x, y, (rows - 1) as nat) || row_clears(
        blit_rows(video, sprite, x, y, (rows - 1) as nat),
        sprite,
        x,
        y,
        rows - 1,
    ))
}

/// Drawing the sprite at (x, y) clears at least one lit pixel.
pub open spec fn collides(video: Seq<u8>, sprite: Seq<u8>, x: u8, y: u8) -> bool {
    collides_rows(video, sprite, x, y, sprite.len())
}

proof fn lemma_xor(a: u8, b: u8, c: u8)
    by (bit_vector)
    ensures
        (a ^ b) ^ c == a ^ (b ^ c),
        a ^ 0 == a,
        (a ^ b) ^ b == a,
{
}

/// Drawing the same sprite twice at the same place restores the display.
pub proof fn lemma_draw_twice_restores(video: Seq<u8>, sprite: Seq<u8>, x: u8, y: u8)
    ensures
        drawn(drawn(video, sprite, x, y), sprite, x, y) == video,
{
    let once = drawn(video, sprite, x, y);
    let twice = drawn(once, sprite, x, y);
    assert forall|j: int| 0 <= j < video.len() implies twice[j] == video[j] by {
        lemma_xor(video[j], sprite_mask(sprite, x, y, sprite.len(), j), 0);
    }
    assert(twice =~= video);
}

/// XOR-draws `n` rows of sprite bytes, read from `memory` at `start`, at
/// (x, y) onto the display; returns whether a lit pixel was cleared.
pub fn blit(video: &mut [u8; VIDEO_SIZE], memory: &[u8; MEMORY_SIZE], start: usize, n: u8, x: u8, y: u8) -> (hit: bool)
    requires
        start + n <= MEMORY_SIZE,
    ensures
        final(video)@ == drawn(old(video)@, memory@.subrange(start as int, start + n), x, y),
        hit == collides(old(video)@, memory@.subrange(start as int, start + n), x, y),
{
    let ghost sprite = memory@.subrange(start as int, start + n);
    let ghost orig = video@;
    let x_byte = (x / 8) as usize;
    let bit = x % 8;
    let mut hit = false;
    let mut r: u8 = 0;
    assert(video@ =~= blit_rows(orig, sprite, x, y, 0)) by {
        assert forall|j: int| 0 <= j < orig.len() implies orig[j] == orig[j] ^ sprite_mask(sprite, x, y, 0, j) by {
            lemma_xor(orig[j], 0, 0);
        }
    }
    while r < n
        invariant
            r <= n,
            start + n <= MEMORY_SIZE,
            sprite == memory@.subrange(start as int, start + n),
            orig.len() == VIDEO_SIZE,
            x_byte == x / 8,
            bit == x % 8,
            video@ == blit_rows(orig, sprite, x, y, r as nat),
            hit == collides_rows(orig, sprite, x, y, r as nat),
        decreases n - r,
    {
        let ghost before = video@;
        let addr = (y as usize + r as usize) * PITCH + x_byte;
        if addr < VIDEO_SIZE - 1 {
            let b = memory[start + r as usize];
            assert(b == sprite[r as int]);
            let m0 = b >> bit;
            let m1: u8 = if bit > 0 { b << (8 - bit) } else { 0 };
            let b0 = video[addr];
            let b1 = video[addr + 1];
            if (b0 & m0) != 0 || (b1 & m1) != 0 {
                hit = true;
            }
            video[addr] = b0 ^ m0;
            video[addr + 1] = b1 ^ m1;
            assert forall|j: int| 0 <= j < VIDEO_SIZE implies #[trigger] video@[j] == orig[j]
                ^ sprite_mask(sprite, x, y, (r + 1) as nat, j) by {
                lemma_xor(orig[j], sprite_mask(sprite, x, y, r as nat, j), row_bits(sprite, x, y, r as int, j));
                lemma_xor(before[j], 0, 0);
            }
        } else {
            assert forall|j: int| 0 <= j < VIDEO_SIZE implies #[trigger] video@[j] == orig[j]
                ^ sprite_mask(sprite, x, y, (r + 1) as nat, j) by {
                lemma_xor(orig[j], sprite_mask(sprite, x, y, r as nat, j), row_bits(sprite, x, y, r as int, j));
                lemma_xor(sprite_mask(sprite, x, y, r as nat, j), 0, 0);
            }
        }
        assert(video@ =~= blit_rows(orig, sprite, x, y, (r + 1) as nat));
        r = r + 1;
    }
    hit
}

} // verus!
