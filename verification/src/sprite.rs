//! Drawing a sprite onto the framebuffer.
//!
//! A sprite is a run of bytes, one per row, eight cells wide, the highest bit
//! leftmost. Drawing it at column `vx`, row `vy` toggles, for each set bit at
//! (`row`, `col`), the cell at column `(vx + col) % 64`, row `(vy + row) % 32`:
//! the sprite wraps round the edges. A sprite has fewer than 32 rows, so no
//! cell is reached by two of its bits.

use vstd::prelude::*;

verus! {

/// Whether the bit for column `col` (0 is leftmost) is set in a sprite row.
pub open spec fn sprite_bit(row_bits: u8, col: u8) -> bool {
    row_bits & (0x80u8 >> col) != 0
}

/// The framebuffer cell that the sprite's bit at (`row`, `col`) lands on.
pub open spec fn cell_index(vx: u8, vy: u8, row: int, col: int) -> int {
    (vx + col) % 64 + 64 * ((vy + row) % 32)
}

/// The sprite column that lands on cell `p`.
pub open spec fn col_of(vx: u8, p: int) -> int {
    (p % 64 - vx) % 64
}

/// The sprite row that lands on cell `p`.
pub open spec fn row_of(vy: u8, p: int) -> int {
    (p / 64 - vy) % 32
}

/// The `rows` bytes of memory from `start` on: the sprite that a draw reads.
pub open spec fn sprite_rows(memory: Seq<u8>, start: int, rows: int) -> Seq<u8> {
    Seq::new(rows as nat, |r: int| memory[start + r])
}

/// Whether drawing `sprite` at (`vx`, `vy`) toggles cell `p`.
pub open spec fn sprite_covers(sprite: Seq<u8>, vx: u8, vy: u8, p: int) -> bool {
    &&& col_of(vx, p) < 8
    &&& row_of(vy, p) < sprite.len()
    &&& sprite_bit(sprite[row_of(vy, p)], col_of(vx, p) as u8)
}

/// The framebuffer after `sprite` was drawn at (`vx`, `vy`).
pub open spec fn drawn(screen: Seq<bool>, sprite: Seq<u8>, vx: u8, vy: u8) -> Seq<bool> {
    Seq::new(2048, |p: int| screen[p] != sprite_covers(sprite, vx, vy, p))
}

/// Whether drawing `sprite` at (`vx`, `vy`) switches a lit cell off.
pub open spec fn collides(screen: Seq<bool>, sprite: Seq<u8>, vx: u8, vy: u8) -> bool {
    exists|p: int| 0 <= p < 2048 && screen[p] && #[trigger] sprite_covers(sprite, vx, vy, p)
}

/// Cell `p` is toggled by a bit that comes before (`row`, `col`) in drawing order.
spec fn covered_before(sprite: Seq<u8>, vx: u8, vy: u8, row: int, col: int, p: int) -> bool {
    &&& sprite_covers(sprite, vx, vy, p)
    &&& (row_of(vy, p) < row || (row_of(vy, p) == row && col_of(vx, p) < col))
}

/// A lit cell is switched off by a bit that comes before (`row`, `col`).
spec fn collides_before(
    screen: Seq<bool>,
    sprite: Seq<u8>,
    vx: u8,
    vy: u8,
    row: int,
    col: int,
) -> bool {
    exists|p: int|
        0 <= p < 2048 && screen[p] && #[trigger] covered_before(sprite, vx, vy, row, col, p)
}

/// The bit at (`row`, `col`) lands on one cell, and on no other.
pub proof fn lemma_cell_of_bit(vx: u8, vy: u8, row: int, col: int)
    requires
        0 <= row < 32,
        0 <= col < 64,
    ensures
        0 <= cell_index(vx, vy, row, col) < 2048,
        col_of(vx, cell_index(vx, vy, row, col)) == col,
        row_of(vy, cell_index(vx, vy, row, col)) == row,
        forall|p: int|
            0 <= p < 2048 && col_of(vx, p) == col && row_of(vy, p) == row ==> p == cell_index(
                vx,
                vy,
                row,
                col,
            ),
{
    let q = cell_index(vx, vy, row, col);
    let qx = (vx + col) % 64;
    let qy = (vy + row) % 32;
    assert(q % 64 == qx);
    assert(q / 64 == qy);
    assert((qx - vx) % 64 == col);
    assert((qy - vy) % 32 == row);
    assert forall|p: int| 0 <= p < 2048 && col_of(vx, p) == col && row_of(vy, p) == row implies p
        == q by {
        assert(p % 64 == qx);
        assert(p / 64 == qy);
    }
}

/// A cell is toggled exactly when some set bit of the sprite lands on it.
pub proof fn lemma_covers_iff_bit_lands(sprite: Seq<u8>, vx: u8, vy: u8, p: int)
    requires
        sprite.len() <= 32,
        0 <= p < 2048,
    ensures
        sprite_covers(sprite, vx, vy, p) <==> exists|row: int, col: int|
            0 <= row < sprite.len() && 0 <= col < 8 && sprite_bit(sprite[row], col as u8)
                && #[trigger] cell_index(vx, vy, row, col) == p,
{
    if sprite_covers(sprite, vx, vy, p) {
        let row = row_of(vy, p);
        let col = col_of(vx, p);
        lemma_cell_of_bit(vx, vy, row, col);
        assert(cell_index(vx, vy, row, col) == p);
    }
    if exists|row: int, col: int|
        0 <= row < sprite.len() && 0 <= col < 8 && sprite_bit(sprite[row], col as u8)
            && #[trigger] cell_index(vx, vy, row, col) == p {
        let (row, col) = choose|row: int, col: int|
            0 <= row < sprite.len() && 0 <= col < 8 && sprite_bit(sprite[row], col as u8)
                && #[trigger] cell_index(vx, vy, row, col) == p;
        lemma_cell_of_bit(vx, vy, row, col);
    }
}

/// Draws the `rows`-byte sprite that starts at `memory[start]` at column `vx`,
/// row `vy`, and reports whether a lit cell was switched off.
pub fn draw_sprite(
    screen: &mut [bool; 2048],
    memory: &[u8; 4096],
    start: u16,
    rows: u8,
    vx: u8,
    vy: u8,
) -> (collision: bool)
    requires
        rows < 32,
        rows == 0 || start + rows <= 4096,
    ensures
        final(screen)@ == drawn(
            old(screen)@,
            sprite_rows(memory@, start as int, rows as int),
            vx,
            vy,
        ),
        collision == collides(
            old(screen)@,
            sprite_rows(memory@, start as int, rows as int),
            vx,
            vy,
        ),
{
    let ghost before = screen@;
    let ghost sprite = sprite_rows(memory@, start as int, rows as int);
    let mut flipped = false;
    let mut row: u8 = 0;
    while row < rows
        invariant
            row <= rows < 32,
            rows == 0 || start + rows <= 4096,
            sprite == sprite_rows(memory@, start as int, rows as int),
            before.len() == 2048,
            forall|p: int|
                0 <= p < 2048 ==> screen@[p] == (before[p] != covered_before(
                    sprite,
                    vx,
                    vy,
                    row as int,
                    0,
                    p,
                )),
            flipped == collides_before(before, sprite, vx, vy, row as int, 0),
        decreases rows - row,
    {
        let pixels = memory[start as usize + row as usize];
        assert(pixels == sprite[row as int]);
        let mut col: u8 = 0;
        while col < 8
            invariant
                row < rows < 32,
                col <= 8,
                sprite.len() == rows,
                pixels == sprite[row as int],
                before.len() == 2048,
                forall|p: int|
                    0 <= p < 2048 ==> screen@[p] == (before[p] != covered_before(
                        sprite,
                        vx,
                        vy,
                        row as int,
                        col as int,
                        p,
                    )),
                flipped == collides_before(before, sprite, vx, vy, row as int, col as int),
            decreases 8 - col,
        {
            let ghost shown = screen@;
            let ghost was_flipped = flipped;
            let ghost q = cell_index(vx, vy, row as int, col as int);
            proof {
                lemma_cell_of_bit(vx, vy, row as int, col as int);
            }
            if (pixels & (0x80u8 >> col)) != 0 {
                let px: usize = (vx as usize + col as usize) % 64;
                let py: usize = (vy as usize + row as usize) % 32;
                let cell: usize = px + 64 * py;
                assert(cell == q);
                let lit = screen[cell];
                if lit {
                    flipped = true;
                }
                screen[cell] = !lit;
            }
            proof {
                let r = row as int;
                let c = col as int;
                assert forall|p: int| 0 <= p < 2048 implies screen@[p] == (before[p]
                    != covered_before(sprite, vx, vy, r, c + 1, p)) by {
                    assert(shown[p] == (before[p] != covered_before(sprite, vx, vy, r, c, p)));
                }
                if flipped {
                    if was_flipped {
                        let w = choose|p: int|
                            0 <= p < 2048 && before[p] && #[trigger] covered_before(
                                sprite,
                                vx,
                                vy,
                                r,
                                c,
                                p,
                            );
                        assert(covered_before(sprite, vx, vy, r, c + 1, w));
                    } else {
                        assert(shown[q] == (before[q] != covered_before(sprite, vx, vy, r, c, q)));
                        assert(covered_before(sprite, vx, vy, r, c + 1, q));
                    }
                    assert(collides_before(before, sprite, vx, vy, r, c + 1));
                } else {
                    assert forall|p: int|
                        0 <= p < 2048 && before[p] implies !#[trigger] covered_before(
                        sprite,
                        vx,
                        vy,
                        r,
                        c + 1,
                        p,
                    ) by {
                        assert(shown[p] == (before[p] != covered_before(sprite, vx, vy, r, c, p)));
                        if covered_before(sprite, vx, vy, r, c + 1, p) {
                            if p != q {
                                assert(covered_before(sprite, vx, vy, r, c, p));
                            }
                        }
                    }
                }
            }
            col = col + 1;
        }
        proof {
            let r = row as int;
            assert forall|p: int| 0 <= p < 2048 implies (covered_before(sprite, vx, vy, r, 8, p)
                == covered_before(sprite, vx, vy, r + 1, 0, p)) by {}
            if flipped {
                let w = choose|p: int|
                    0 <= p < 2048 && before[p] && #[trigger] covered_before(
                        sprite,
                        vx,
                        vy,
                        r,
                        8,
                        p,
                    );
                assert(covered_before(sprite, vx, vy, r + 1, 0, w));
            } else {
                assert forall|p: int| 0 <= p < 2048 && before[p] implies !#[trigger] covered_before(
                    sprite,
                    vx,
                    vy,
                    r + 1,
                    0,
                    p,
                ) by {
                    assert(!covered_before(sprite, vx, vy, r, 8, p));
                }
            }
        }
        row = row + 1;
    }
    proof {
        let n = rows as int;
        assert forall|p: int| 0 <= p < 2048 implies (covered_before(sprite, vx, vy, n, 0, p)
            == sprite_covers(sprite, vx, vy, p)) by {}
        assert(screen@ =~= drawn(before, sprite, vx, vy));
        if flipped {
            let w = choose|p: int|
                0 <= p < 2048 && before[p] && #[trigger] covered_before(sprite, vx, vy, n, 0, p);
            assert(sprite_covers(sprite, vx, vy, w));
        } else {
            assert forall|p: int| 0 <= p < 2048 && before[p] implies !#[trigger] sprite_covers(
                sprite,
                vx,
                vy,
                p,
            ) by {
                assert(!covered_before(sprite, vx, vy, n, 0, p));
            }
        }
    }
    flipped
}

} // verus!
