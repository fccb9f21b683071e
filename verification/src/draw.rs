use vstd::prelude::*;

use crate::cpu::{CPU, CpuState, MEMORY_SIZE, SCREEN_HEIGHT, SCREEN_WIDTH};
use crate::semantics::{
    FLAG, bit_of, collides_at, column_offset, row_offset, row_pixel, screen_with_sprite,
    set_reg, sprite_collides, sprite_pixel,
};

verus! {

/// Whether the drawing loop, at sprite row `o` and column `b`, has already
/// visited the cell (`x`, `y`).
spec fn visited(left: u8, top: u8, o: int, b: int, x: int, y: int) -> bool {
    let dx = column_offset(left, x);
    let dy = row_offset(top, y);
    dy < o || (dy == o && dx < b)
}

/// What the drawing loop, at sprite row `o` and column `b`, has XOR-ed onto
/// the cell (`x`, `y`) so far.
spec fn drawn_so_far(m: CpuState, left: u8, top: u8, n: int, o: int, b: int, x: int, y: int) -> u8 {
    if visited(left, top, o, b, x, y) {
        sprite_pixel(m, left, top, n, x, y)
    } else {
        0u8
    }
}

proof fn lemma_sprite_bit(byte: u8, b: u8)
    requires
        b < 8,
    ensures
        (byte & (1u8 << (7 - b) as u8)) >> (7 - b) as u8 == row_pixel(byte, b as int),
{
    assert((byte & (1u8 << (7 - b) as u8)) >> (7 - b) as u8 == (byte >> (7 - b) as u8) & 1u8)
        by (bit_vector)
        requires
            b < 8,
    ;
}

proof fn lemma_xor_zero(a: u8)
    ensures
        a ^ 0u8 == a,
{
    assert(a ^ 0u8 == a) by (bit_vector);
}

/// The cell that the drawing loop visits at sprite row `o`, column `b` is
/// the only cell at those offsets.
proof fn lemma_cell_of_offsets(left: u8, top: u8, o: int, b: int, x: int, y: int)
    requires
        0 <= o < SCREEN_HEIGHT,
        0 <= b < 8,
        0 <= x < SCREEN_WIDTH,
        0 <= y < SCREEN_HEIGHT,
    ensures
        column_offset(left, (left + b) % 64) == b,
        row_offset(top, (top + o) % 32) == o,
        (column_offset(left, x) == b && row_offset(top, y) == o) <==> (x == (left + b) % 64 && y
            == (top + o) % 32),
        0 <= column_offset(left, x) < SCREEN_WIDTH,
        0 <= row_offset(top, y) < SCREEN_HEIGHT,
{
}

impl CPU {
    /// XORs the `n`-row sprite at `I` onto the screen at (`Vx`, `Vy`),
    /// wrapping around the edges; `VF` becomes 1 when a lit pixel was turned off.
    pub(crate) fn draw_sprite(&mut self, x: u8, y: u8, n: u8)
        requires
            x < 16,
            y < 16,
            n < 16,
            n == 0 || old(self).i + n - 1 < MEMORY_SIZE,
        ensures
            ({
                let m = old(self)@;
                let left = m.r[x as int];
                let top = m.r[y as int];
                final(self)@ == set_reg(
                    CpuState { display: screen_with_sprite(m, left, top, n as int), ..m },
                    FLAG as int,
                    bit_of(sprite_collides(m, left, top, n as int)),
                )
            }),
    {
        let ghost m = self@;
        let vx = self.r[x as usize];
        let vy = self.r[y as usize];
        let mut collision = false;
        let mut offset: u16 = 0;
        assert forall|yy: int, xx: int|
            0 <= yy < SCREEN_HEIGHT && 0 <= xx < SCREEN_WIDTH implies #[trigger] self.display[yy][xx]
                == m.display[yy][xx] ^ drawn_so_far(m, vx, vy, n as int, 0, 0, xx, yy) by {
            lemma_cell_of_offsets(vx, vy, 0, 0, xx, yy);
            lemma_xor_zero(m.display[yy][xx]);
        }
        while offset < n as u16
            invariant
                self@ == (CpuState { display: self@.display, ..m }),
                vx == m.r[x as int],
                vy == m.r[y as int],
                n < 16,
                n == 0 || m.i + n - 1 < MEMORY_SIZE,
                offset <= n,
                forall|yy: int, xx: int|
                    0 <= yy < SCREEN_HEIGHT && 0 <= xx < SCREEN_WIDTH ==> #[trigger] self.display[yy][xx]
                        == m.display[yy][xx] ^ drawn_so_far(m, vx, vy, n as int, offset as int, 0, xx, yy),
                collision == exists|yy: int, xx: int|
                    0 <= yy < SCREEN_HEIGHT && 0 <= xx < SCREEN_WIDTH
                        && visited(vx, vy, offset as int, 0, xx, yy)
                        && #[trigger] collides_at(m, vx, vy, n as int, xx, yy),
            decreases n - offset,
        {
            let mut bit: u8 = 0;
            while bit < 8
                invariant
                    self@ == (CpuState { display: self@.display, ..m }),
                    vx == m.r[x as int],
                    vy == m.r[y as int],
                    n < 16,
                    n == 0 || m.i + n - 1 < MEMORY_SIZE,
                    offset < n,
                    bit <= 8,
                    forall|yy: int, xx: int|
                        0 <= yy < SCREEN_HEIGHT && 0 <= xx < SCREEN_WIDTH
                            ==> #[trigger] self.display[yy][xx] == m.display[yy][xx]
                            ^ drawn_so_far(m, vx, vy, n as int, offset as int, bit as int, xx, yy),
                    collision == exists|yy: int, xx: int|
                        0 <= yy < SCREEN_HEIGHT && 0 <= xx < SCREEN_WIDTH
                            && visited(vx, vy, offset as int, bit as int, xx, yy)
                            && #[trigger] collides_at(m, vx, vy, n as int, xx, yy),
                decreases 8 - bit,
            {
                let px = ((vx as u16 + bit as u16) % 64) as usize;
                let py = ((vy as u16 + offset) % 32) as usize;
                let old_pixel = self.display[py][px];
                let byte = self.memory[(self.i + offset) as usize];
                let new_pixel = (byte & (1u8 << (7 - bit))) >> (7 - bit);
                let ghost before = self.display;
                let ghost was_collision = collision;
                proof {
                    lemma_sprite_bit(byte, bit);
                    lemma_cell_of_offsets(vx, vy, offset as int, bit as int, px as int, py as int);
                    lemma_xor_zero(m.display[py as int][px as int]);
                    assert(sprite_pixel(m, vx, vy, n as int, px as int, py as int) == new_pixel);
                    assert(old_pixel == m.display[py as int][px as int]);
                }
                if old_pixel == 1 && new_pixel == 1 {
                    collision = true;
                }
                self.display[py][px] = old_pixel ^ new_pixel;
                proof {
                    assert forall|yy: int, xx: int|
                        0 <= yy < SCREEN_HEIGHT && 0 <= xx < SCREEN_WIDTH implies #[trigger] self.display[yy][xx]
                            == m.display[yy][xx]
                            ^ drawn_so_far(m, vx, vy, n as int, offset as int, bit + 1, xx, yy) by {
                        lemma_cell_of_offsets(vx, vy, offset as int, bit as int, xx, yy);
                        if yy == py && xx == px {
                        } else {
                            assert(self.display[yy][xx] == before[yy][xx]);
                        }
                    }
                    if collision {
                        if was_collision {
                            let (wy, wx) = choose|yy: int, xx: int|
                                0 <= yy < SCREEN_HEIGHT && 0 <= xx < SCREEN_WIDTH
                                    && visited(vx, vy, offset as int, bit as int, xx, yy)
                                    && #[trigger] collides_at(m, vx, vy, n as int, xx, yy);
                            assert(visited(vx, vy, offset as int, bit + 1, wx, wy));
                        } else {
                            assert(collides_at(m, vx, vy, n as int, px as int, py as int));
                        }
                    } else {
                        assert forall|yy: int, xx: int|
                            0 <= yy < SCREEN_HEIGHT && 0 <= xx < SCREEN_WIDTH
                                && visited(vx, vy, offset as int, bit + 1, xx, yy)
                            implies !#[trigger] collides_at(m, vx, vy, n as int, xx, yy) by {
                            lemma_cell_of_offsets(vx, vy, offset as int, bit as int, xx, yy);
                        }
                    }
                }
                bit = bit + 1;
            }
            proof {
                assert forall|yy: int, xx: int|
                    0 <= yy < SCREEN_HEIGHT && 0 <= xx < SCREEN_WIDTH implies drawn_so_far(
                        m, vx, vy, n as int, offset as int, 8, xx, yy)
                        == drawn_so_far(m, vx, vy, n as int, offset + 1, 0, xx, yy)
                        && (visited(vx, vy, offset as int, 8, xx, yy) && collides_at(m, vx, vy, n as int, xx, yy)
                        <==> visited(vx, vy, offset + 1, 0, xx, yy) && collides_at(m, vx, vy, n as int, xx, yy)) by {
                    lemma_cell_of_offsets(vx, vy, offset as int, 0, xx, yy);
                }
            }
            offset = offset + 1;
        }
        let ghost drawn = self@;
        self.r[FLAG] = if collision { 1 } else { 0 };
        proof {
            let left = m.r[x as int];
            let top = m.r[y as int];
            assert forall|yy: int| 0 <= yy < SCREEN_HEIGHT implies drawn.display[yy]
                =~= screen_with_sprite(m, left, top, n as int)[yy] by {
                assert forall|xx: int| 0 <= xx < SCREEN_WIDTH implies drawn.display[yy][xx]
                    == screen_with_sprite(m, left, top, n as int)[yy][xx] by {
                    lemma_cell_of_offsets(vx, vy, 0, 0, xx, yy);
                    assert(drawn.display[yy][xx] == self.display[yy][xx]);
                }
            }
            assert(drawn.display =~~= screen_with_sprite(m, left, top, n as int));
            if sprite_collides(m, left, top, n as int) {
                let (wy, wx) = choose|yy: int, xx: int|
                    0 <= yy < SCREEN_HEIGHT && 0 <= xx < SCREEN_WIDTH
                        && #[trigger] collides_at(m, left, top, n as int, xx, yy);
                lemma_cell_of_offsets(vx, vy, 0, 0, wx, wy);
                assert(visited(vx, vy, offset as int, 0, wx, wy));
            }
            assert(self@ =~~= set_reg(
                CpuState { display: screen_with_sprite(m, left, top, n as int), ..m },
                FLAG as int,
                bit_of(sprite_collides(m, left, top, n as int)),
            ));
        }
    }
}

} // verus!
