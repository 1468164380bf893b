//! What drawing a sprite does to the screen as a whole.
//!
//! [`draw`] is defined pixel by pixel. Here the same result is stated at
//! once: a pixel is flipped exactly when the sprite covers it with a set
//! bit, and the flag tells whether a covered pixel was lit. This holds where
//! neither coordinate register is the flag register, which drawing itself
//! writes.

use vstd::prelude::*;
use crate::machine::Machine;
use crate::instructions::sprite_bit;
use crate::instructions::set_flag;
use crate::instructions::plot;
use crate::instructions::plot_columns;
use crate::instructions::plot_row;
use crate::instructions::plot_rows;
use crate::instructions::draw;

verus! {

/// Whether a sprite row whose leftmost pixel lies in screen column `left`
/// (wrapped) sets a bit on screen column `c`, counting only the first
/// `cols` columns of the row.
pub open spec fn row_covers(left: int, sprite: u8, cols: int, c: int) -> bool {
    let col = (c - left) % 64;
    col < cols && sprite_bit(sprite, col as u8)
}

/// Whether the first `rows` rows of the sprite at the index register, placed
/// at the position in registers `x` and `y`, set a bit on pixel (`r`, `c`).
pub open spec fn sprite_covers(m: Machine, x: int, y: int, rows: int, r: int, c: int) -> bool {
    let row = (r - m.registers[y]) % 32;
    row < rows && row_covers(m.registers[x] as int, m.memory[m.index + row], 8, c)
}

/// Pixel (`r`, `c`) is lit and the sprite sets a bit on it.
pub open spec fn collision_at(m: Machine, x: int, y: int, rows: int, r: int, c: int) -> bool {
    &&& 0 <= r < 32
    &&& 0 <= c < 64
    &&& sprite_covers(m, x, y, rows, r, c)
    &&& m.screen[r][c]
}

/// Some lit pixel has a bit of the sprite set on it.
pub open spec fn collides(m: Machine, x: int, y: int, rows: int) -> bool {
    exists|r: int, c: int| collision_at(m, x, y, rows, r, c)
}

/// Column `c` of screen row `py` is lit and the sprite row sets a bit on it.
pub open spec fn row_collision_at(
    m: Machine,
    left: int,
    py: int,
    sprite: u8,
    cols: int,
    c: int,
) -> bool {
    &&& 0 <= c < 64
    &&& row_covers(left, sprite, cols, c)
    &&& m.screen[py][c]
}

/// Only the flag register and the screen differ between `m` and `after`.
pub open spec fn differs_in_flag_and_screen(m: Machine, after: Machine) -> bool {
    &&& after == (Machine { registers: after.registers, screen: after.screen, ..m })
    &&& after.registers == m.registers.update(15, after.registers[15])
    &&& after.shaped()
}

/// Taking one more column of a sprite row into account changes what the
/// row covers only in the screen column that the new column falls on.
pub proof fn lemma_row_covers_next(left: int, sprite: u8, k: int, c: int)
    requires
        0 <= left < 256,
        0 <= k < 8,
        0 <= c < 64,
    ensures
        row_covers(left, sprite, k + 1, c) == if c == (left + k) % 64 {
            sprite_bit(sprite, k as u8)
        } else {
            row_covers(left, sprite, k, c)
        },
{
    let col = (c - left) % 64;
    assert(col == k <==> c == (left + k) % 64);
}

/// Taking one more row of the sprite into account changes what the sprite
/// covers only in the screen row that the new row falls on.
pub proof fn lemma_sprite_covers_next(m: Machine, x: int, y: int, k: int, r: int, c: int)
    requires
        0 <= k < 16,
        0 <= r < 32,
    ensures
        sprite_covers(m, x, y, k + 1, r, c) == if r == (m.registers[y] + k) % 32 {
            row_covers(m.registers[x] as int, m.memory[m.index + k], 8, c)
        } else {
            sprite_covers(m, x, y, k, r, c)
        },
{
    let top = m.registers[y] as int;
    let row = (r - top) % 32;
    assert(row == k <==> r == (top + k) % 32);
}

/// What one plotted pixel changes.
pub proof fn lemma_plot(m: Machine, x: int, py: int, sprite: u8, col: int)
    requires
        m.shaped(),
        0 <= x < 16,
        0 <= py < 32,
        0 <= col < 8,
    ensures
        ({
            let after = plot(m, x, py, sprite, col);
            let px = (m.registers[x] + col) % 64;
            let lit = sprite_bit(sprite, col as u8);
            &&& differs_in_flag_and_screen(m, after)
            &&& after.registers[15] == if lit && m.screen[py][px] {
                1u8
            } else {
                m.registers[15]
            }
            &&& forall|r: int| 0 <= r < 32 && r != py ==> after.screen[r] == m.screen[r]
            &&& forall|c: int|
                0 <= c < 64 ==> after.screen[py][c] == if c == px {
                    m.screen[py][c] != lit
                } else {
                    m.screen[py][c]
                }
        }),
{
    let after = plot(m, x, py, sprite, col);
    assert(after.registers =~= m.registers.update(15, after.registers[15]));
}

/// Plotting pixels of one sprite row changes at most the flag register and
/// the screen, whichever registers hold the coordinates.
pub proof fn lemma_plot_columns_frame(m: Machine, x: int, py: int, sprite: u8, cols: nat)
    requires
        m.shaped(),
        0 <= x < 16,
        0 <= py < 32,
        cols <= 8,
    ensures
        differs_in_flag_and_screen(m, plot_columns(m, x, py, sprite, cols)),
    decreases cols,
{
    if cols == 0 {
        assert(m.registers =~= m.registers.update(15, m.registers[15]));
    } else {
        let prev = plot_columns(m, x, py, sprite, (cols - 1) as nat);
        lemma_plot_columns_frame(m, x, py, sprite, (cols - 1) as nat);
        lemma_plot(prev, x, py, sprite, cols - 1);
        let after = plot(prev, x, py, sprite, cols - 1);
        assert(after.registers =~= m.registers.update(15, after.registers[15]));
    }
}

/// Plotting rows of a sprite changes at most the flag register and the
/// screen, whichever registers hold the coordinates.
pub proof fn lemma_plot_rows_frame(m: Machine, x: int, y: int, rows: nat)
    requires
        m.shaped(),
        0 <= x < 16,
        0 <= y < 16,
    ensures
        differs_in_flag_and_screen(m, plot_rows(m, x, y, rows)),
    decreases rows,
{
    if rows == 0 {
        assert(m.registers =~= m.registers.update(15, m.registers[15]));
    } else {
        let prev = plot_rows(m, x, y, (rows - 1) as nat);
        lemma_plot_rows_frame(m, x, y, (rows - 1) as nat);
        let py = (prev.registers[y] + rows - 1) % 32;
        let sprite = prev.memory[prev.index + rows - 1];
        lemma_plot_columns_frame(prev, x, py, sprite, 8);
        let after = plot_columns(prev, x, py, sprite, 8);
        assert(after == plot_row(prev, x, y, rows - 1));
        assert(after.registers =~= m.registers.update(15, after.registers[15]));
    }
}

/// Drawing changes at most the flag register, the screen and the stale
/// flag, whichever registers hold the coordinates.
pub proof fn draw_changes_flag_and_screen_only(m: Machine, x: int, y: int, n: int)
    requires
        m.shaped(),
        0 <= x < 16,
        0 <= y < 16,
        0 <= n,
    ensures
        ({
            let after = draw(m, x, y, n);
            &&& after == (Machine {
                registers: after.registers,
                screen: after.screen,
                stale: true,
                ..m
            })
            &&& after.registers == m.registers.update(15, after.registers[15])
            &&& after.shaped()
        }),
{
    lemma_plot_rows_frame(set_flag(m, 0), x, y, n as nat);
    let after = draw(m, x, y, n);
    assert(after.registers =~= m.registers.update(15, after.registers[15]));
}

/// Plotting the first `cols` pixels of a sprite row flips the pixels of
/// screen row `py` that the row covers, and raises the flag where one of
/// them was lit.
pub proof fn lemma_plot_columns(m: Machine, x: int, py: int, sprite: u8, cols: nat)
    requires
        m.shaped(),
        0 <= x < 15,
        0 <= py < 32,
        cols <= 8,
    ensures
        ({
            let after = plot_columns(m, x, py, sprite, cols);
            let left = m.registers[x] as int;
            &&& differs_in_flag_and_screen(m, after)
            &&& after.registers[15] == if exists|c: int|
                row_collision_at(m, left, py, sprite, cols as int, c) {
                1u8
            } else {
                m.registers[15]
            }
            &&& forall|r: int| 0 <= r < 32 && r != py ==> after.screen[r] == m.screen[r]
            &&& forall|c: int|
                0 <= c < 64 ==> after.screen[py][c] == (m.screen[py][c] != row_covers(
                    left,
                    sprite,
                    cols as int,
                    c,
                ))
        }),
    decreases cols,
{
    let left = m.registers[x] as int;
    if cols == 0 {
        assert(!(exists|c: int| row_collision_at(m, left, py, sprite, 0, c)));
        assert(m.registers =~= m.registers.update(15, m.registers[15]));
    } else {
        let k = (cols - 1) as int;
        let prev = plot_columns(m, x, py, sprite, k as nat);
        lemma_plot_columns(m, x, py, sprite, k as nat);
        let after = plot(prev, x, py, sprite, k);
        assert(after == plot_columns(m, x, py, sprite, cols));
        lemma_plot(prev, x, py, sprite, k);
        let px = (left + k) % 64;
        let lit = sprite_bit(sprite, k as u8);
        assert(prev.registers[x] == m.registers[x]);
        assert forall|c: int| 0 <= c < 64 implies #[trigger] row_covers(
            left,
            sprite,
            cols as int,
            c,
        ) == if c == px {
            lit
        } else {
            row_covers(left, sprite, k, c)
        } by {
            lemma_row_covers_next(left, sprite, k, c);
        }
        assert(!row_covers(left, sprite, k, px));
        let was = prev.screen[py][px];
        assert(was == m.screen[py][px]);
        if exists|c: int| row_collision_at(m, left, py, sprite, k, c) {
            let c0 = choose|c: int| row_collision_at(m, left, py, sprite, k, c);
            assert(row_collision_at(m, left, py, sprite, cols as int, c0));
        } else if lit && was {
            assert(row_collision_at(m, left, py, sprite, cols as int, px));
        } else {
            assert forall|c: int| !row_collision_at(m, left, py, sprite, cols as int, c) by {
                if row_collision_at(m, left, py, sprite, cols as int, c) {
                    if c != px {
                        assert(row_collision_at(m, left, py, sprite, k, c));
                    }
                }
            }
        }
        assert(after.registers =~= m.registers.update(15, after.registers[15]));
    }
}

/// Plotting the first `rows` rows of a sprite flips the pixels that those
/// rows cover, and raises the flag where one of them was lit.
pub proof fn lemma_plot_rows(m: Machine, x: int, y: int, rows: nat)
    requires
        m.shaped(),
        0 <= x < 15,
        0 <= y < 15,
        rows <= 16,
    ensures
        ({
            let after = plot_rows(m, x, y, rows);
            &&& differs_in_flag_and_screen(m, after)
            &&& after.registers[15] == if collides(m, x, y, rows as int) {
                1u8
            } else {
                m.registers[15]
            }
            &&& forall|r: int, c: int|
                0 <= r < 32 && 0 <= c < 64 ==> after.screen[r][c] == (m.screen[r][c]
                    != sprite_covers(m, x, y, rows as int, r, c))
        }),
    decreases rows,
{
    if rows == 0 {
        assert(!collides(m, x, y, 0));
        assert(m.registers =~= m.registers.update(15, m.registers[15]));
    } else {
        let k = (rows - 1) as int;
        let prev = plot_rows(m, x, y, k as nat);
        lemma_plot_rows(m, x, y, k as nat);
        let top = m.registers[y] as int;
        let left = m.registers[x] as int;
        let py = (top + k) % 32;
        let sprite = m.memory[m.index + k];
        assert(prev.registers[y] == m.registers[y]);
        assert(prev.registers[x] == m.registers[x]);
        let after = plot_columns(prev, x, py, sprite, 8);
        assert(after == plot_row(prev, x, y, k));
        assert(after == plot_rows(m, x, y, rows));
        lemma_plot_columns(prev, x, py, sprite, 8);
        assert forall|r: int, c: int| 0 <= r < 32 && 0 <= c < 64 implies #[trigger] sprite_covers(
            m,
            x,
            y,
            rows as int,
            r,
            c,
        ) == if r == py {
            row_covers(left, sprite, 8, c)
        } else {
            sprite_covers(m, x, y, k, r, c)
        } by {
            lemma_sprite_covers_next(m, x, y, k, r, c);
        }
        assert forall|c: int| 0 <= c < 64 implies !sprite_covers(m, x, y, k, py, c) by {
            lemma_sprite_covers_next(m, x, y, k, py, c);
            assert((py - top) % 32 == k);
        }
        assert forall|c: int| 0 <= c < 64 implies prev.screen[py][c] == m.screen[py][c] by {
            assert(!sprite_covers(m, x, y, k, py, c));
        }
        assert forall|r: int, c: int| 0 <= r < 32 && 0 <= c < 64 implies after.screen[r][c] == (
        m.screen[r][c] != sprite_covers(m, x, y, rows as int, r, c)) by {
            if r == py {
                assert(prev.screen[r][c] == m.screen[r][c]);
            } else {
                assert(after.screen[r] == prev.screen[r]);
            }
        }
        if collides(m, x, y, k) {
            let (r0, c0) = choose|r: int, c: int| collision_at(m, x, y, k, r, c);
            assert(sprite_covers(m, x, y, rows as int, r0, c0));
            assert(collision_at(m, x, y, rows as int, r0, c0));
        } else if exists|c: int| row_collision_at(prev, left, py, sprite, 8, c) {
            let c0 = choose|c: int| row_collision_at(prev, left, py, sprite, 8, c);
            assert(prev.screen[py][c0] == m.screen[py][c0]);
            assert(sprite_covers(m, x, y, rows as int, py, c0));
            assert(collision_at(m, x, y, rows as int, py, c0));
        } else {
            assert forall|r: int, c: int| !collision_at(m, x, y, rows as int, r, c) by {
                if collision_at(m, x, y, rows as int, r, c) {
                    assert(sprite_covers(m, x, y, rows as int, r, c));
                    if r == py {
                        assert(prev.screen[py][c] == m.screen[py][c]);
                        assert(row_collision_at(prev, left, py, sprite, 8, c));
                    } else {
                        assert(collision_at(m, x, y, k, r, c));
                    }
                }
            }
        }
        assert(after.registers =~= m.registers.update(15, after.registers[15]));
    }
}

/// Drawing flips exactly the pixels that the sprite covers with a set bit,
/// leaves the flag at 1 if one of them was lit and at 0 otherwise, marks
/// the framebuffer stale, and changes nothing else.
pub proof fn draw_flips_covered_pixels(m: Machine, x: int, y: int, n: int)
    requires
        m.shaped(),
        0 <= x < 15,
        0 <= y < 15,
        0 <= n < 16,
    ensures
        ({
            let after = draw(m, x, y, n);
            &&& after == (Machine {
                registers: after.registers,
                screen: after.screen,
                stale: true,
                ..m
            })
            &&& after.shaped()
            &&& after.registers == m.registers.update(15, after.registers[15])
            &&& after.registers[15] == if collides(m, x, y, n) {
                1u8
            } else {
                0u8
            }
            &&& forall|r: int, c: int|
                0 <= r < 32 && 0 <= c < 64 ==> after.screen[r][c] == (m.screen[r][c]
                    != sprite_covers(m, x, y, n, r, c))
        }),
{
    let cleared = set_flag(m, 0);
    lemma_plot_rows(cleared, x, y, n as nat);
    let after = draw(m, x, y, n);
    assert forall|r: int, c: int|
        sprite_covers(cleared, x, y, n, r, c) == sprite_covers(m, x, y, n, r, c) by {
    }
    assert(collides(cleared, x, y, n) == collides(m, x, y, n)) by {
        if collides(cleared, x, y, n) {
            let (r0, c0) = choose|r: int, c: int| collision_at(cleared, x, y, n, r, c);
            assert(collision_at(m, x, y, n, r0, c0));
        }
        if collides(m, x, y, n) {
            let (r0, c0) = choose|r: int, c: int| collision_at(m, x, y, n, r, c);
            assert(collision_at(cleared, x, y, n, r0, c0));
        }
    }
    assert(after.registers =~= m.registers.update(15, after.registers[15]));
}

/// Drawing the same sprite at the same place twice restores the screen.
/// The second drawing raises the flag exactly when the first one lit a
/// pixel, that is when the sprite covers a pixel that was off.
pub proof fn draw_twice_restores_screen(m: Machine, x: int, y: int, n: int)
    requires
        m.shaped(),
        0 <= x < 15,
        0 <= y < 15,
        0 <= n < 16,
    ensures
        ({
            let once = draw(m, x, y, n);
            let twice = draw(once, x, y, n);
            &&& twice.screen == m.screen
            &&& twice.registers[15] == if exists|r: int, c: int|
                0 <= r < 32 && 0 <= c < 64 && sprite_covers(m, x, y, n, r, c) && !m.screen[r][c] {
                1u8
            } else {
                0u8
            }
        }),
{
    let once = draw(m, x, y, n);
    let twice = draw(once, x, y, n);
    draw_flips_covered_pixels(m, x, y, n);
    draw_flips_covered_pixels(once, x, y, n);
    assert forall|r: int, c: int|
        sprite_covers(once, x, y, n, r, c) == sprite_covers(m, x, y, n, r, c) by {
    }
    assert forall|r: int| 0 <= r < 32 implies twice.screen[r] == m.screen[r] by {
        assert forall|c: int| 0 <= c < 64 implies twice.screen[r][c] == m.screen[r][c] by {
            assert(once.screen[r][c] == (m.screen[r][c] != sprite_covers(m, x, y, n, r, c)));
        }
        assert(twice.screen[r] =~= m.screen[r]);
    }
    assert(twice.screen =~= m.screen);
    if collides(once, x, y, n) {
        let (r0, c0) = choose|r: int, c: int| collision_at(once, x, y, n, r, c);
        assert(sprite_covers(m, x, y, n, r0, c0) && !m.screen[r0][c0]);
    }
    if exists|r: int, c: int|
        0 <= r < 32 && 0 <= c < 64 && sprite_covers(m, x, y, n, r, c) && !m.screen[r][c] {
        let (r0, c0) = choose|r: int, c: int|
            0 <= r < 32 && 0 <= c < 64 && sprite_covers(m, x, y, n, r, c) && !m.screen[r][c];
        assert(collision_at(once, x, y, n, r0, c0));
    }
}

} // verus!
