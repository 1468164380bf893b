//! From the framebuffer to what is painted: one square block per lit pixel.

use vstd::prelude::*;
use crate::machine::SCREEN_WIDTH;
use crate::machine::SCREEN_HEIGHT;
use crate::machine::grid;

verus! {

/// Side of the square, in window pixels, that one framebuffer pixel is
/// painted as.
pub const SCALE_FACTOR: u32 = 12;

/// Width of the window that shows the whole framebuffer.
pub const WINDOW_WIDTH: u32 = 768;

/// Height of the window that shows the whole framebuffer.
pub const WINDOW_HEIGHT: u32 = 384;

/// A rectangle of the window: its top left corner and its size.
#[derive(Debug, Clone, Copy, PartialEq, Eq)]
pub struct Block {
    pub x: i32,
    pub y: i32,
    pub width: u32,
    pub height: u32,
}

/// The block that framebuffer pixel (`row`, `col`) is painted as.
pub open spec fn block_at(row: int, col: int) -> Block {
    Block { x: (col * 12) as i32, y: (row * 12) as i32, width: 12, height: 12 }
}

/// The blocks of the lit pixels among the first `count` pixels of the
/// framebuffer, counted row by row from the top left.
pub open spec fn lit_among(screen: Seq<Seq<bool>>, count: nat) -> Seq<Block>
    decreases count,
{
    if count == 0 {
        Seq::empty()
    } else {
        let before = lit_among(screen, (count - 1) as nat);
        let row = (count - 1) / 64;
        let col = (count - 1) % 64;
        if screen[row][col] {
            before.push(block_at(row, col))
        } else {
            before
        }
    }
}

/// The blocks to paint for a framebuffer: one for each lit pixel, row by
/// row from the top left.
pub fn lit_blocks(screen: &[[bool; SCREEN_WIDTH]; SCREEN_HEIGHT]) -> (blocks: Vec<Block>)
    ensures
        blocks@ == lit_among(grid(*screen), 2048),
{
    let mut blocks: Vec<Block> = Vec::new();
    let mut y: usize = 0;
    while y < SCREEN_HEIGHT
        invariant
            y <= 32,
            blocks@ == lit_among(grid(*screen), (y * 64) as nat),
        decreases 32 - y,
    {
        let mut x: usize = 0;
        while x < SCREEN_WIDTH
            invariant
                y < 32,
                x <= 64,
                blocks@ == lit_among(grid(*screen), (y * 64 + x) as nat),
            decreases 64 - x,
        {
            if screen[y][x] {
                blocks.push(
                    Block {
                        x: (x as u32 * SCALE_FACTOR) as i32,
                        y: (y as u32 * SCALE_FACTOR) as i32,
                        width: SCALE_FACTOR,
                        height: SCALE_FACTOR,
                    },
                );
            }
            x += 1;
        }
        y += 1;
    }
    blocks
}

} // verus!
