//! What the host paints: one filled square for each cell of the display that
//! is on.

use crate::chip8::{grid, Chip8};
use crate::machine::{SCREEN_HEIGHT, SCREEN_WIDTH};
use vstd::prelude::*;

verus! {

/// A filled square of the host's window: its upper left corner in pixels, and
/// the length of its side.
#[derive(Clone, Copy, Debug, PartialEq, Eq, Structural)]
pub struct Block {
    pub x: i32,
    pub y: i32,
    pub side: u32,
}

/// Cells of the display.
pub const CELLS: usize = 2048;

/// Whether cell number `k` is on, the cells counted row by row from the upper
/// left corner.
pub open spec fn cell_is_on(display: Seq<Seq<bool>>, k: int) -> bool {
    display[k / (SCREEN_WIDTH as int)][k % (SCREEN_WIDTH as int)]
}

/// The square that shows cell number `k` when a cell is `scale` pixels wide.
pub open spec fn block_of_cell(k: int, scale: u32) -> Block {
    Block {
        x: ((k % (SCREEN_WIDTH as int)) * scale) as i32,
        y: ((k / (SCREEN_WIDTH as int)) * scale) as i32,
        side: scale,
    }
}

/// The squares of the cells that are on among the first `count` cells, in the
/// order of the cells.
pub open spec fn blocks_of(display: Seq<Seq<bool>>, scale: u32, count: int) -> Seq<Block>
    decreases count,
{
    if count <= 0 {
        Seq::empty()
    } else if cell_is_on(display, count - 1) {
        blocks_of(display, scale, count - 1).push(block_of_cell(count - 1, scale))
    } else {
        blocks_of(display, scale, count - 1)
    }
}

/// The squares to fill for the display as it is, a cell being `scale` pixels
/// wide: one for each cell that is on, row by row. The window must fit the
/// coordinates of a pixel: `64 * scale` is at most `i32::MAX`.
pub fn lit_blocks(chip: &Chip8, scale: u32) -> (blocks: Vec<Block>)
    requires
        SCREEN_WIDTH * scale <= i32::MAX,
    ensures
        blocks@ == blocks_of(chip@.display, scale, CELLS as int),
{
    let video = chip.get_video_memory();
    let mut blocks: Vec<Block> = Vec::new();
    for row in 0..SCREEN_HEIGHT
        invariant
            SCREEN_WIDTH * scale <= i32::MAX,
            grid(*video) == chip@.display,
            blocks@ == blocks_of(chip@.display, scale, row * SCREEN_WIDTH),
    {
        for col in 0..SCREEN_WIDTH
            invariant
                row < SCREEN_HEIGHT,
                SCREEN_WIDTH * scale <= i32::MAX,
                grid(*video) == chip@.display,
                blocks@ == blocks_of(chip@.display, scale, row * SCREEN_WIDTH + col),
        {
            let ghost k = row * SCREEN_WIDTH + col;
            assert(k / (SCREEN_WIDTH as int) == row && k % (SCREEN_WIDTH as int) == col);
            assert(col * scale <= (SCREEN_WIDTH - 1) * scale && row * scale <= (SCREEN_WIDTH - 1)
                * scale) by (nonlinear_arith)
                requires
                    col < SCREEN_WIDTH,
                    row < SCREEN_WIDTH,
            ;
            if video[row][col] {
                blocks.push(
                    Block {
                        x: (col as u32 * scale) as i32,
                        y: (row as u32 * scale) as i32,
                        side: scale,
                    },
                );
            }
        }
    }
    blocks
}

} // verus!
