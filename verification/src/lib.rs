//! The rule engine of a falling-block puzzle game: the seven tetromino
//! shapes and their rotation, the 10 by 22 board with its single placement
//! rule, line clearing and scoring, gravity timing, and a read-only render
//! query. Windowing, input decoding and pixel presentation live outside the
//! library and talk to it through plain values.

use vstd::prelude::*;

pub mod piece;
pub mod game;
pub mod render;

verus! {

/// Width of the playing field, in cells.
pub const BOARD_WIDTH: i32 = 10;

/// Height of the playing field, in cells.
pub const BOARD_HEIGHT: i32 = 22;

/// Number of cells in the playing field.
pub const BOARD_CELLS: usize = 220;

/// Row-major index of the cell at `(x, y)`: `y` counts rows up from the floor.
pub fn index_at(x: i32, y: i32) -> (r: usize)
    requires
        0 <= x < 10,
        0 <= y < 22,
    ensures
        r == y * 10 + x,
{
    (y * BOARD_WIDTH + x) as usize
}

} // verus!
