use vstd::prelude::*;

use crate::piece::Block;
use crate::piece::Tetromino;
use crate::piece::cell_x;
use crate::piece::cell_y;
use crate::game::Tetris;
use crate::game::lemma_in_bounds_anchor;
use crate::BOARD_WIDTH;
use crate::BOARD_HEIGHT;
use crate::index_at;

verus! {

/// The occupied board cells among the first `n`, scanned bottom row first
/// and left to right, each as `(column, row, shape tag)`.
pub open spec fn board_cells_upto(board: Seq<Tetromino>, n: int) -> Seq<(i32, i32, Tetromino)>
    decreases n,
{
    if n <= 0 {
        Seq::empty()
    } else if board[n - 1] != Tetromino::X {
        board_cells_upto(board, n - 1).push(
            (((n - 1) % 10) as i32, ((n - 1) / 10) as i32, board[n - 1]),
        )
    } else {
        board_cells_upto(board, n - 1)
    }
}

/// The four cells of the active piece, each with its shape tag; empty while
/// no piece is falling.
pub open spec fn piece_cells(b: Block) -> Seq<(i32, i32, Tetromino)> {
    if b.kind == Tetromino::X {
        Seq::empty()
    } else {
        seq![
            (cell_x(b, 0) as i32, cell_y(b, 0) as i32, b.kind),
            (cell_x(b, 1) as i32, cell_y(b, 1) as i32, b.kind),
            (cell_x(b, 2) as i32, cell_y(b, 2) as i32, b.kind),
            (cell_x(b, 3) as i32, cell_y(b, 3) as i32, b.kind),
        ]
    }
}

impl Tetris {
    /// The render query: every occupied board cell, scanned bottom row first
    /// and left to right, then the four cells of the active piece, each as
    /// `(column, row, shape tag)` for the surface to paint. Read-only.
    pub fn render(&self) -> (r: Vec<(i32, i32, Tetromino)>)
        requires
            self.wf(),
        ensures
            r@ == board_cells_upto(self.board@, 220) + piece_cells(self.current),
    {
        let mut r: Vec<(i32, i32, Tetromino)> = Vec::new();
        let mut y: i32 = 0;
        while y < BOARD_HEIGHT
            invariant
                0 <= y <= 22,
                r@ == board_cells_upto(self.board@, 10 * y),
            decreases 22 - y,
        {
            let mut x: i32 = 0;
            while x < BOARD_WIDTH
                invariant
                    0 <= y < 22,
                    0 <= x <= 10,
                    r@ == board_cells_upto(self.board@, 10 * y + x),
                decreases 10 - x,
            {
                let kind = self.board[index_at(x, y)];
                if kind != Tetromino::X {
                    r.push((x, y, kind));
                }
                proof {
                    let n = 10 * (y as int) + (x as int) + 1;
                    assert((n - 1) % 10 == x as int && (n - 1) / 10 == y as int) by (nonlinear_arith)
                        requires n == 10 * (y as int) + (x as int) + 1 && 0 <= x < 10 && 0 <= y,
                    ;
                    assert(r@ == board_cells_upto(self.board@, n));
                }
                x = x + 1;
            }
            y = y + 1;
        }
        if !self.current.is_empty() {
            proof {
                lemma_in_bounds_anchor(self.current);
            }
            let ghost base = r@;
            let mut i: usize = 0;
            while i < 4
                invariant
                    i <= 4,
                    self.wf(),
                    self.current.kind != Tetromino::X,
                    base == board_cells_upto(self.board@, 220),
                    r@ == base + piece_cells(self.current).take(i as int),
                decreases 4 - i,
            {
                let (px, py) = self.current.point(i);
                r.push((px, py, self.current.kind));
                proof {
                    assert(piece_cells(self.current).take(i + 1)
                        =~= piece_cells(self.current).take(i as int).push(
                            (cell_x(self.current, i as int) as i32, cell_y(self.current, i as int) as i32, self.current.kind),
                        ));
                }
                i = i + 1;
            }
            proof {
                assert(piece_cells(self.current).take(4) =~= piece_cells(self.current));
            }
        } else {
            proof {
                assert(r@ =~= board_cells_upto(self.board@, 220) + piece_cells(self.current));
            }
        }
        r
    }
}

} // verus!
