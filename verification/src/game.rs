use vstd::prelude::*;

use crate::piece::Block;
use crate::piece::Tetromino;
use crate::piece::cell_x;
use crate::piece::cell_y;
use crate::piece::offsets_ok;
use crate::piece::off_x;
use crate::piece::off_y;
use crate::piece::anchor_in_range;
use crate::piece::is_empty_block;
use crate::piece::placed_as;
use crate::piece::rotated;
use crate::piece::shape_off;
use crate::piece::top_extent;
use crate::piece::left_of;
use crate::piece::right_of;
use crate::piece::down_of;
use crate::BOARD_WIDTH;
use crate::BOARD_HEIGHT;
use crate::BOARD_CELLS;
use crate::index_at;

verus! {

/// Row-major index of the block's `i`-th cell in the board grid.
pub open spec fn cell_index(b: Block, i: int) -> int {
    cell_y(b, i) * 10 + cell_x(b, i)
}

/// All four cells of the block lie inside the 10 by 22 grid.
pub open spec fn block_in_bounds(b: Block) -> bool {
    forall|i: int| #![trigger b.points@[i]] 0 <= i < 4 ==>
        0 <= cell_x(b, i) < 10 && 0 <= cell_y(b, i) < 22
}

/// All four cells of the block land on empty board cells.
pub open spec fn cells_free(board: Seq<Tetromino>, b: Block) -> bool {
    forall|i: int| #![trigger b.points@[i]] 0 <= i < 4 ==>
        board[cell_index(b, i)] == Tetromino::X
}

/// The single placement rule: the block is in bounds and collides with
/// nothing already on the board.
pub open spec fn can_place(board: Seq<Tetromino>, b: Block) -> bool {
    block_in_bounds(b) && cells_free(board, b)
}

/// Every cell of the board is empty.
pub open spec fn board_clear(board: Seq<Tetromino>) -> bool {
    forall|i: int| 0 <= i < 220 ==> board[i] == Tetromino::X
}

/// The score is far enough from `u32::MAX` that one more line clear
/// (at most 22 squared) cannot overflow it.
pub open spec fn score_headroom(score: u32) -> bool {
    score <= u32::MAX - 484
}

/// The board cell in column `x` of row `y`.
pub open spec fn at_cell(board: Seq<Tetromino>, x: int, y: int) -> Tetromino {
    board[y * 10 + x]
}

/// Every one of row `y`'s ten cells is occupied.
pub open spec fn row_complete(board: Seq<Tetromino>, y: int) -> bool {
    forall|x: int| 0 <= x < 10 ==> #[trigger] at_cell(board, x, y) != Tetromino::X
}

/// The board after collapsing row `y`: rows `y` up to the next-to-top row
/// each take the contents of the row above; the top row keeps its contents.
pub open spec fn shift_down(board: Seq<Tetromino>, y: int) -> Seq<Tetromino> {
    Seq::new(220, |i: int| if 10 * y <= i < 210 { board[i + 10] } else { board[i] })
}

/// The board after the clearing scan has processed rows `y` down to `0`:
/// each row found complete is collapsed before the scan moves down.
pub open spec fn clear_from(board: Seq<Tetromino>, y: int) -> Seq<Tetromino>
    decreases y + 1,
{
    if y < 0 {
        board
    } else if row_complete(board, y) {
        clear_from(shift_down(board, y), y - 1)
    } else {
        clear_from(board, y - 1)
    }
}

/// How many rows the clearing scan collapses while processing rows `y`
/// down to `0`.
pub open spec fn cleared_count(board: Seq<Tetromino>, y: int) -> nat
    decreases y + 1,
{
    if y < 0 {
        0
    } else if row_complete(board, y) {
        1 + cleared_count(shift_down(board, y), y - 1)
    } else {
        cleared_count(board, y - 1)
    }
}

/// How many of the rows below row `n` are complete in `board`.
pub open spec fn complete_rows(board: Seq<Tetromino>, n: int) -> nat
    decreases n,
{
    if n <= 0 {
        0
    } else {
        complete_rows(board, n - 1) + (if row_complete(board, n - 1) { 1nat } else { 0nat })
    }
}

/// Two boards that agree below row `n` have the same complete rows there.
proof fn lemma_rows_agree_count(b1: Seq<Tetromino>, b2: Seq<Tetromino>, n: int)
    requires
        forall|idx: int| 0 <= idx < 10 * n ==> b1[idx] == b2[idx],
    ensures
        complete_rows(b1, n) == complete_rows(b2, n),
    decreases n,
{
    if n > 0 {
        lemma_rows_agree_count(b1, b2, n - 1);
        assert forall|x: int|
            #![trigger at_cell(b1, x, n - 1)]
            #![trigger at_cell(b2, x, n - 1)]
            0 <= x < 10 implies at_cell(b1, x, n - 1) == at_cell(b2, x, n - 1) by {
            assert(0 <= 10 * (n - 1) + x < 10 * n);
        }
        assert(row_complete(b1, n - 1) == row_complete(b2, n - 1));
    }
}

/// Law: one clearing scan collapses exactly the rows that are complete in
/// the board it starts from, top row included; the cleared count is the
/// number of complete rows.
pub proof fn lemma_cleared_count_counts_complete_rows(board: Seq<Tetromino>, y: int)
    requires
        -1 <= y <= 21,
    ensures
        cleared_count(board, y) == complete_rows(board, y + 1),
    decreases y + 1,
{
    if y >= 0 {
        if row_complete(board, y) {
            let b1 = shift_down(board, y);
            lemma_cleared_count_counts_complete_rows(b1, y - 1);
            assert(forall|idx: int| 0 <= idx < 10 * y ==> b1[idx] == board[idx]);
            lemma_rows_agree_count(b1, board, y);
        } else {
            lemma_cleared_count_counts_complete_rows(board, y - 1);
        }
    }
}

/// The board after writing the block's first `n` cells, in order, with the
/// block's shape tag.
pub open spec fn place_step(board: Seq<Tetromino>, b: Block, n: int) -> Seq<Tetromino>
    decreases n,
{
    if n <= 0 {
        board
    } else {
        place_step(board, b, n - 1).update(cell_index(b, n - 1), b.kind)
    }
}

/// The board after lock-in: all four cells of the block are written with the
/// block's shape tag.
pub open spec fn place_block(board: Seq<Tetromino>, b: Block) -> Seq<Tetromino> {
    place_step(board, b, 4)
}

/// Law: after lock-in, every cell the piece occupied holds the piece's
/// shape tag in the board.
pub proof fn lemma_lock_writes_piece_cells(board: Seq<Tetromino>, b: Block)
    requires
        board.len() == 220,
        block_in_bounds(b),
    ensures
        forall|i: int| 0 <= i < 4 ==> place_block(board, b)[#[trigger] cell_index(b, i)] == b.kind,
{
    let p0 = board;
    let p1 = p0.update(cell_index(b, 0), b.kind);
    let p2 = p1.update(cell_index(b, 1), b.kind);
    let p3 = p2.update(cell_index(b, 2), b.kind);
    let p4 = p3.update(cell_index(b, 3), b.kind);
    assert(place_step(board, b, 0) == p0);
    assert(place_step(board, b, 1) == p1);
    assert(place_step(board, b, 2) == p2);
    assert(place_step(board, b, 3) == p3);
    assert(place_step(board, b, 4) == p4);
    assert forall|i: int| 0 <= i < 4 implies place_block(board, b)[#[trigger] cell_index(b, i)] == b.kind by {
        assert(0 <= cell_index(b, i) < 220);
        if i == 0 {
            assert(p1[cell_index(b, 0)] == b.kind);
        } else if i == 1 {
            assert(p2[cell_index(b, 1)] == b.kind);
        } else if i == 2 {
            assert(p3[cell_index(b, 2)] == b.kind);
        }
    }
}

/// Type of the key.
#[derive(Copy, Clone, Debug)]
pub enum Key {
    LEFT,
    RIGHT,
    UP,
    DOWN,
    SP,
    OTHER,
}

/// Column of the `i`-th cell of a piece of shape `k` freshly spawned at the
/// horizontal center of the board.
pub open spec fn spawn_cell_x(k: Tetromino, i: int) -> int {
    5 + shape_off(k, i).0
}

/// Row of the `i`-th cell of a piece of shape `k` freshly spawned with its
/// topmost cell at the top row.
pub open spec fn spawn_cell_y(k: Tetromino, i: int) -> int {
    21 - top_extent(k) + shape_off(k, i).1
}

/// A piece of shape `k` freshly spawned at the center top lands on empty
/// cells only. Its cells are always inside the grid, so this alone decides
/// whether the spawn succeeds.
pub open spec fn spawn_free(board: Seq<Tetromino>, k: Tetromino) -> bool {
    forall|i: int| 0 <= i < 4 ==>
        #[trigger] at_cell(board, spawn_cell_x(k, i), spawn_cell_y(k, i)) == Tetromino::X
}

/// What handing `cand` to `try_move` does to the state.
pub open spec fn try_outcome(pre: Tetris, post: Tetris, cand: Block) -> bool {
    if can_place(pre.board@, cand) {
        &&& post.board == pre.board
        &&& post.current == cand
        &&& post.stopped == pre.stopped
        &&& post.time == pre.time
        &&& post.score == pre.score
    } else {
        post == pre
    }
}

/// What one spawn attempt with shape `k` does: on success the fresh piece
/// becomes active and the game runs; on collision only the stop flag
/// changes, to true. The board, score and timer never change.
pub open spec fn spawn_attempt(pre: Tetris, post: Tetris, k: Tetromino) -> bool {
    &&& k != Tetromino::X
    &&& post.board == pre.board
    &&& post.score == pre.score
    &&& post.time == pre.time
    &&& if spawn_free(pre.board@, k) {
            placed_as(post.current, k, 5, 21) && post.stopped == false
        } else {
            post.current == pre.current && post.stopped == true
        }
}

/// What lock-in does to a state made of `board`, `score` and `time` when the
/// piece `cur` locks: its four cells are written with its shape tag,
/// complete rows collapse, the score grows by the square of the cleared
/// count, and a spawn of shape `k` is attempted on the result.
pub open spec fn lock_post(
    board: Seq<Tetromino>,
    score: u32,
    time: u64,
    cur: Block,
    post: Tetris,
    k: Tetromino,
) -> bool {
    let placed = place_block(board, cur);
    let n = cleared_count(placed, 21);
    &&& k != Tetromino::X
    &&& post.board@ == clear_from(placed, 21)
    &&& post.score == score + n * n
    &&& post.time == time
    &&& if spawn_free(clear_from(placed, 21), k) {
            placed_as(post.current, k, 5, 21) && post.stopped == false
        } else {
            is_empty_block(post.current) && post.stopped == true
        }
}

/// What one gravity step does: the piece moves one row down if the board
/// lets it; otherwise it locks in, `k` being the shape the spawn that
/// follows the lock draws.
pub open spec fn down_post(pre: Tetris, post: Tetris, k: Tetromino) -> bool {
    if can_place(pre.board@, down_of(pre.current)) {
        try_outcome(pre, post, down_of(pre.current))
    } else {
        lock_post(pre.board@, pre.score, pre.time, pre.current, post, k)
    }
}

/// How many rows the piece can fall: one row at a time, until the next
/// position collides or the anchor reaches the floor row.
pub open spec fn drop_steps(board: Seq<Tetromino>, b: Block) -> nat
    decreases b.y,
{
    if b.y <= 0 {
        0
    } else if can_place(board, down_of(b)) {
        1 + drop_steps(board, down_of(b))
    } else {
        0
    }
}

/// The piece at the end of its fall.
pub open spec fn fallen(board: Seq<Tetromino>, b: Block) -> Block {
    Block { y: (b.y - drop_steps(board, b)) as i32, ..b }
}

/// What a hard drop does: the piece falls as far as the board lets it, then
/// locks in regardless of whether it moved, `k` being the shape the spawn
/// that follows the lock draws.
pub open spec fn drop_post(pre: Tetris, post: Tetris, k: Tetromino) -> bool {
    lock_post(pre.board@, pre.score, pre.time, fallen(pre.board@, pre.current), post, k)
}

/// Milliseconds between gravity steps: 1000 less the score, floored at 0.
pub open spec fn gravity_delay(score: u32) -> int {
    if score >= 1000 { 0 } else { 1000 - score }
}

/// What one timer tick at `now` does: nothing while stopped; a spawn attempt
/// while no piece is falling; one gravity step, and a timer reset to `now`,
/// once more than the gravity delay has passed since the last step; nothing
/// otherwise.
pub open spec fn tick_post(pre: Tetris, post: Tetris, k: Tetromino, now: u64) -> bool {
    if pre.stopped {
        post == pre
    } else if pre.current.kind == Tetromino::X {
        spawn_attempt(pre, post, k)
    } else if now - pre.time > gravity_delay(pre.score) {
        if can_place(pre.board@, down_of(pre.current)) {
            &&& post.board == pre.board
            &&& post.current == down_of(pre.current)
            &&& post.stopped == pre.stopped
            &&& post.time == now
            &&& post.score == pre.score
        } else {
            lock_post(pre.board@, pre.score, now, pre.current, post, k)
        }
    } else {
        post == pre
    }
}

/// A piece whose four cells lie in the grid has its anchor within two cells
/// of it, far inside the range that candidate building needs.
pub(crate) proof fn lemma_in_bounds_anchor(b: Block)
    requires
        offsets_ok(b),
        block_in_bounds(b),
    ensures
        -2 <= b.x <= 11,
        -2 <= b.y <= 23,
        anchor_in_range(b),
{
    assert(0 <= cell_x(b, 0) < 10);
    assert(-2 <= off_x(b, 0) <= 2);
    assert(0 <= cell_y(b, 0) < 22);
    assert(-2 <= off_y(b, 0) <= 2);
}

/// A piece freshly spawned at the center top is well-formed, its cells are
/// inside the grid, and placing it succeeds exactly when its cells are free.
proof fn lemma_spawn_candidate(board: Seq<Tetromino>, k: Tetromino, b: Block)
    requires
        k != Tetromino::X,
        placed_as(b, k, 5, 21),
    ensures
        offsets_ok(b),
        anchor_in_range(b),
        block_in_bounds(b),
        can_place(board, b) == spawn_free(board, k),
{
    assert forall|i: int| #![trigger b.points@[i]] 0 <= i < 4 implies
        -2 <= off_x(b, i) <= 2 && -2 <= off_y(b, i) <= 2
        && 0 <= cell_x(b, i) < 10 && 0 <= cell_y(b, i) < 22 by {
        assert(off_x(b, i) == shape_off(k, i).0);
        assert(off_y(b, i) == shape_off(k, i).1);
    }
    assert forall|i: int|
        #![trigger b.points@[i]]
        #![trigger at_cell(board, spawn_cell_x(k, i), spawn_cell_y(k, i))]
        0 <= i < 4 implies
        board[cell_index(b, i)] == at_cell(board, spawn_cell_x(k, i), spawn_cell_y(k, i)) by {
        assert(cell_x(b, i) == spawn_cell_x(k, i));
        assert(cell_y(b, i) == spawn_cell_y(k, i));
    }
    assert(cells_free(board, b) == spawn_free(board, k));
}

/// Game of tetris: the board grid, the falling piece, the score, the stop
/// flag, and the time of the last gravity step in milliseconds.
pub struct Tetris {
    pub board: [Tetromino; BOARD_CELLS],
    pub current: Block,
    pub stopped: bool,
    pub time: u64,
    pub score: u32,
}

impl Tetris {
    /// The state invariant: the active piece is either the empty sentinel or
    /// a piece whose four cells were validated to lie inside the grid.
    pub open spec fn wf(self) -> bool {
        if self.current.kind == Tetromino::X {
            is_empty_block(self.current)
        } else {
            offsets_ok(self.current) && block_in_bounds(self.current)
        }
    }

    /// A fresh game: empty board, no falling piece, score 0, running, with
    /// the gravity timer at 0 milliseconds.
    pub fn new() -> (r: Tetris)
        ensures
            r.wf(),
            board_clear(r.board@),
            is_empty_block(r.current),
            r.stopped == false,
            r.score == 0,
            r.time == 0,
    {
        Tetris {
            board: [Tetromino::X; BOARD_CELLS],
            current: Block::empty(),
            stopped: false,
            time: 0,
            score: 0,
        }
    }

    /// Restart: reinitialize every field as construction does, with the
    /// gravity timer restarted at `now_ms`.
    pub fn rerun(&mut self, now_ms: u64)
        ensures
            final(self).wf(),
            board_clear(final(self).board@),
            is_empty_block(final(self).current),
            final(self).stopped == false,
            final(self).score == 0,
            final(self).time == now_ms,
    {
        self.board = [Tetromino::X; BOARD_CELLS];
        self.current = Block::empty();
        self.stopped = false;
        self.time = now_ms;
        self.score = 0;
    }

    /// Validates all four absolute cells of `block`: each must be inside the
    /// grid and land on an empty board cell. If every cell passes, `block`
    /// becomes the active piece and the call returns true; otherwise nothing
    /// at all changes and the call returns false.
    pub fn try_move(&mut self, block: Block) -> (r: bool)
        requires
            old(self).wf(),
            offsets_ok(block),
            anchor_in_range(block),
            block.kind != Tetromino::X,
        ensures
            final(self).wf(),
            r == can_place(old(self).board@, block),
            r ==> final(self).board == old(self).board
                && final(self).current == block
                && final(self).stopped == old(self).stopped
                && final(self).time == old(self).time
                && final(self).score == old(self).score,
            !r ==> *final(self) == *old(self),
    {
        let mut i: usize = 0;
        while i < 4
            invariant
                i <= 4,
                offsets_ok(block),
                anchor_in_range(block),
                *self == *old(self),
                old(self).wf(),
                forall|j: int| #![trigger block.points@[j]] 0 <= j < i ==>
                    0 <= cell_x(block, j) < 10 && 0 <= cell_y(block, j) < 22
                    && old(self).board@[cell_index(block, j)] == Tetromino::X,
            decreases 4 - i,
        {
            let (x, y) = block.point(i);
            if x < 0 || x >= BOARD_WIDTH || y < 0 || y >= BOARD_HEIGHT {
                return false;
            }
            if self.board[index_at(x, y)] != Tetromino::X {
                return false;
            }
            i = i + 1;
        }
        self.current = block;
        true
    }

    /// Whether every cell of row `y` is occupied.
    fn row_filled(&self, y: i32) -> (r: bool)
        requires
            0 <= y < 22,
        ensures
            r == row_complete(self.board@, y as int),
    {
        let mut x: i32 = 0;
        while x < BOARD_WIDTH
            invariant
                0 <= x <= 10,
                0 <= y < 22,
                forall|j: int| 0 <= j < x ==> #[trigger] at_cell(self.board@, j, y as int) != Tetromino::X,
            decreases 10 - x,
        {
            if self.board[index_at(x, y)] == Tetromino::X {
                proof {
                    assert(at_cell(self.board@, x as int, y as int) == Tetromino::X);
                }
                return false;
            }
            proof {
                assert(at_cell(self.board@, x as int, y as int) != Tetromino::X);
            }
            x = x + 1;
        }
        true
    }

    /// Scans rows from the top down; each complete row is collapsed, with
    /// every row above it copied one row down (the top row keeps its
    /// contents). The score grows by the square of the number of collapsed
    /// rows and the active piece is reset to the empty sentinel.
    pub fn remove_complete_lines(&mut self)
        requires
            old(self).wf(),
            score_headroom(old(self).score),
        ensures
            final(self).wf(),
            final(self).board@ == clear_from(old(self).board@, 21),
            final(self).score == old(self).score
                + cleared_count(old(self).board@, 21) * cleared_count(old(self).board@, 21),
            is_empty_block(final(self).current),
            final(self).stopped == old(self).stopped,
            final(self).time == old(self).time,
    {
        let mut line_count: u32 = 0;
        let ghost b0 = self.board@;
        let mut y: i32 = BOARD_HEIGHT - 1;
        while y >= 0
            invariant
                -1 <= y <= 21,
                line_count <= 21 - y,
                clear_from(b0, 21) == clear_from(self.board@, y as int),
                cleared_count(b0, 21) == line_count + cleared_count(self.board@, y as int),
                self.current == old(self).current,
                self.stopped == old(self).stopped,
                self.time == old(self).time,
                self.score == old(self).score,
            decreases y + 1,
        {
            let complete = self.row_filled(y);
            if complete {
                line_count = line_count + 1;
                let ghost bpre = self.board@;
                let mut dy: i32 = y;
                while dy < BOARD_HEIGHT - 1
                    invariant
                        0 <= y <= dy <= 21,
                        forall|idx: int| #![trigger self.board@[idx]]
                            0 <= idx < 220 && !(10 * y <= idx < 10 * dy) ==> self.board@[idx] == bpre[idx],
                        forall|idx: int| #![trigger self.board@[idx]]
                            10 * y <= idx < 10 * dy ==> self.board@[idx] == bpre[idx + 10],
                        self.current == old(self).current,
                        self.stopped == old(self).stopped,
                        self.time == old(self).time,
                        self.score == old(self).score,
                    decreases 21 - dy,
                {
                    let mut x: i32 = 0;
                    while x < BOARD_WIDTH
                        invariant
                            0 <= x <= 10,
                            0 <= y <= dy <= 20,
                            forall|idx: int| #![trigger self.board@[idx]]
                                0 <= idx < 220 && !(10 * y <= idx < 10 * dy + x) ==> self.board@[idx] == bpre[idx],
                            forall|idx: int| #![trigger self.board@[idx]]
                                10 * y <= idx < 10 * dy + x ==> self.board@[idx] == bpre[idx + 10],
                            self.current == old(self).current,
                            self.stopped == old(self).stopped,
                            self.time == old(self).time,
                            self.score == old(self).score,
                        decreases 10 - x,
                    {
                        let above = self.board[index_at(x, dy + 1)];
                        self.board[index_at(x, dy)] = above;
                        x = x + 1;
                    }
                    dy = dy + 1;
                }
                proof {
                    assert(self.board@ =~= shift_down(bpre, y as int));
                }
            }
            y = y - 1;
        }
        proof {
            assert(line_count * line_count <= 484) by (nonlinear_arith)
                requires line_count <= 22u32,
            ;
        }
        self.score = self.score + line_count * line_count;
        self.current = Block::empty();
    }

    /// Spawns a new piece of uniformly random shape at the horizontal center
    /// of the board, its topmost cell at the top row, via `try_move`. A
    /// blocked spawn stops the game; this is the game-over condition.
    pub fn put_block(&mut self)
        requires
            old(self).wf(),
        ensures
            final(self).wf(),
            exists|k: Tetromino| spawn_attempt(*old(self), *final(self), k),
    {
        let kind = Tetromino::sample();
        self.put_block_kind(kind);
    }

    /// Spawns a new piece of the given shape at the horizontal center of the
    /// board, its topmost cell at the top row, via `try_move`. A blocked
    /// spawn stops the game.
    pub fn put_block_kind(&mut self, kind: Tetromino)
        requires
            old(self).wf(),
            kind != Tetromino::X,
        ensures
            final(self).wf(),
            spawn_attempt(*old(self), *final(self), kind),
    {
        let b = Block::with_kind(kind, BOARD_WIDTH / 2, BOARD_HEIGHT - 1);
        proof {
            lemma_spawn_candidate(self.board@, kind, b);
        }
        let moved = self.try_move(b);
        self.stopped = !moved;
    }

    /// One gravity step: move the active piece one row down, or lock it in
    /// if the board does not let it move.
    pub fn down(&mut self)
        requires
            old(self).wf(),
            old(self).current.kind != Tetromino::X,
            score_headroom(old(self).score),
        ensures
            final(self).wf(),
            exists|k: Tetromino| down_post(*old(self), *final(self), k),
    {
        proof {
            lemma_in_bounds_anchor(self.current);
        }
        let cand = self.current.down();
        let moved = self.try_move(cand);
        if !moved {
            let ghost mid = *self;
            self.block_dropped();
            proof {
                let k = choose|k: Tetromino|
                    lock_post(mid.board@, mid.score, mid.time, mid.current, *self, k);
                assert(down_post(*old(self), *self, k));
            }
        } else {
            proof {
                // no lock happened, so down_post ignores which shape the
                // witness names
                assert(down_post(*old(self), *self, Tetromino::S));
            }
        }
    }

    /// Hard drop: the active piece falls one row at a time until the board
    /// stops it or its anchor reaches the floor row, then locks in, whether
    /// or not it moved at all.
    pub fn drop_down(&mut self)
        requires
            old(self).wf(),
            old(self).current.kind != Tetromino::X,
            score_headroom(old(self).score),
        ensures
            final(self).wf(),
            exists|k: Tetromino| drop_post(*old(self), *final(self), k),
    {
        let ghost b0 = self.board@;
        let ghost cur0 = self.current;
        let mut blocked = false;
        while self.current.y > 0 && !blocked
            invariant
                self.wf(),
                self.board@ == b0,
                self.stopped == old(self).stopped,
                self.time == old(self).time,
                self.score == old(self).score,
                self.current.kind == cur0.kind,
                cur0 == old(self).current,
                b0 == old(self).board@,
                old(self).wf(),
                old(self).current.kind != Tetromino::X,
                score_headroom(old(self).score),
                (if blocked { self.current == fallen(b0, cur0) } else { fallen(b0, cur0) == fallen(b0, self.current) }),
            decreases self.current.y + (if blocked { 0int } else { 1int }),
        {
            proof {
                lemma_in_bounds_anchor(self.current);
            }
            let ghost before = self.current;
            let cand = self.current.down();
            let moved = self.try_move(cand);
            if !moved {
                blocked = true;
            }
            proof {
                assert(cand == down_of(before));
                if moved {
                    assert(drop_steps(b0, before) == 1 + drop_steps(b0, down_of(before)));
                    assert(fallen(b0, before) == fallen(b0, self.current));
                } else {
                    assert(drop_steps(b0, before) == 0);
                    assert(fallen(b0, before) == before);
                }
            }
        }
        proof {
            if !blocked {
                assert(drop_steps(b0, self.current) == 0);
                assert(fallen(b0, self.current) == self.current);
            }
            assert(self.current == fallen(b0, cur0));
        }
        let ghost mid = *self;
        self.block_dropped();
        proof {
            let k = choose|k: Tetromino|
                lock_post(mid.board@, mid.score, mid.time, mid.current, *self, k);
            assert(drop_post(*old(self), *self, k));
        }
    }

    /// Lock-in: writes the active piece's four cells into the board with its
    /// shape tag, collapses complete rows, and, the piece now gone, spawns
    /// the next one.
    pub fn block_dropped(&mut self)
        requires
            old(self).wf(),
            old(self).current.kind != Tetromino::X,
            score_headroom(old(self).score),
        ensures
            final(self).wf(),
            exists|k: Tetromino|
                lock_post(old(self).board@, old(self).score, old(self).time, old(self).current, *final(self), k),
    {
        let ghost b0 = self.board@;
        let ghost cur0 = self.current;
        proof {
            lemma_in_bounds_anchor(self.current);
        }
        let mut i: usize = 0;
        while i < 4
            invariant
                i <= 4,
                old(self).wf(),
                offsets_ok(cur0),
                block_in_bounds(cur0),
                anchor_in_range(cur0),
                cur0 == old(self).current,
                b0 == old(self).board@,
                self.current == old(self).current,
                self.stopped == old(self).stopped,
                self.time == old(self).time,
                self.score == old(self).score,
                self.board@ == place_step(b0, cur0, i as int),
            decreases 4 - i,
        {
            let (x, y) = self.current.point(i);
            let idx = index_at(x, y);
            self.board[idx] = self.current.kind;
            i = i + 1;
        }
        self.remove_complete_lines();
        let ghost mid = *self;
        if self.current.is_empty() {
            self.put_block();
        }
        proof {
            let k = choose|k: Tetromino| spawn_attempt(mid, *self, k);
            assert(lock_post(old(self).board@, old(self).score, old(self).time, old(self).current, *self, k));
        }
    }

    /// One timer tick at `now_ms` milliseconds: ignored while the game is
    /// stopped; with no piece falling a new one is spawned; otherwise, once
    /// more than `max(0, 1000 - score)` milliseconds have passed since the
    /// last gravity step, the piece takes one gravity step and the timer
    /// resets to `now_ms`.
    pub fn tick(&mut self, now_ms: u64)
        requires
            old(self).wf(),
            score_headroom(old(self).score),
            now_ms >= old(self).time,
        ensures
            final(self).wf(),
            exists|k: Tetromino| tick_post(*old(self), *final(self), k, now_ms),
    {
        if self.stopped {
            proof {
                // nothing happened, so tick_post ignores which shape the
                // witness names
                assert(tick_post(*old(self), *self, Tetromino::S, now_ms));
            }
            return;
        }
        if self.current.is_empty() {
            self.put_block();
            proof {
                let k = choose|k: Tetromino| spawn_attempt(*old(self), *self, k);
                assert(tick_post(*old(self), *self, k, now_ms));
            }
        } else {
            let delay: u64 = if self.score >= 1000 { 0 } else { (1000 - self.score) as u64 };
            if now_ms - self.time > delay {
                self.down();
                let ghost s1 = *self;
                self.time = now_ms;
                proof {
                    let k = choose|k: Tetromino| down_post(*old(self), s1, k);
                    assert(tick_post(*old(self), *self, k, now_ms));
                }
            } else {
                proof {
                    assert(tick_post(*old(self), *self, Tetromino::S, now_ms));
                }
            }
        }
    }

    /// Handles one key intent: the arrows move or rotate the falling piece,
    /// space hard-drops it, anything else soft-drops it. Ignored while the
    /// game is stopped or no piece is falling.
    pub fn key_pressed(&mut self, key: Key)
        requires
            old(self).wf(),
            score_headroom(old(self).score),
        ensures
            final(self).wf(),
            (old(self).stopped || old(self).current.kind == Tetromino::X) ==> *final(self) == *old(self),
            !(old(self).stopped || old(self).current.kind == Tetromino::X) ==> match key {
                Key::LEFT => try_outcome(*old(self), *final(self), left_of(old(self).current)),
                Key::RIGHT => try_outcome(*old(self), *final(self), right_of(old(self).current)),
                Key::UP => exists|c: Block|
                    rotated(old(self).current, true, c) && try_outcome(*old(self), *final(self), c),
                Key::DOWN => exists|c: Block|
                    rotated(old(self).current, false, c) && try_outcome(*old(self), *final(self), c),
                Key::OTHER => exists|k: Tetromino| down_post(*old(self), *final(self), k),
                Key::SP => exists|k: Tetromino| drop_post(*old(self), *final(self), k),
            },
    {
        if self.stopped || self.current.is_empty() {
            return;
        }
        proof {
            lemma_in_bounds_anchor(self.current);
        }
        match key {
            Key::LEFT => {
                let cand = self.current.left();
                self.try_move(cand);
            },
            Key::RIGHT => {
                let cand = self.current.right();
                self.try_move(cand);
            },
            Key::UP => {
                let cand = self.current.rotate_right();
                self.try_move(cand);
            },
            Key::DOWN => {
                let cand = self.current.rotate_left();
                self.try_move(cand);
            },
            Key::OTHER => {
                self.down();
            },
            Key::SP => {
                self.drop_down();
            },
        }
    }

    /// The current score.
    pub fn score(&self) -> (r: u32)
        ensures
            r == self.score,
    {
        self.score
    }

    /// Whether the game has stopped: a blocked spawn was the end of a game.
    pub fn is_over(&self) -> (r: bool)
        ensures
            r == self.stopped,
    {
        self.stopped
    }
}

} // verus!
