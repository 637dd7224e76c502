use vstd::prelude::*;

verus! {

/// Tetromino is a geometric shape composed of four squares, connected
/// orthogonally. `X` is the sentinel for "no piece".
#[derive(Copy, Clone, Debug, PartialEq, Eq, Structural)]
pub enum Tetromino {
    S,
    Z,
    I,
    T,
    O,
    J,
    L,
    X,
}

/// The `i`-th relative cell offset `(dx, dy)` of a shape around its pivot.
pub open spec fn shape_off(k: Tetromino, i: int) -> (int, int) {
    match k {
        Tetromino::S => if i == 0 { (0, -1) } else if i == 1 { (0, 0) } else if i == 2 { (-1, 0) } else { (-1, 1) },
        Tetromino::Z => if i == 0 { (0, -1) } else if i == 1 { (0, 0) } else if i == 2 { (1, 0) } else { (1, 1) },
        Tetromino::I => if i == 0 { (0, -1) } else if i == 1 { (0, 0) } else if i == 2 { (0, 1) } else { (0, 2) },
        Tetromino::T => if i == 0 { (-1, 0) } else if i == 1 { (0, 0) } else if i == 2 { (1, 0) } else { (0, -1) },
        Tetromino::O => if i == 0 { (0, 0) } else if i == 1 { (1, 0) } else if i == 2 { (0, 1) } else { (1, 1) },
        Tetromino::J => if i == 0 { (-1, -1) } else if i == 1 { (0, -1) } else if i == 2 { (0, 0) } else { (0, 1) },
        Tetromino::L => if i == 0 { (1, -1) } else if i == 1 { (0, -1) } else if i == 2 { (0, 0) } else { (0, 1) },
        Tetromino::X => (0, 0),
    }
}

/// The largest `dy` among a shape's four offsets: how far the shape reaches
/// above its pivot.
pub open spec fn top_extent(k: Tetromino) -> int {
    match k {
        Tetromino::I => 2,
        Tetromino::T => 0,
        Tetromino::X => 0,
        _ => 1,
    }
}

/// The RGB triple a shape is drawn with; black for the empty sentinel.
pub open spec fn color_of(k: Tetromino) -> (u8, u8, u8) {
    match k {
        Tetromino::S => (204u8, 102u8, 102u8),
        Tetromino::Z => (102u8, 204u8, 102u8),
        Tetromino::I => (104u8, 102u8, 204u8),
        Tetromino::T => (204u8, 204u8, 102u8),
        Tetromino::O => (204u8, 102u8, 204u8),
        Tetromino::J => (204u8, 204u8, 204u8),
        Tetromino::L => (218u8, 170u8, 0u8),
        Tetromino::X => (0u8, 0u8, 0u8),
    }
}

/// The shape drawn for index `n`: indices `0` to `6` name the seven playable
/// shapes; anything else falls back to the empty sentinel.
pub open spec fn kind_of_index(n: int) -> Tetromino {
    if n == 0 { Tetromino::S }
    else if n == 1 { Tetromino::Z }
    else if n == 2 { Tetromino::I }
    else if n == 3 { Tetromino::T }
    else if n == 4 { Tetromino::O }
    else if n == 5 { Tetromino::J }
    else if n == 6 { Tetromino::L }
    else { Tetromino::X }
}

/// Relies on rand::random: draws a value of type `T` from the thread-local
/// generator; nothing is promised of which value comes back.
pub assume_specification<T>[ rand::random::<T> ]() -> (r: T)
    where
        rand::distributions::Standard: rand::distributions::Distribution<T>,
;

impl Tetromino {
    /// A uniformly random playable shape; never the empty sentinel.
    pub fn sample() -> (r: Tetromino)
        ensures
            r != Tetromino::X,
    {
        let n = rand::random::<u32>();
        Tetromino::from_index(n % 7)
    }

    /// The playable shape numbered `n`.
    pub fn from_index(n: u32) -> (r: Tetromino)
        requires
            n < 7,
        ensures
            r == kind_of_index(n as int),
            r != Tetromino::X,
    {
        match n {
            0 => Tetromino::S,
            1 => Tetromino::Z,
            2 => Tetromino::I,
            3 => Tetromino::T,
            4 => Tetromino::O,
            5 => Tetromino::J,
            6 => Tetromino::L,
            _ => Tetromino::X,
        }
    }

    /// The four relative cell offsets of this shape, pivot-centered.
    pub fn shape(&self) -> (r: [[i32; 2]; 4])
        ensures
            forall|i: int| #![trigger r@[i]] 0 <= i < 4 ==> r[i][0] == shape_off(*self, i).0 && r[i][1] == shape_off(*self, i).1,
    {
        match self {
            Tetromino::S => [[0, -1], [0, 0], [-1, 0], [-1, 1]],
            Tetromino::Z => [[0, -1], [0, 0], [1, 0], [1, 1]],
            Tetromino::I => [[0, -1], [0, 0], [0, 1], [0, 2]],
            Tetromino::T => [[-1, 0], [0, 0], [1, 0], [0, -1]],
            Tetromino::O => [[0, 0], [1, 0], [0, 1], [1, 1]],
            Tetromino::J => [[-1, -1], [0, -1], [0, 0], [0, 1]],
            Tetromino::L => [[1, -1], [0, -1], [0, 0], [0, 1]],
            Tetromino::X => [[0, 0], [0, 0], [0, 0], [0, 0]],
        }
    }

    /// The display color of this shape, as an RGB triple.
    pub fn color(&self) -> (r: (u8, u8, u8))
        ensures
            r == color_of(*self),
    {
        match self {
            Tetromino::S => (204, 102, 102),
            Tetromino::Z => (102, 204, 102),
            Tetromino::I => (104, 102, 204),
            Tetromino::T => (204, 204, 102),
            Tetromino::O => (204, 102, 204),
            Tetromino::J => (204, 204, 204),
            Tetromino::L => (218, 170, 0),
            Tetromino::X => (0, 0, 0),
        }
    }
}

/// A tetromino block: a shape tag, its four (possibly rotated) relative
/// offsets, and the absolute anchor position `(x, y)` on the board.
#[derive(Copy, Clone, Debug)]
pub struct Block {
    pub kind: Tetromino,
    pub points: [[i32; 2]; 4],
    pub x: i32,
    pub y: i32,
}

/// The `i`-th relative offset of a block, horizontal part.
#[verifier::inline]
pub open spec fn off_x(b: Block, i: int) -> int {
    b.points[i][0] as int
}

/// The `i`-th relative offset of a block, vertical part.
#[verifier::inline]
pub open spec fn off_y(b: Block, i: int) -> int {
    b.points[i][1] as int
}

/// Absolute column of the block's `i`-th cell.
pub open spec fn cell_x(b: Block, i: int) -> int {
    b.x + off_x(b, i)
}

/// Absolute row of the block's `i`-th cell.
pub open spec fn cell_y(b: Block, i: int) -> int {
    b.y + off_y(b, i)
}

/// Every relative offset of the block is small, as every reachable rotation
/// of every shape is.
pub open spec fn offsets_ok(b: Block) -> bool {
    forall|i: int| #![trigger b.points@[i]] 0 <= i < 4 ==> -2 <= off_x(b, i) <= 2 && -2 <= off_y(b, i) <= 2
}

/// The anchor is far from the edges of `i32`, so that building a shifted or
/// rotated candidate cannot overflow.
pub open spec fn anchor_in_range(b: Block) -> bool {
    -1000 <= b.x <= 1000 && -1000 <= b.y <= 1000
}

/// The value that stands for "no piece currently falling".
pub open spec fn is_empty_block(b: Block) -> bool {
    &&& b.kind == Tetromino::X
    &&& b.x == 0
    &&& b.y == 0
    &&& forall|i: int| #![trigger b.points@[i]] 0 <= i < 4 ==> off_x(b, i) == 0 && off_y(b, i) == 0
}

/// `r` is `b` with its four offsets fresh from `b.kind`'s shape table and its
/// anchor at `(x, y - top_extent)`, so that the topmost cell sits at row `y`.
pub open spec fn placed_as(r: Block, k: Tetromino, x: int, y: int) -> bool {
    &&& r.kind == k
    &&& r.x == x
    &&& r.y == y - top_extent(k)
    &&& forall|i: int| #![trigger r.points@[i]] 0 <= i < 4 ==> off_x(r, i) == shape_off(k, i).0 && off_y(r, i) == shape_off(k, i).1
}

/// `b` translated one column to the left.
pub open spec fn left_of(b: Block) -> Block {
    Block { x: (b.x - 1) as i32, ..b }
}

/// `b` translated one column to the right.
pub open spec fn right_of(b: Block) -> Block {
    Block { x: (b.x + 1) as i32, ..b }
}

/// `b` translated one row down, toward the floor.
pub open spec fn down_of(b: Block) -> Block {
    Block { y: (b.y - 1) as i32, ..b }
}

/// `r` is `b` translated by `(dx, dy)`.
pub open spec fn shifted(b: Block, dx: int, dy: int, r: Block) -> bool {
    &&& r.kind == b.kind
    &&& r.points == b.points
    &&& r.x == b.x + dx
    &&& r.y == b.y + dy
}

/// `r` is `b` rotated a quarter turn. Clockwise maps `(dx, dy)` to
/// `(-dy, dx)`; counter-clockwise maps `(dx, dy)` to `(dy, -dx)`. The O shape
/// and the empty sentinel are fixed points: the request is a no-op.
pub open spec fn rotated(b: Block, clockwise: bool, r: Block) -> bool {
    &&& r.kind == b.kind
    &&& r.x == b.x
    &&& r.y == b.y
    &&& if b.kind == Tetromino::O || b.kind == Tetromino::X {
            r.points == b.points
        } else {
            forall|i: int| #![trigger r.points@[i]] 0 <= i < 4 ==>
                off_x(r, i) == (if clockwise { -off_y(b, i) } else { off_y(b, i) })
                && off_y(r, i) == (if clockwise { off_x(b, i) } else { -off_x(b, i) })
        }
}

impl Block {
    /// A fresh block of a random playable shape, anchored at column `x` with
    /// its topmost cell at row `y`.
    pub fn new(x: i32, y: i32) -> (r: Block)
        requires
            -1000 <= x <= 1000,
            -1000 <= y <= 1000,
        ensures
            r.kind != Tetromino::X,
            placed_as(r, r.kind, x as int, y as int),
    {
        let kind = Tetromino::sample();
        Block::with_kind(kind, x, y)
    }

    /// A fresh block of shape `kind`, anchored at column `x` with its topmost
    /// cell at row `y`.
    pub fn with_kind(kind: Tetromino, x: i32, y: i32) -> (r: Block)
        requires
            -1000 <= x <= 1000,
            -1000 <= y <= 1000,
        ensures
            placed_as(r, kind, x as int, y as int),
    {
        Block {
            kind,
            points: kind.shape(),
            x,
            y: y - Block::top_offset(kind),
        }
    }

    /// How far `kind`'s shape reaches above its pivot.
    fn top_offset(kind: Tetromino) -> (r: i32)
        ensures
            r == top_extent(kind),
    {
        match kind {
            Tetromino::I => 2,
            Tetromino::T => 0,
            Tetromino::X => 0,
            _ => 1,
        }
    }

    /// The block that stands for "no piece currently falling".
    pub fn empty() -> (r: Block)
        ensures
            is_empty_block(r),
    {
        let kind = Tetromino::X;
        Block { kind, points: kind.shape(), x: 0, y: 0 }
    }

    /// Whether this block is the empty sentinel.
    pub fn is_empty(&self) -> (r: bool)
        ensures
            r == (self.kind == Tetromino::X),
    {
        self.kind == Tetromino::X
    }

    /// The absolute position of the block's `i`-th cell.
    pub fn point(&self, i: usize) -> (r: (i32, i32))
        requires
            i < 4,
            offsets_ok(*self),
            anchor_in_range(*self),
        ensures
            r.0 == cell_x(*self, i as int),
            r.1 == cell_y(*self, i as int),
    {
        (self.x + self.points[i][0], self.y + self.points[i][1])
    }

    /// This block translated one column to the left.
    pub fn left(&self) -> (r: Block)
        requires
            anchor_in_range(*self),
        ensures
            shifted(*self, -1, 0, r),
    {
        Block { x: self.x - 1, ..*self }
    }

    /// This block translated one column to the right.
    pub fn right(&self) -> (r: Block)
        requires
            anchor_in_range(*self),
        ensures
            shifted(*self, 1, 0, r),
    {
        Block { x: self.x + 1, ..*self }
    }

    /// This block translated one row down, toward the floor.
    pub fn down(&self) -> (r: Block)
        requires
            anchor_in_range(*self),
        ensures
            shifted(*self, 0, -1, r),
    {
        Block { y: self.y - 1, ..*self }
    }

    /// This block rotated a quarter turn counter-clockwise.
    pub fn rotate_left(&self) -> (r: Block)
        requires
            offsets_ok(*self),
        ensures
            rotated(*self, false, r),
    {
        self.rotate(false)
    }

    /// This block rotated a quarter turn clockwise.
    pub fn rotate_right(&self) -> (r: Block)
        requires
            offsets_ok(*self),
        ensures
            rotated(*self, true, r),
    {
        self.rotate(true)
    }

    /// This block rotated a quarter turn; a no-op for the O shape and the
    /// empty sentinel.
    pub fn rotate(&self, clockwise: bool) -> (r: Block)
        requires
            offsets_ok(*self),
        ensures
            rotated(*self, clockwise, r),
    {
        if matches!(self.kind, Tetromino::O | Tetromino::X) {
            return *self;
        }
        let mut points: [[i32; 2]; 4] = [[0; 2]; 4];
        let mut i: usize = 0;
        while i < 4
            invariant
                i <= 4,
                offsets_ok(*self),
                forall|j: int| #![trigger points@[j]] 0 <= j < i ==>
                    points[j][0] == (if clockwise { -off_y(*self, j) } else { off_y(*self, j) })
                    && points[j][1] == (if clockwise { off_x(*self, j) } else { -off_x(*self, j) }),
            decreases 4 - i,
        {
            points[i] = if clockwise {
                [-self.points[i][1], self.points[i][0]]
            } else {
                [self.points[i][1], -self.points[i][0]]
            };
            i = i + 1;
        }
        Block { points, ..*self }
    }
}

/// Law: for every shape that rotation actually turns, a clockwise quarter
/// turn followed by a counter-clockwise one (in either order) restores the
/// block, offsets included, exactly.
pub proof fn lemma_rotate_round_trip(b: Block, m: Block, r: Block, clockwise: bool)
    requires
        b.kind != Tetromino::O,
        b.kind != Tetromino::X,
        rotated(b, clockwise, m),
        rotated(m, !clockwise, r),
    ensures
        r == b,
{
    assert forall|i: int| 0 <= i < 4 implies r.points[i] == b.points[i] by {
        assert(off_x(r, i) == off_x(b, i));
        assert(off_y(r, i) == off_y(b, i));
        assert(r.points[i] =~= b.points[i]);
    }
    assert(r.points =~= b.points);
}

} // verus!
