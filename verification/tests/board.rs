use tetris::index_at;
use tetris::game::Key;
use tetris::game::Tetris;
use tetris::piece::Block;
use tetris::piece::Tetromino;

fn idx(x: i32, y: i32) -> usize {
    (y * 10 + x) as usize
}

#[test]
fn index_at_is_row_major_from_the_floor() {
    assert_eq!(index_at(0, 0), 0);
    assert_eq!(index_at(9, 0), 9);
    assert_eq!(index_at(0, 1), 10);
    assert_eq!(index_at(3, 7), 73);
    assert_eq!(index_at(9, 21), 219);
}

#[test]
fn new_game_is_blank() {
    let g = Tetris::new();
    for i in 0..220 {
        assert_eq!(g.board[i], Tetromino::X);
    }
    assert!(g.current.is_empty());
    assert!(!g.stopped);
    assert_eq!(g.score, 0);
    assert_eq!(g.time, 0);
    assert_eq!(g.score(), 0);
    assert!(!g.is_over());
}

#[test]
fn try_move_accepts_a_free_spot_and_moves_the_piece() {
    let mut g = Tetris::new();
    let b = Block::with_kind(Tetromino::T, 4, 10);
    assert!(g.try_move(b));
    assert_eq!(g.current.kind, Tetromino::T);
    assert_eq!((g.current.x, g.current.y), (4, 10));
    for i in 0..220 {
        assert_eq!(g.board[i], Tetromino::X);
    }
}

#[test]
fn try_move_rejects_out_of_bounds_and_changes_nothing() {
    let mut g = Tetris::new();
    g.put_block_kind(Tetromino::I);
    g.board[idx(0, 0)] = Tetromino::S;
    let before_board = g.board;
    let before = g.current;
    let score_before = g.score;

    // one column past the left wall
    let candidate = Block::with_kind(Tetromino::I, -1, 10);
    assert!(!g.try_move(candidate));

    assert_eq!(g.board, before_board);
    assert_eq!(g.current.kind, before.kind);
    assert_eq!(g.current.points, before.points);
    assert_eq!((g.current.x, g.current.y), (before.x, before.y));
    assert_eq!(g.score, score_before);
    assert!(!g.stopped);
}

#[test]
fn try_move_rejects_a_collision_and_changes_nothing() {
    let mut g = Tetris::new();
    g.put_block_kind(Tetromino::O);
    g.board[idx(5, 3)] = Tetromino::Z;
    let before_board = g.board;
    let before = g.current;

    // the O block anchored at (5, 3) covers the occupied cell (5, 3)
    let candidate = Block::with_kind(Tetromino::O, 5, 4);
    assert_eq!((candidate.x, candidate.y), (5, 3));
    assert!(!g.try_move(candidate));

    assert_eq!(g.board, before_board);
    assert_eq!(g.current.points, before.points);
    assert_eq!((g.current.x, g.current.y), (before.x, before.y));
}

#[test]
fn spawn_centers_the_piece_at_the_top() {
    let mut g = Tetris::new();
    g.put_block_kind(Tetromino::I);
    assert!(!g.stopped);
    assert_eq!(g.current.kind, Tetromino::I);
    assert_eq!((g.current.x, g.current.y), (5, 19));
    // topmost cell of the vertical I sits at the top row
    assert_eq!(g.current.point(3), (5, 21));
}

#[test]
fn random_spawn_places_some_playable_piece() {
    let mut g = Tetris::new();
    g.put_block();
    assert!(!g.stopped);
    assert_ne!(g.current.kind, Tetromino::X);
}

#[test]
fn lock_in_writes_the_piece_cells_with_its_tag() {
    let mut g = Tetris::new();
    g.put_block_kind(Tetromino::O);
    g.drop_down();
    // the O piece spawns over columns 5 and 6 and falls to the floor
    assert_eq!(g.board[idx(5, 0)], Tetromino::O);
    assert_eq!(g.board[idx(6, 0)], Tetromino::O);
    assert_eq!(g.board[idx(5, 1)], Tetromino::O);
    assert_eq!(g.board[idx(6, 1)], Tetromino::O);
    let filled = (0..220).filter(|&i| g.board[i] != Tetromino::X).count();
    assert_eq!(filled, 4);
    assert_eq!(g.score, 0);
    // lock-in chains into the next spawn at once
    assert!(!g.current.is_empty());
    assert!(!g.stopped);
}

#[test]
fn hard_drop_from_spawn_always_locks() {
    let mut g = Tetris::new();
    g.put_block_kind(Tetromino::S);
    g.drop_down();
    let filled = (0..220).filter(|&i| g.board[i] != Tetromino::X).count();
    assert_eq!(filled, 4);
    for i in 0..220 {
        assert!(g.board[i] == Tetromino::X || g.board[i] == Tetromino::S);
    }
}

#[test]
fn soft_drop_locks_only_at_the_bottom() {
    let mut g = Tetris::new();
    g.put_block_kind(Tetromino::I);
    // the vertical I spawns with its anchor at row 19 and falls one row per
    // soft drop; the 19th drop is rejected at the floor and locks it in
    for _ in 0..18 {
        g.down();
        assert_eq!(g.board[idx(5, 0)], Tetromino::X);
    }
    assert_eq!((g.current.x, g.current.y), (5, 1));
    g.down();
    assert_eq!(g.board[idx(5, 0)], Tetromino::I);
}

#[test]
fn movement_keys_steer_the_piece() {
    let mut g = Tetris::new();
    g.put_block_kind(Tetromino::T);
    let (x0, y0) = (g.current.x, g.current.y);
    g.key_pressed(Key::LEFT);
    assert_eq!((g.current.x, g.current.y), (x0 - 1, y0));
    g.key_pressed(Key::RIGHT);
    g.key_pressed(Key::RIGHT);
    assert_eq!((g.current.x, g.current.y), (x0 + 1, y0));
    g.key_pressed(Key::OTHER);
    assert_eq!((g.current.x, g.current.y), (x0 + 1, y0 - 1));
}

#[test]
fn rotation_keys_rotate_in_place() {
    let mut g = Tetris::new();
    g.put_block_kind(Tetromino::T);
    g.key_pressed(Key::OTHER);
    g.key_pressed(Key::OTHER);
    let before = g.current;
    g.key_pressed(Key::UP);
    assert_eq!((g.current.x, g.current.y), (before.x, before.y));
    assert_eq!(g.current.points, [[0, -1], [0, 0], [0, 1], [1, 0]]);
    g.key_pressed(Key::DOWN);
    assert_eq!(g.current.points, before.points);
}

#[test]
fn a_wall_blocks_movement_without_any_other_change() {
    let mut g = Tetris::new();
    g.put_block_kind(Tetromino::I);
    for _ in 0..10 {
        g.key_pressed(Key::LEFT);
    }
    // the vertical I cannot leave the grid
    assert_eq!(g.current.x, 0);
    let before_board = g.board;
    g.key_pressed(Key::LEFT);
    assert_eq!(g.current.x, 0);
    assert_eq!(g.board, before_board);
}
