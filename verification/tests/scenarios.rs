use tetris::game::Key;
use tetris::game::Tetris;
use tetris::piece::Tetromino;

fn idx(x: i32, y: i32) -> usize {
    (y * 10 + x) as usize
}

/// Fill row `y` completely, except the columns listed in `gaps`.
fn fill_row_except(g: &mut Tetris, y: i32, gaps: &[i32]) {
    for x in 0..10 {
        if !gaps.contains(&x) {
            g.board[idx(x, y)] = Tetromino::Z;
        }
    }
}

#[test]
fn i_piece_soft_dropped_to_the_floor_locks_at_the_center_column() {
    let mut g = Tetris::new();
    g.put_block_kind(Tetromino::I);
    for _ in 0..21 {
        g.key_pressed(Key::OTHER);
    }
    for y in 0..4 {
        assert_eq!(g.board[idx(5, y)], Tetromino::I);
    }
    let filled = (0..220).filter(|&i| g.board[i] != Tetromino::X).count();
    assert_eq!(filled, 4);
    assert_eq!(g.score, 0);
    assert!(!g.stopped);
}

#[test]
fn filling_the_last_gap_clears_the_row_and_shifts_the_rest_down() {
    let mut g = Tetris::new();
    fill_row_except(&mut g, 0, &[5]);
    g.put_block_kind(Tetromino::I);
    g.drop_down();
    // the vertical I fell into the gap at (5, 0); row 0 was complete and is
    // gone, the remnant of the piece moved down one row
    assert_eq!(g.score, 1);
    assert_eq!(g.board[idx(5, 0)], Tetromino::I);
    assert_eq!(g.board[idx(5, 1)], Tetromino::I);
    assert_eq!(g.board[idx(5, 2)], Tetromino::I);
    assert_eq!(g.board[idx(5, 3)], Tetromino::X);
    for x in 0..10 {
        if x != 5 {
            assert_eq!(g.board[idx(x, 0)], Tetromino::X);
        }
    }
}

#[test]
fn two_rows_cleared_at_once_score_four() {
    let mut g = Tetris::new();
    fill_row_except(&mut g, 0, &[5]);
    fill_row_except(&mut g, 1, &[5]);
    g.put_block_kind(Tetromino::I);
    g.drop_down();
    assert_eq!(g.score, 4);
    assert_eq!(g.board[idx(5, 0)], Tetromino::I);
    assert_eq!(g.board[idx(5, 1)], Tetromino::I);
    assert_eq!(g.board[idx(5, 2)], Tetromino::X);
    let filled = (0..220).filter(|&i| g.board[i] != Tetromino::X).count();
    assert_eq!(filled, 2);
}

#[test]
fn an_incomplete_drop_leaves_the_score_unchanged() {
    let mut g = Tetris::new();
    fill_row_except(&mut g, 0, &[5, 6]);
    g.put_block_kind(Tetromino::I);
    g.drop_down();
    // the gap at (6, 0) stays open: no clear, no points
    assert_eq!(g.score, 0);
    assert_eq!(g.board[idx(6, 0)], Tetromino::X);
    assert_eq!(g.board[idx(5, 3)], Tetromino::I);
}

#[test]
fn reset_restores_the_initial_state() {
    let mut g = Tetris::new();
    g.put_block_kind(Tetromino::T);
    g.key_pressed(Key::SP);
    assert!((0..220).any(|i| g.board[i] != Tetromino::X));
    g.rerun(0);
    for i in 0..220 {
        assert_eq!(g.board[i], Tetromino::X);
    }
    assert_eq!(g.score, 0);
    assert!(!g.stopped);
    assert!(g.current.is_empty());
    assert_eq!(g.time, 0);
}

#[test]
fn reset_restarts_the_gravity_timer() {
    let mut g = Tetris::new();
    g.rerun(5000);
    assert_eq!(g.time, 5000);
}

#[test]
fn a_blocked_spawn_stops_the_game_and_inputs_become_no_ops() {
    let mut g = Tetris::new();
    for y in 18..22 {
        fill_row_except(&mut g, y, &[]);
    }
    g.put_block();
    assert!(g.stopped);
    assert!(g.is_over());
    assert!(g.current.is_empty());

    let board_before = g.board;
    let score_before = g.score;
    g.key_pressed(Key::LEFT);
    g.key_pressed(Key::SP);
    g.key_pressed(Key::OTHER);
    assert_eq!(g.board, board_before);
    assert_eq!(g.score, score_before);
    assert!(g.stopped);
    assert!(g.current.is_empty());

    // spawning again on the still-blocked board keeps the game stopped
    g.put_block();
    assert!(g.stopped);
}

#[test]
fn tick_spawns_when_no_piece_is_falling() {
    let mut g = Tetris::new();
    g.tick(1);
    assert_ne!(g.current.kind, Tetromino::X);
    assert!(!g.stopped);
    // spawning does not touch the gravity timer
    assert_eq!(g.time, 0);
}

#[test]
fn tick_applies_gravity_only_after_the_delay() {
    let mut g = Tetris::new();
    g.put_block_kind(Tetromino::T);
    let y0 = g.current.y;
    // 1000 ms have not strictly passed yet
    g.tick(1000);
    assert_eq!(g.current.y, y0);
    assert_eq!(g.time, 0);
    g.tick(1001);
    assert_eq!(g.current.y, y0 - 1);
    assert_eq!(g.time, 1001);
    // the timer was reset, so the next instant is too early again
    g.tick(1002);
    assert_eq!(g.current.y, y0 - 1);
}

#[test]
fn gravity_speeds_up_with_the_score() {
    let mut g = Tetris::new();
    g.put_block_kind(Tetromino::T);
    g.score = 999;
    let y0 = g.current.y;
    g.tick(2);
    assert_eq!(g.current.y, y0 - 1);

    let mut fast = Tetris::new();
    fast.put_block_kind(Tetromino::T);
    fast.score = 1500;
    let y1 = fast.current.y;
    fast.tick(1);
    assert_eq!(fast.current.y, y1 - 1);
}

#[test]
fn tick_is_a_no_op_once_stopped() {
    let mut g = Tetris::new();
    for y in 18..22 {
        fill_row_except(&mut g, y, &[]);
    }
    g.put_block();
    assert!(g.stopped);
    let board_before = g.board;
    g.tick(50_000);
    assert!(g.current.is_empty());
    assert_eq!(g.board, board_before);
    assert!(g.stopped);
}

#[test]
fn render_lists_board_cells_then_piece_cells() {
    let mut g = Tetris::new();
    assert_eq!(g.render(), Vec::<(i32, i32, Tetromino)>::new());

    g.board[idx(3, 0)] = Tetromino::Z;
    g.board[idx(7, 2)] = Tetromino::L;
    g.put_block_kind(Tetromino::O);
    let cells = g.render();
    assert_eq!(
        cells,
        vec![
            (3, 0, Tetromino::Z),
            (7, 2, Tetromino::L),
            (5, 20, Tetromino::O),
            (6, 20, Tetromino::O),
            (5, 21, Tetromino::O),
            (6, 21, Tetromino::O),
        ]
    );
}

#[test]
fn render_scans_rows_from_the_floor_left_to_right() {
    let mut g = Tetris::new();
    g.board[idx(9, 1)] = Tetromino::S;
    g.board[idx(0, 1)] = Tetromino::T;
    g.board[idx(4, 0)] = Tetromino::J;
    assert_eq!(
        g.render(),
        vec![(4, 0, Tetromino::J), (0, 1, Tetromino::T), (9, 1, Tetromino::S)]
    );
}
