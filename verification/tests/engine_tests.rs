use faststack::engine::{Engine, GameState, Options};
use faststack::primitives::{PieceType, Theta};

/// Runs a fresh engine through the pre-game countdown and the first spawn,
/// up to the first falling piece.
fn engine_at_first_piece() -> Engine {
    let mut e = Engine::new(Options::default(), 0);
    for _ in 0..500 {
        if e.state == GameState::Falling {
            return e;
        }
        e.tick();
    }
    panic!("engine never reached the falling state");
}

#[test]
fn test_pregame_countdown_counts_only_all_ticks() {
    let mut e = Engine::new(Options::default(), 0);
    assert_eq!(e.state, GameState::Ready);
    e.tick();
    assert_eq!(e.state, GameState::Ready);
    assert_eq!(e.total_ticks_all, 1);
    assert_eq!(e.total_ticks, 0);
}

#[test]
fn test_spawn_collision_transitions_to_game_over() {
    let mut e = Engine::new(Options::default(), 0);
    for _ in 0..500 {
        if !(e.state == GameState::Ready || e.state == GameState::Go) {
            break;
        }
        e.tick();
    }
    assert_eq!(e.state, GameState::NewPiece);
    // Pre-occupy the whole spawn area so whichever piece spawns collides.
    for y in 0..4 {
        for x in 0..10 {
            e.grid[y * 20 + x] = Some(PieceType::I);
        }
    }
    e.tick();
    assert_eq!(e.state, GameState::GameOver);
}

#[test]
fn test_hold_twice_fails_and_preserves_state() {
    let mut e = engine_at_first_piece();
    assert!(e.hold());
    assert!(!e.piece.can_hold);
    let piece = e.piece;
    let hold = e.hold_piece;
    let queue = e.next_pieces.clone();
    let stats = e.stats;
    let state = e.state;
    assert!(!e.hold());
    assert_eq!(e.piece, piece);
    assert_eq!(e.hold_piece, hold);
    assert_eq!(e.next_pieces, queue);
    assert_eq!(e.stats, stats);
    assert_eq!(e.state, state);
}

#[test]
fn test_hold_swaps_with_queue_head_when_slot_empty() {
    let mut e = engine_at_first_piece();
    let active = e.piece.ty;
    let head = e.next_pieces[0];
    assert!(e.hold());
    assert_eq!(e.piece.ty, head);
    assert_eq!(e.hold_piece, Some(active));
    assert_eq!(e.next_pieces.len(), 2);
}

#[test]
fn test_clear_lines_removes_only_full_row_and_shifts() {
    let mut e = Engine::new(Options::default(), 0);
    e.state = GameState::Lines;
    // Playable height is 22 visible + 3 hidden rows; fill the bottom row
    // and scatter two marker blocks in the partial rows above it.
    for x in 0..10 {
        e.grid[24 * 20 + x] = Some(PieceType::I);
    }
    e.grid[23 * 20] = Some(PieceType::T);
    e.grid[22 * 20 + 5] = Some(PieceType::S);
    e.clear_lines();
    assert_eq!(e.stats.lines_cleared, 1);
    assert_eq!(e.grid[24 * 20], Some(PieceType::T));
    assert_eq!(e.grid[23 * 20 + 5], Some(PieceType::S));
    let occupied = e.grid.iter().filter(|c| c.is_some()).count();
    assert_eq!(occupied, 2);
}

#[test]
fn test_clear_lines_leaves_partial_rows_alone() {
    let mut e = Engine::new(Options::default(), 0);
    e.state = GameState::Lines;
    for x in 0..9 {
        e.grid[24 * 20 + x] = Some(PieceType::J);
    }
    e.clear_lines();
    assert_eq!(e.stats.lines_cleared, 0);
    for x in 0..9 {
        assert_eq!(e.grid[24 * 20 + x], Some(PieceType::J));
    }
}

#[test]
fn test_shift_moves_piece_and_counts_movement() {
    let mut e = engine_at_first_piece();
    let x0 = e.piece.x;
    assert!(e.shift(1));
    assert_eq!(e.piece.x, x0 + 1);
    assert_eq!(e.piece.movement_count, 1);
    assert!(e.shift(-1));
    assert_eq!(e.piece.x, x0);
    assert_eq!(e.piece.movement_count, 2);
}

#[test]
fn test_rotate_in_open_field() {
    let mut e = engine_at_first_piece();
    assert!(e.rotate(Theta::R90));
    assert_eq!(e.piece.theta, Theta::R90);
    assert_eq!(e.piece.rotation_count, 1);
    assert_eq!(e.piece.lock_timer, 0);
}

#[test]
fn test_soft_drop_with_zero_gravity_lands_immediately() {
    let mut e = engine_at_first_piece();
    e.input.soft_drop = true;
    e.tick();
    assert_eq!(e.state, GameState::Landed);
    assert!(e.piece.y > 0);
}

#[test]
fn test_landed_piece_locks_after_lock_delay() {
    let mut e = engine_at_first_piece();
    e.input.soft_drop = true;
    e.tick();
    assert_eq!(e.state, GameState::Landed);
    e.input.soft_drop = false;
    // Default lock delay is 500 ms at 16 ms per tick.
    for _ in 0..40 {
        if e.state == GameState::Lines {
            break;
        }
        e.tick();
    }
    assert_eq!(e.state, GameState::Lines);
}

#[test]
fn test_hard_drop_locks_and_counts_block() {
    let mut e = engine_at_first_piece();
    e.input.hard_drop = true;
    e.tick();
    assert_eq!(e.state, GameState::Lines);
    assert_eq!(e.stats.blocks_placed, 1);
    e.input.hard_drop = false;
    e.tick();
    assert_eq!(e.state, GameState::NewPiece);
}

#[test]
fn test_quit_input_wins_over_everything() {
    let mut e = engine_at_first_piece();
    e.input.quit = true;
    e.tick();
    assert_eq!(e.state, GameState::Quit);
}

#[test]
fn test_restart_resets_with_same_seed_and_options() {
    let mut e = engine_at_first_piece();
    e.input.hard_drop = true;
    e.tick();
    e.input.hard_drop = false;
    e.input.restart = true;
    e.tick();
    assert_eq!(e.state, GameState::Ready);
    assert_eq!(e.stats.blocks_placed, 0);
    assert_eq!(e.total_ticks_all, 0);
    assert_eq!(e.hold_piece, None);
    assert_eq!(e.internal.seed, 0);
}

#[test]
fn test_replay_determinism_under_identical_inputs() {
    let mut a = Engine::new(Options::default(), 123);
    let mut b = Engine::new(Options::default(), 123);
    for t in 0..400 {
        let soft = t % 7 == 0;
        let left = t % 11 == 0;
        let cw = t % 13 == 0;
        a.input.soft_drop = soft;
        a.input.left = left;
        a.input.rotate_cw = cw;
        b.input.soft_drop = soft;
        b.input.left = left;
        b.input.rotate_cw = cw;
        a.tick();
        b.tick();
        assert_eq!(a.state, b.state);
        assert_eq!(a.piece, b.piece);
        assert_eq!(a.grid, b.grid);
        assert_eq!(a.stats, b.stats);
        assert_eq!(a.next_pieces, b.next_pieces);
    }
}

#[test]
fn test_is_occupied_reads_the_grid() {
    let mut e = Engine::new(Options::default(), 0);
    assert!(!e.is_occupied(4, 24));
    e.grid[24 * 20 + 4] = Some(PieceType::Z);
    assert!(e.is_occupied(4, 24));
}

#[test]
fn test_gameplay_ticks_advance_both_counters() {
    let mut e = engine_at_first_piece();
    let t = e.total_ticks;
    let ta = e.total_ticks_all;
    e.tick();
    assert_eq!(e.total_ticks, t + 1);
    assert_eq!(e.total_ticks_all, ta + 1);
}
