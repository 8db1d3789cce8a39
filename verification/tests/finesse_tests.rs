use faststack::finesse::minimal_moves_required;
use faststack::primitives::PieceType::{I, O, T};
use faststack::primitives::Theta::{R0, R180, R270, R90};

#[test]
fn test_o_piece_needs_no_rotation_presses() {
    // The reference column of the O piece shifts by 0, 2, 0 and 1 across the
    // four rotations, so keep the target column small enough for all of them.
    for &theta in [R0, R90, R180, R270].iter() {
        for x in 0..7 {
            let (rotations, _) = minimal_moves_required(O, theta, x);
            assert_eq!(rotations, 0);
        }
    }
}

#[test]
fn test_i_piece_spawn_column_costs() {
    // Flat I piece from spawn: columns 3 and 7 are free, the walls cost most.
    assert_eq!(minimal_moves_required(I, R0, 0), (0, 1));
    assert_eq!(minimal_moves_required(I, R0, 3), (0, 0));
    assert_eq!(minimal_moves_required(I, R0, 1), (0, 2));
}

#[test]
fn test_t_piece_rotation_press_counts() {
    assert_eq!(minimal_moves_required(T, R0, 3).0, 0);
    assert_eq!(minimal_moves_required(T, R90, 3).0, 1);
    assert_eq!(minimal_moves_required(T, R270, 3).0, 1);
    assert_eq!(minimal_moves_required(T, R180, 3).0, 2);
}

#[test]
fn test_vertical_i_piece_movement_costs() {
    // Vertical I at R90 shifts its reference column by 2; its movement table
    // is symmetric around the spawn columns.
    assert_eq!(minimal_moves_required(I, R90, 2).1, 0);
    assert_eq!(minimal_moves_required(I, R90, 0).1, 1);
    assert_eq!(minimal_moves_required(I, R90, 7).1, 1);
}
