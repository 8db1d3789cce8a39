use faststack::primitives::PieceType::{self, I, J, L, O, S, T, Z};
use faststack::primitives::Theta::{R0, R180, R270, R90};
use faststack::primitives::{Piece, Theta};

#[test]
fn test_piece_type_ordinal_round_trip() {
    for i in 0..7u32 {
        let p = PieceType::from_index(i);
        assert_eq!(p.ordinal() as u32, i);
    }
    assert_eq!(
        (0..7u32).map(PieceType::from_index).collect::<Vec<_>>(),
        vec![I, J, L, O, S, T, Z]
    );
}

#[test]
fn test_theta_compose_is_cyclic() {
    assert_eq!(R90.compose(R180), R270);
    assert_eq!(R270.compose(R90), R0);
    assert_eq!(R180.compose(R180), R0);
    for &t in [R0, R90, R180, R270].iter() {
        assert_eq!(t.compose(R0), t);
    }
}

#[test]
fn test_new_piece_starts_fresh() {
    let p = Piece::new(S);
    assert_eq!(p.ty, S);
    assert_eq!((p.x, p.y), (0, 0));
    assert_eq!(p.theta, Theta::R0);
    assert_eq!(p.lock_timer, 0);
    assert_eq!(p.rotation_count, 0);
    assert_eq!(p.movement_count, 0);
    assert_eq!(p.floorkick_count, 0);
    assert!(p.can_hold);
}

#[test]
fn test_blocks_translate_offsets_by_position() {
    let mut p = Piece::new(T);
    p.x = 3;
    p.y = 5;
    // T at spawn occupies (0,1), (1,0), (1,1), (2,1) in its bounding box.
    assert_eq!(p.blocks(), vec![(3, 6), (4, 5), (4, 6), (5, 6)]);
}
