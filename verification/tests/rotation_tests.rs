use faststack::primitives::PieceType::{self, I, J, L, O, S, T, Z};
use faststack::primitives::Theta::{self, R0, R180, R270, R90};
use faststack::rotation::{piece_offsets, RotationSystemType};

const ALL_PIECES: [PieceType; 7] = [I, J, L, O, S, T, Z];
const ALL_THETAS: [Theta; 4] = [R0, R90, R180, R270];

fn opposite(t: Theta) -> Theta {
    match t {
        R0 => R180,
        R90 => R270,
        R180 => R0,
        R270 => R90,
    }
}

#[test]
fn test_kicks_empty_for_180_pairs() {
    let rs = RotationSystemType::SRS;
    for &p in ALL_PIECES.iter() {
        for &c in ALL_THETAS.iter() {
            assert!(rs.kicks(p, c, opposite(c)).is_empty());
        }
    }
}

#[test]
fn test_kicks_empty_for_o_piece() {
    let rs = RotationSystemType::SRS;
    for &c in ALL_THETAS.iter() {
        for &r in ALL_THETAS.iter() {
            assert!(rs.kicks(O, c, r).is_empty());
        }
    }
}

#[test]
fn test_kicks_jlstz_clockwise_from_spawn() {
    let rs = RotationSystemType::SRS;
    let expected = vec![(0, 0), (-1, 0), (-1, -1), (0, 2), (-1, 2)];
    for &p in [J, L, S, T, Z].iter() {
        assert_eq!(rs.kicks(p, R0, R90), expected);
    }
}

#[test]
fn test_kicks_i_piece_differs_from_jlstz() {
    let rs = RotationSystemType::SRS;
    assert_eq!(rs.kicks(I, R0, R270), vec![(0, 0), (-2, 0), (1, 0), (-2, 1), (1, -2)]);
    assert_eq!(rs.kicks(T, R0, R270), vec![(0, 0), (1, 0), (1, -1), (0, 2), (1, 2)]);
}

#[test]
fn test_piece_offsets_i_spawn_row() {
    assert_eq!(piece_offsets(I, R0), vec![(0, 1), (1, 1), (2, 1), (3, 1)]);
}

#[test]
fn test_piece_offsets_o_identical_across_rotations() {
    let base = piece_offsets(O, R0);
    for &t in ALL_THETAS.iter() {
        assert_eq!(piece_offsets(O, t), base);
    }
}

#[test]
fn test_piece_offsets_always_four_blocks() {
    for &p in ALL_PIECES.iter() {
        for &t in ALL_THETAS.iter() {
            assert_eq!(piece_offsets(p, t).len(), 4);
        }
    }
}
