//! Calculates optimal piece placements for a standard 10-wide playfield.
//!
//! The tables encode, for the standard spawn position and orientation, how
//! many rotation and movement key presses are needed to reach each target
//! column and rotation.

use vstd::prelude::*;

use crate::primitives::{PieceType, Theta};

verus! {

/// Horizontal offset the piece's reference column has at a given rotation
/// relative to its spawn alignment.  It accounts for the bounding-box width
/// differences of the I and O pieces.
pub open spec fn position_delta_spec(ty: PieceType, theta: Theta) -> u8 {
    match ty {
        PieceType::I | PieceType::O => match theta {
            Theta::R0 => 0,
            Theta::R90 => 2,
            Theta::R180 => 0,
            Theta::R270 => 1,
        },
        _ => match theta {
            Theta::R0 => 0,
            Theta::R90 => 1,
            Theta::R180 => 0,
            Theta::R270 => 0,
        },
    }
}

/// Minimal number of rotation key presses to reach a rotation from spawn:
/// zero for the O piece and for rotations indistinguishable from spawn, one
/// for a single quarter turn either way, two otherwise.
pub open spec fn rotation_delta_spec(ty: PieceType, theta: Theta) -> u8 {
    match (ty, theta) {
        (_, Theta::R0) => 0,
        (PieceType::I, Theta::R180) => 0,
        (PieceType::S, Theta::R180) => 0,
        (PieceType::Z, Theta::R180) => 0,
        (PieceType::O, _) => 0,
        (_, Theta::R90) => 1,
        (_, Theta::R270) => 1,
        _ => 2,
    }
}

/// Precomputed minimal horizontal key-press counts to shift a piece from its
/// spawn column to each absolute column of a 10-wide field, per piece and
/// rotation.
pub open spec fn movement_table_spec(ty: PieceType, theta: Theta) -> Seq<u8> {
    match (ty, theta) {
        (PieceType::I, Theta::R0)
        | (PieceType::I, Theta::R180)
        | (PieceType::J, Theta::R180)
        | (PieceType::L, Theta::R180) => seq![1, 2, 1, 0, 1, 2, 1, 0, 0, 0],
        (PieceType::J, Theta::R0)
        | (PieceType::L, Theta::R0)
        | (PieceType::S, Theta::R0)
        | (PieceType::S, Theta::R180)
        | (PieceType::T, Theta::R0)
        | (PieceType::T, Theta::R180)
        | (PieceType::Z, Theta::R0)
        | (PieceType::Z, Theta::R180) => seq![1, 2, 1, 0, 1, 2, 2, 1, 0, 0],
        (PieceType::J, Theta::R90) | (PieceType::L, Theta::R90) | (PieceType::T, Theta::R90) => seq![
            1,
            1,
            2,
            1,
            0,
            1,
            2,
            2,
            1,
            0,
        ],
        (PieceType::J, Theta::R270)
        | (PieceType::L, Theta::R270)
        | (PieceType::T, Theta::R270) => seq![1, 2, 1, 0, 1, 2, 2, 1, 1, 0],
        (PieceType::S, Theta::R90)
        | (PieceType::S, Theta::R270)
        | (PieceType::Z, Theta::R90)
        | (PieceType::Z, Theta::R270) => seq![1, 1, 1, 0, 0, 1, 2, 1, 1, 0],
        (PieceType::I, _) => seq![1, 1, 1, 1, 0, 0, 1, 1, 1, 1],
        (PieceType::O, _) => seq![1, 2, 2, 1, 0, 1, 2, 2, 1, 0],
    }
}

/// Minimal horizontal key-press count to reach column `x`.
pub open spec fn movement_delta_spec(ty: PieceType, theta: Theta, x: int) -> u8 {
    movement_table_spec(ty, theta)[x]
}

/// Builds the ten-entry column table a row of the movement table denotes.
fn deca(
    v0: u8,
    v1: u8,
    v2: u8,
    v3: u8,
    v4: u8,
    v5: u8,
    v6: u8,
    v7: u8,
    v8: u8,
    v9: u8,
) -> (v: Vec<u8>)
    ensures
        v@ == seq![v0, v1, v2, v3, v4, v5, v6, v7, v8, v9],
{
    let mut v: Vec<u8> = Vec::new();
    v.push(v0);
    v.push(v1);
    v.push(v2);
    v.push(v3);
    v.push(v4);
    v.push(v5);
    v.push(v6);
    v.push(v7);
    v.push(v8);
    v.push(v9);
    proof {
        assert(v@ =~= seq![v0, v1, v2, v3, v4, v5, v6, v7, v8, v9]);
    }
    v
}

/// Horizontal offset of the piece's reference column at a rotation, relative
/// to its spawn alignment.
pub fn position_delta(ty: PieceType, theta: Theta) -> (r: u8)
    ensures
        r == position_delta_spec(ty, theta),
        r <= 2,
{
    let a: u8 = match theta {
        Theta::R0 => 0,
        Theta::R90 => 2,
        Theta::R180 => 0,
        Theta::R270 => 1,
    };
    let b: u8 = match theta {
        Theta::R0 => 0,
        Theta::R90 => 1,
        Theta::R180 => 0,
        Theta::R270 => 0,
    };
    match ty {
        PieceType::I | PieceType::O => a,
        _ => b,
    }
}

/// Minimal number of rotation key presses to reach `theta` from spawn.
pub fn rotation_delta(ty: PieceType, theta: Theta) -> (r: u8)
    ensures
        r == rotation_delta_spec(ty, theta),
{
    match (ty, theta) {
        (_, Theta::R0) => 0,
        (PieceType::I, Theta::R180) => 0,
        (PieceType::S, Theta::R180) => 0,
        (PieceType::Z, Theta::R180) => 0,
        (PieceType::O, _) => 0,
        (_, Theta::R90) => 1,
        (_, Theta::R270) => 1,
        _ => 2,
    }
}

/// Minimal horizontal key-press count to shift the piece from its spawn
/// column to absolute column `x` of a 10-wide field.
pub fn movement_delta(ty: PieceType, theta: Theta, x: u8) -> (r: u8)
    requires
        x < 10,
    ensures
        r == movement_delta_spec(ty, theta, x as int),
{
    let a: Vec<u8> = match (ty, theta) {
        (PieceType::I, Theta::R0)
        | (PieceType::I, Theta::R180)
        | (PieceType::J, Theta::R180)
        | (PieceType::L, Theta::R180) => deca(1, 2, 1, 0, 1, 2, 1, 0, 0, 0),
        (PieceType::J, Theta::R0)
        | (PieceType::L, Theta::R0)
        | (PieceType::S, Theta::R0)
        | (PieceType::S, Theta::R180)
        | (PieceType::T, Theta::R0)
        | (PieceType::T, Theta::R180)
        | (PieceType::Z, Theta::R0)
        | (PieceType::Z, Theta::R180) => deca(1, 2, 1, 0, 1, 2, 2, 1, 0, 0),
        (PieceType::J, Theta::R90)
        | (PieceType::L, Theta::R90)
        | (PieceType::T, Theta::R90) => deca(1, 1, 2, 1, 0, 1, 2, 2, 1, 0),
        (PieceType::J, Theta::R270)
        | (PieceType::L, Theta::R270)
        | (PieceType::T, Theta::R270) => deca(1, 2, 1, 0, 1, 2, 2, 1, 1, 0),
        (PieceType::S, Theta::R90)
        | (PieceType::S, Theta::R270)
        | (PieceType::Z, Theta::R90)
        | (PieceType::Z, Theta::R270) => deca(1, 1, 1, 0, 0, 1, 2, 1, 1, 0),
        (PieceType::I, _) => deca(1, 1, 1, 1, 0, 0, 1, 1, 1, 1),
        (PieceType::O, _) => deca(1, 2, 2, 1, 0, 1, 2, 2, 1, 0),
    };
    a[x as usize]
}

/// Returns the minimal number of rotation and movement key presses to reach
/// the specified destination from the default entry point, for a 10-wide
/// field.
///
/// A target column whose shifted reference column falls outside the 10-wide
/// table is a caller bug and is excluded by contract.  The O piece never
/// needs a rotation press.
pub fn minimal_moves_required(ty: PieceType, theta: Theta, x: u8) -> (r: (u8, u8))
    requires
        position_delta_spec(ty, theta) + x < 10,
    ensures
        r.0 == rotation_delta_spec(ty, theta),
        r.1 == movement_delta_spec(ty, theta, position_delta_spec(ty, theta) + x as int),
        ty == PieceType::O ==> r.0 == 0,
    {
    let delta = position_delta(ty, theta);
    (rotation_delta(ty, theta), movement_delta(ty, theta, delta + x))
}

} // verus!
