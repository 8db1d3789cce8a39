//! Defines various rotation systems.
//!
//! Rotation systems consist of rotation rules and wallkick rules.  All
//! rotation systems are based off the SRS base rotations by default with
//! differences in rotation encoded within their wallkick tables.
//!
//! Coordinates grow rightward in `x` and downward in `y`.

use vstd::prelude::*;

use crate::constants::PIECE_BLOCK_COUNT;
use crate::primitives::{PieceType, Theta};

verus! {

/// Absolute cell offsets (within the piece's local bounding box) occupied by
/// a piece at a given rotation.  These are shared across every type of
/// rotation system.
pub open spec fn piece_offsets_spec(p: PieceType, r: Theta) -> Seq<(u8, u8)> {
    match (p, r) {
        (PieceType::I, Theta::R0) => seq![(0u8, 1u8), (1u8, 1u8), (2u8, 1u8), (3u8, 1u8)],
        (PieceType::I, Theta::R90) => seq![(2u8, 0u8), (2u8, 1u8), (2u8, 2u8), (2u8, 3u8)],
        (PieceType::I, Theta::R180) => seq![(0u8, 2u8), (1u8, 2u8), (2u8, 2u8), (3u8, 2u8)],
        (PieceType::I, Theta::R270) => seq![(1u8, 0u8), (1u8, 1u8), (1u8, 2u8), (1u8, 3u8)],
        (PieceType::J, Theta::R0) => seq![(0u8, 0u8), (0u8, 1u8), (1u8, 1u8), (2u8, 1u8)],
        (PieceType::J, Theta::R90) => seq![(1u8, 0u8), (1u8, 1u8), (1u8, 2u8), (2u8, 0u8)],
        (PieceType::J, Theta::R180) => seq![(0u8, 1u8), (1u8, 1u8), (2u8, 1u8), (2u8, 2u8)],
        (PieceType::J, Theta::R270) => seq![(0u8, 2u8), (1u8, 0u8), (1u8, 1u8), (1u8, 2u8)],
        (PieceType::L, Theta::R0) => seq![(0u8, 1u8), (1u8, 1u8), (2u8, 0u8), (2u8, 1u8)],
        (PieceType::L, Theta::R90) => seq![(1u8, 0u8), (1u8, 1u8), (1u8, 2u8), (2u8, 2u8)],
        (PieceType::L, Theta::R180) => seq![(0u8, 1u8), (0u8, 2u8), (1u8, 1u8), (2u8, 1u8)],
        (PieceType::L, Theta::R270) => seq![(0u8, 0u8), (1u8, 0u8), (1u8, 1u8), (1u8, 2u8)],
        (PieceType::O, _) => seq![(1u8, 0u8), (1u8, 1u8), (2u8, 0u8), (2u8, 1u8)],
        (PieceType::S, Theta::R0) => seq![(0u8, 1u8), (1u8, 0u8), (1u8, 1u8), (2u8, 0u8)],
        (PieceType::S, Theta::R90) => seq![(1u8, 0u8), (1u8, 1u8), (2u8, 1u8), (2u8, 2u8)],
        (PieceType::S, Theta::R180) => seq![(0u8, 2u8), (1u8, 1u8), (1u8, 2u8), (2u8, 1u8)],
        (PieceType::S, Theta::R270) => seq![(0u8, 0u8), (0u8, 1u8), (1u8, 1u8), (1u8, 2u8)],
        (PieceType::T, Theta::R0) => seq![(0u8, 1u8), (1u8, 0u8), (1u8, 1u8), (2u8, 1u8)],
        (PieceType::T, Theta::R90) => seq![(1u8, 0u8), (1u8, 1u8), (1u8, 2u8), (2u8, 1u8)],
        (PieceType::T, Theta::R180) => seq![(0u8, 1u8), (1u8, 1u8), (1u8, 2u8), (2u8, 1u8)],
        (PieceType::T, Theta::R270) => seq![(0u8, 1u8), (1u8, 0u8), (1u8, 1u8), (1u8, 2u8)],
        (PieceType::Z, Theta::R0) => seq![(0u8, 0u8), (1u8, 0u8), (1u8, 1u8), (2u8, 1u8)],
        (PieceType::Z, Theta::R90) => seq![(1u8, 1u8), (1u8, 2u8), (2u8, 0u8), (2u8, 1u8)],
        (PieceType::Z, Theta::R180) => seq![(0u8, 1u8), (1u8, 1u8), (1u8, 2u8), (2u8, 2u8)],
        (PieceType::Z, Theta::R270) => seq![(0u8, 1u8), (0u8, 2u8), (1u8, 0u8), (1u8, 2u8)],
    }
}

/// Kick candidates for the I piece rotating one quarter turn clockwise out of
/// rotation `c`.
pub open spec fn i_kicks_cw_spec(c: Theta) -> Seq<(i8, i8)> {
    match c {
        Theta::R0 => seq![(0i8, 0i8), (-1i8, 0i8), (-1i8, -1i8), (0i8, 2i8), (-1i8, 2i8)],
        Theta::R90 => seq![(0i8, 0i8), (1i8, 0i8), (1i8, 1i8), (0i8, -2i8), (1i8, -2i8)],
        Theta::R180 => seq![(0i8, 0i8), (1i8, 0i8), (1i8, -1i8), (0i8, 2i8), (1i8, 2i8)],
        Theta::R270 => seq![(0i8, 0i8), (-1i8, 0i8), (-1i8, 1i8), (0i8, -2i8), (-1i8, -2i8)],
    }
}

/// Kick candidates for the I piece rotating one quarter turn anti-clockwise
/// out of rotation `c`.
pub open spec fn i_kicks_ccw_spec(c: Theta) -> Seq<(i8, i8)> {
    match c {
        Theta::R0 => seq![(0i8, 0i8), (-2i8, 0i8), (1i8, 0i8), (-2i8, 1i8), (1i8, -2i8)],
        Theta::R90 => seq![(0i8, 0i8), (-1i8, 0i8), (2i8, 0i8), (-1i8, -2i8), (2i8, 1i8)],
        Theta::R180 => seq![(0i8, 0i8), (2i8, 0i8), (-1i8, 0i8), (2i8, -1i8), (-1i8, 2i8)],
        Theta::R270 => seq![(0i8, 0i8), (1i8, 0i8), (-2i8, 0i8), (1i8, 2i8), (-2i8, -1i8)],
    }
}

/// Kick candidates for the J, L, S, T and Z pieces rotating one quarter turn
/// clockwise out of rotation `c`.
pub open spec fn jlstz_kicks_cw_spec(c: Theta) -> Seq<(i8, i8)> {
    match c {
        Theta::R0 => seq![(0i8, 0i8), (-1i8, 0i8), (-1i8, -1i8), (0i8, 2i8), (-1i8, 2i8)],
        Theta::R90 => seq![(0i8, 0i8), (1i8, 0i8), (1i8, 1i8), (0i8, -2i8), (1i8, -1i8)],
        Theta::R180 => seq![(0i8, 0i8), (1i8, 0i8), (1i8, -1i8), (0i8, 2i8), (1i8, 2i8)],
        Theta::R270 => seq![(0i8, 0i8), (-1i8, 0i8), (-1i8, 1i8), (0i8, -2i8), (-1i8, -2i8)],
    }
}

/// Kick candidates for the J, L, S, T and Z pieces rotating one quarter turn
/// anti-clockwise out of rotation `c`.
pub open spec fn jlstz_kicks_ccw_spec(c: Theta) -> Seq<(i8, i8)> {
    match c {
        Theta::R0 => seq![(0i8, 0i8), (1i8, 0i8), (1i8, -1i8), (0i8, 2i8), (1i8, 2i8)],
        Theta::R90 => seq![(0i8, 0i8), (1i8, 0i8), (1i8, 1i8), (0i8, -2i8), (1i8, -2i8)],
        Theta::R180 => seq![(0i8, 0i8), (-1i8, 0i8), (-1i8, -1i8), (0i8, 2i8), (-1i8, 2i8)],
        Theta::R270 => seq![(0i8, 0i8), (-1i8, 0i8), (-1i8, 1i8), (0i8, -2i8), (-1i8, -2i8)],
    }
}

/// Ordered kick candidates for the SRS rotation system when a piece rotates
/// from rotation `c` to rotation `r`.
///
/// The O piece and any 180-degree rotation pair have an empty candidate
/// sequence: only the unkicked placement is attempted for them.
pub open spec fn srs_kicks_spec(p: PieceType, c: Theta, r: Theta) -> Seq<(i8, i8)> {
    let delta = Theta::from_index_spec((r.index_spec() - c.index_spec() + 4) % 4);
    if p == PieceType::O {
        Seq::empty()
    } else if delta == Theta::R90 {
        if p == PieceType::I {
            i_kicks_cw_spec(c)
        } else {
            jlstz_kicks_cw_spec(c)
        }
    } else if delta == Theta::R270 {
        if p == PieceType::I {
            i_kicks_ccw_spec(c)
        } else {
            jlstz_kicks_ccw_spec(c)
        }
    } else {
        Seq::empty()
    }
}

/// Builds the four-entry cell list a table row denotes.
fn quad<T: Copy>(a: T, b: T, c: T, d: T) -> (v: Vec<T>)
    ensures
        v@ == seq![a, b, c, d],
{
    let mut v: Vec<T> = Vec::new();
    v.push(a);
    v.push(b);
    v.push(c);
    v.push(d);
    proof {
        assert(v@ =~= seq![a, b, c, d]);
    }
    v
}

/// Builds the five-entry kick list a table row denotes.
fn quint<T: Copy>(a: T, b: T, c: T, d: T, e: T) -> (v: Vec<T>)
    ensures
        v@ == seq![a, b, c, d, e],
{
    let mut v: Vec<T> = Vec::new();
    v.push(a);
    v.push(b);
    v.push(c);
    v.push(d);
    v.push(e);
    proof {
        assert(v@ =~= seq![a, b, c, d, e]);
    }
    v
}

/// Return the offsets of the specified piece and rotation.
///
/// These are shared across every type of rotation system.
pub fn piece_offsets(p: PieceType, r: Theta) -> (res: Vec<(u8, u8)>)
    ensures
        res@ == piece_offsets_spec(p, r),
        res@.len() == PIECE_BLOCK_COUNT,
        forall|i: int|
            0 <= i < res@.len() ==> (#[trigger] res@[i]).0 <= 3 && res@[i].1 <= 3,
{
    match (p, r) {
        (PieceType::I, Theta::R0) => quad((0, 1), (1, 1), (2, 1), (3, 1)),
        (PieceType::I, Theta::R90) => quad((2, 0), (2, 1), (2, 2), (2, 3)),
        (PieceType::I, Theta::R180) => quad((0, 2), (1, 2), (2, 2), (3, 2)),
        (PieceType::I, Theta::R270) => quad((1, 0), (1, 1), (1, 2), (1, 3)),
        (PieceType::J, Theta::R0) => quad((0, 0), (0, 1), (1, 1), (2, 1)),
        (PieceType::J, Theta::R90) => quad((1, 0), (1, 1), (1, 2), (2, 0)),
        (PieceType::J, Theta::R180) => quad((0, 1), (1, 1), (2, 1), (2, 2)),
        (PieceType::J, Theta::R270) => quad((0, 2), (1, 0), (1, 1), (1, 2)),
        (PieceType::L, Theta::R0) => quad((0, 1), (1, 1), (2, 0), (2, 1)),
        (PieceType::L, Theta::R90) => quad((1, 0), (1, 1), (1, 2), (2, 2)),
        (PieceType::L, Theta::R180) => quad((0, 1), (0, 2), (1, 1), (2, 1)),
        (PieceType::L, Theta::R270) => quad((0, 0), (1, 0), (1, 1), (1, 2)),
        (PieceType::O, _) => quad((1, 0), (1, 1), (2, 0), (2, 1)),
        (PieceType::S, Theta::R0) => quad((0, 1), (1, 0), (1, 1), (2, 0)),
        (PieceType::S, Theta::R90) => quad((1, 0), (1, 1), (2, 1), (2, 2)),
        (PieceType::S, Theta::R180) => quad((0, 2), (1, 1), (1, 2), (2, 1)),
        (PieceType::S, Theta::R270) => quad((0, 0), (0, 1), (1, 1), (1, 2)),
        (PieceType::T, Theta::R0) => quad((0, 1), (1, 0), (1, 1), (2, 1)),
        (PieceType::T, Theta::R90) => quad((1, 0), (1, 1), (1, 2), (2, 1)),
        (PieceType::T, Theta::R180) => quad((0, 1), (1, 1), (1, 2), (2, 1)),
        (PieceType::T, Theta::R270) => quad((0, 1), (1, 0), (1, 1), (1, 2)),
        (PieceType::Z, Theta::R0) => quad((0, 0), (1, 0), (1, 1), (2, 1)),
        (PieceType::Z, Theta::R90) => quad((1, 1), (1, 2), (2, 0), (2, 1)),
        (PieceType::Z, Theta::R180) => quad((0, 1), (1, 1), (1, 2), (2, 2)),
        (PieceType::Z, Theta::R270) => quad((0, 1), (0, 2), (1, 0), (1, 2)),
    }
}

/// Types of rotation systems.
#[derive(Clone, Copy, Debug, PartialEq, Eq, Structural)]
pub enum RotationSystemType {
    SRS,
}

impl RotationSystemType {
    /// Polymorphic function for retrieving kicks from a `RotationTable`
    /// implementer.
    ///
    /// We prefer this to a trait object since it allows the implementors of
    /// `RotationTable` to be different sizes and store different data.
    pub fn kicks(&self, p: PieceType, c: Theta, r: Theta) -> (res: Vec<(i8, i8)>)
        ensures
            res@ == srs_kicks_spec(p, c, r),
    {
        match *self {
            RotationSystemType::SRS => RotationSystemSRS.kicks(p, c, r),
        }
    }
}

/// Defines a trait abstracting over rotation implementations.
pub trait RotationTable {
    /// The kick table this implementation realises.
    spec fn kicks_spec(&self, p: PieceType, c: Theta, r: Theta) -> Seq<(i8, i8)>;

    /// Returns the successive wallkick offsets to test, in priority order.
    fn kicks(&self, p: PieceType, c: Theta, r: Theta) -> (res: Vec<(i8, i8)>)
        ensures
            res@ == self.kicks_spec(p, c, r),
    ;
}

/// The standard rotation system.
pub struct RotationSystemSRS;

impl RotationTable for RotationSystemSRS {
    open spec fn kicks_spec(&self, p: PieceType, c: Theta, r: Theta) -> Seq<(i8, i8)> {
        srs_kicks_spec(p, c, r)
    }

    fn kicks(&self, p: PieceType, c: Theta, r: Theta) -> (res: Vec<(i8, i8)>)
        ensures
            res@ == srs_kicks_spec(p, c, r),
    {
        let ci = match c {
            Theta::R0 => 0u8,
            Theta::R90 => 1u8,
            Theta::R180 => 2u8,
            Theta::R270 => 3u8,
        };
        let ri = match r {
            Theta::R0 => 0u8,
            Theta::R90 => 1u8,
            Theta::R180 => 2u8,
            Theta::R270 => 3u8,
        };
        let delta = (ri + 4 - ci) % 4;
        if matches!(p, PieceType::O) || delta == 0 || delta == 2 {
            Vec::new()
        } else if delta == 1 {
            // One quarter turn clockwise.
            match (matches!(p, PieceType::I), c) {
                (true, Theta::R0) => quint((0, 0), (-1, 0), (-1, -1), (0, 2), (-1, 2)),
                (true, Theta::R90) => quint((0, 0), (1, 0), (1, 1), (0, -2), (1, -2)),
                (true, Theta::R180) => quint((0, 0), (1, 0), (1, -1), (0, 2), (1, 2)),
                (true, Theta::R270) => quint((0, 0), (-1, 0), (-1, 1), (0, -2), (-1, -2)),
                (false, Theta::R0) => quint((0, 0), (-1, 0), (-1, -1), (0, 2), (-1, 2)),
                (false, Theta::R90) => quint((0, 0), (1, 0), (1, 1), (0, -2), (1, -1)),
                (false, Theta::R180) => quint((0, 0), (1, 0), (1, -1), (0, 2), (1, 2)),
                (false, Theta::R270) => quint((0, 0), (-1, 0), (-1, 1), (0, -2), (-1, -2)),
            }
        } else {
            // One quarter turn anti-clockwise.
            match (matches!(p, PieceType::I), c) {
                (true, Theta::R0) => quint((0, 0), (-2, 0), (1, 0), (-2, 1), (1, -2)),
                (true, Theta::R90) => quint((0, 0), (-1, 0), (2, 0), (-1, -2), (2, 1)),
                (true, Theta::R180) => quint((0, 0), (2, 0), (-1, 0), (2, -1), (-1, 2)),
                (true, Theta::R270) => quint((0, 0), (1, 0), (-2, 0), (1, 2), (-2, -1)),
                (false, Theta::R0) => quint((0, 0), (1, 0), (1, -1), (0, 2), (1, 2)),
                (false, Theta::R90) => quint((0, 0), (1, 0), (1, 1), (0, -2), (1, -2)),
                (false, Theta::R180) => quint((0, 0), (-1, 0), (-1, -1), (0, 2), (-1, 2)),
                (false, Theta::R270) => quint((0, 0), (-1, 0), (-1, 1), (0, -2), (-1, -2)),
            }
        }
    }
}

/// For any piece, a rotation whose target is the 180-degree opposite of the
/// current rotation has an empty kick candidate sequence: only the unkicked
/// placement is attempted, and it either succeeds or the rotation fails.
pub proof fn lemma_opposite_rotation_kicks_empty(p: PieceType, c: Theta, r: Theta)
    requires
        r == c.opposite_spec(),
    ensures
        srs_kicks_spec(p, c, r).len() == 0,
{
}

} // verus!
