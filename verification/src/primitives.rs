//! Piece-type and rotation enumerations and the `Piece` entity.

use vstd::prelude::*;

use crate::constants::{PIECE_BLOCK_COUNT, PIECE_TYPE_COUNT};
use crate::rotation::{piece_offsets, piece_offsets_spec};

verus! {

/// Represents a relative or absolute rotation in one of four directions.
#[derive(Clone, Copy, Debug, PartialEq, Eq, Structural)]
pub enum Theta {
    R0,
    R90,
    R180,
    R270,
}

impl Theta {
    /// Quarter-turn count of this rotation, in `[0, 4)`.
    pub open spec fn index_spec(self) -> int {
        match self {
            Theta::R0 => 0,
            Theta::R90 => 1,
            Theta::R180 => 2,
            Theta::R270 => 3,
        }
    }

    /// The rotation whose quarter-turn count is `i`.
    pub open spec fn from_index_spec(i: int) -> Theta {
        if i == 0 {
            Theta::R0
        } else if i == 1 {
            Theta::R90
        } else if i == 2 {
            Theta::R180
        } else {
            Theta::R270
        }
    }

    /// Cyclic composition of two rotations.
    pub open spec fn compose_spec(self, other: Theta) -> Theta {
        Theta::from_index_spec((self.index_spec() + other.index_spec()) % 4)
    }

    /// The rotation obtained by turning 180 degrees from this one.
    pub open spec fn opposite_spec(self) -> Theta {
        self.compose_spec(Theta::R180)
    }

    /// Cyclic composition of two rotations: applying `other` on top of `self`.
    pub fn compose(self, other: Theta) -> (r: Theta)
        ensures
            r == self.compose_spec(other),
    {
        let i = match self {
            Theta::R0 => 0u8,
            Theta::R90 => 1u8,
            Theta::R180 => 2u8,
            Theta::R270 => 3u8,
        };
        let j = match other {
            Theta::R0 => 0u8,
            Theta::R90 => 1u8,
            Theta::R180 => 2u8,
            Theta::R270 => 3u8,
        };
        match (i + j) % 4 {
            0 => Theta::R0,
            1 => Theta::R90,
            2 => Theta::R180,
            _ => Theta::R270,
        }
    }
}

/// Represents a single type of piece.
#[derive(Clone, Copy, Debug, PartialEq, Eq, PartialOrd, Ord, Structural)]
pub enum PieceType {
    I,
    J,
    L,
    O,
    S,
    T,
    Z,
}

impl PieceType {
    /// Ordinal of this piece type in declaration order, in `[0, 7)`.
    pub open spec fn ordinal_spec(self) -> int {
        match self {
            PieceType::I => 0,
            PieceType::J => 1,
            PieceType::L => 2,
            PieceType::O => 3,
            PieceType::S => 4,
            PieceType::T => 5,
            PieceType::Z => 6,
        }
    }

    /// The piece type whose ordinal is `i`.
    pub open spec fn from_index_spec(i: int) -> PieceType {
        if i == 0 {
            PieceType::I
        } else if i == 1 {
            PieceType::J
        } else if i == 2 {
            PieceType::L
        } else if i == 3 {
            PieceType::O
        } else if i == 4 {
            PieceType::S
        } else if i == 5 {
            PieceType::T
        } else {
            PieceType::Z
        }
    }

    /// Ordinal of this piece type in declaration order.
    pub fn ordinal(self) -> (r: u8)
        ensures
            r as int == self.ordinal_spec(),
    {
        match self {
            PieceType::I => 0,
            PieceType::J => 1,
            PieceType::L => 2,
            PieceType::O => 3,
            PieceType::S => 4,
            PieceType::T => 5,
            PieceType::Z => 6,
        }
    }

    /// Validated conversion from an integer ordinal; a value outside `[0, 7)`
    /// is a caller bug and is excluded by contract rather than reinterpreted.
    pub fn from_index(i: u32) -> (r: PieceType)
        requires
            i < PIECE_TYPE_COUNT as u32,
        ensures
            r == PieceType::from_index_spec(i as int),
            r.ordinal_spec() == i as int,
    {
        match i {
            0 => PieceType::I,
            1 => PieceType::J,
            2 => PieceType::L,
            3 => PieceType::O,
            4 => PieceType::S,
            5 => PieceType::T,
            _ => PieceType::Z,
        }
    }
}

/// Represents a single piece and associated information.
///
/// A piece is closely tied to a field.  Many functions that act on a piece
/// are found in the `Engine` struct.
#[derive(Clone, Copy, Debug, PartialEq, Eq, Structural)]
pub struct Piece {
    /// The type of piece.
    pub ty: PieceType,
    /// X position in the grid.
    pub x: u8,
    /// Y position in the grid.
    pub y: u8,
    /// Current absolute rotation of the piece from entry.
    pub theta: Theta,
    /// Milliseconds the piece has spent grounded towards its lock.
    pub lock_timer: u32,
    /// Number of rotations the piece has performed.
    pub rotation_count: u32,
    /// Number of movements the piece has performed.
    pub movement_count: u32,
    /// Number of floorkicks the piece has performed.
    pub floorkick_count: u32,
    /// Can this piece be held?
    pub can_hold: bool,
}

impl Default for Piece {
    /// This is typically only used internally since the default `PieceType`
    /// and `x`, `y` values are not reliable defaults.
    fn default() -> (r: Piece)
        ensures
            r == Piece::default_spec(),
    {
        Piece {
            ty: PieceType::I,
            x: 0,
            y: 0,
            theta: Theta::R0,
            lock_timer: 0,
            rotation_count: 0,
            movement_count: 0,
            floorkick_count: 0,
            can_hold: true,
        }
    }
}

impl Piece {
    /// The value produced by `Piece::default`.
    pub open spec fn default_spec() -> Piece {
        Piece {
            ty: PieceType::I,
            x: 0,
            y: 0,
            theta: Theta::R0,
            lock_timer: 0,
            rotation_count: 0,
            movement_count: 0,
            floorkick_count: 0,
            can_hold: true,
        }
    }

    /// Returns a new `Piece` of the specified type.
    pub fn new(ty: PieceType) -> (r: Piece)
        ensures
            r == (Piece { ty, ..Piece::default_spec() }),
    {
        Piece { ty, ..Default::default() }
    }

    /// The absolute grid cells the piece occupies: its rotation's cell
    /// offsets translated by its position.
    pub open spec fn blocks_spec(self) -> Seq<(u8, u8)> {
        piece_offsets_spec(self.ty, self.theta).map_values(
            |o: (u8, u8)| (((self.x + o.0) as u8), ((self.y + o.1) as u8)),
        )
    }

    /// Returns the current grid positions of the `Piece`'s four blocks.
    pub fn blocks(&self) -> (res: Vec<(u8, u8)>)
        requires
            self.x + 3 <= u8::MAX,
            self.y + 3 <= u8::MAX,
        ensures
            res@ == self.blocks_spec(),
            res@.len() == PIECE_BLOCK_COUNT,
    {
        let offs = piece_offsets(self.ty, self.theta);
        let o0 = offs[0];
        let o1 = offs[1];
        let o2 = offs[2];
        let o3 = offs[3];
        let mut v: Vec<(u8, u8)> = Vec::new();
        v.push((self.x + o0.0, self.y + o0.1));
        v.push((self.x + o1.0, self.y + o1.1));
        v.push((self.x + o2.0, self.y + o2.1));
        v.push((self.x + o3.0, self.y + o3.1));
        proof {
            assert(v@ =~= self.blocks_spec());
        }
        v
    }
}

} // verus!
