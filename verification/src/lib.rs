//! Deterministic simulation core of a falling-block puzzle game.
//!
//! Given a seed, a configuration and a per-tick stream of player inputs, the
//! engine produces a fully reproducible sequence of game states.  The crate
//! holds the tick-driven state machine (gravity, locking, line clearing,
//! hold), the piece-rotation and wallkick resolver, the seeded random piece
//! generator, and the finesse (optimal-move) calculator.

pub mod constants;
pub mod engine;
pub mod finesse;
pub mod primitives;
pub mod random;
pub mod rotation;
