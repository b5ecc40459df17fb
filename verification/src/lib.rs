//! A chess position model: an 8x8 occupancy grid addressed by file/rank
//! coordinates, a piece model, a closed set of move variants, and the
//! `play`/`undo` transitions that apply and exactly reverse every category
//! of chess move.
//!
//! The board engine only *applies* moves; it does not generate them or
//! check legality. Each move variant carries enough information (the
//! captured piece, the promoted-to piece) to be inverted without any
//! external history.

/// A chess piece with an associated kind and color.
pub mod piece;

/// The coordinate system: files, ranks and squares.
pub mod square;

/// The move representation: a closed set of move variants.
pub mod moves;

/// The board engine: the occupancy grid and its play/undo transitions.
pub mod board;

/// Errors raised by coordinate parsing and move application.
pub mod error;
