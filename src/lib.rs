//! Rule engine of a falling-block puzzle game: the board, the pieces, the
//! collision rules, rotation with corrective shifts, line clearing, scoring
//! and the overflow that ends a game.
pub mod board;
pub mod piece;
pub mod collision;
pub mod rotation;
pub mod lines;
pub mod timer;
pub mod game;
