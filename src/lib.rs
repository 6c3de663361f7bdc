//! A star-shaped board game in the family of Chinese checkers: the board's
//! padded coordinate system, move validation with jumps and jump chains, and
//! the win condition of each of the six players.

pub mod piece;
pub mod geometry;
pub mod board;
pub mod game;
pub mod laws;

pub use piece::{GameError, Piece, Point};
pub use board::{Board, Config};
pub use game::Game;
