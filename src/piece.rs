use vstd::prelude::*;

verus! {

/// What occupies a cell: one of the six players, or nothing.
#[derive(Clone, Copy, Debug, PartialEq, Eq, Hash, Structural)]
pub enum Piece {
    Head,
    Tail,
    LeftHand,
    RightHand,
    LeftFoot,
    RightFoot,
    Empty,
}

impl Piece {
    /// Position of the piece in the symbol table of a configuration.
    pub open spec fn spec_index(self) -> int {
        match self {
            Piece::Head => 0,
            Piece::Tail => 1,
            Piece::LeftHand => 2,
            Piece::RightHand => 3,
            Piece::LeftFoot => 4,
            Piece::RightFoot => 5,
            Piece::Empty => 6,
        }
    }

    pub fn index(self) -> (r: usize)
        ensures
            r == self.spec_index(),
            r < 7,
    {
        match self {
            Piece::Head => 0,
            Piece::Tail => 1,
            Piece::LeftHand => 2,
            Piece::RightHand => 3,
            Piece::LeftFoot => 4,
            Piece::RightFoot => 5,
            Piece::Empty => 6,
        }
    }
}

/// Why a move or a turn was refused.
#[derive(Clone, Copy, Debug, PartialEq, Eq, Structural)]
pub enum GameError {
    /// Tried to move piece from wrong player.
    WrongPlayer,
    /// Point does not exist on board.
    OutOfBounds,
    /// Cannot make it from source point to target point.
    NoRoute,
    /// Target point is occupied by another piece.
    OccupiedTarget,
    /// Attempt to mix single spot movement and jump chains in one turn.
    Exhausted,
}

/// The overall, padded row and column of a cell, both counted from 1.
/// The topmost cell of a board with four player lines is at row 1, column
/// 13: columns step by two along a row, and the same column number lies on
/// the same vertical line in every row.
#[derive(Clone, Copy, Debug, PartialEq, Eq, Structural)]
pub struct Point {
    pub row: i32,
    pub column: i32,
}

impl Point {
    pub fn new(row: i32, column: i32) -> (r: Point)
        ensures
            r.row == row,
            r.column == column,
    {
        Point { row, column }
    }
}

} // verus!
