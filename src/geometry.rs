//! The shape of the board, its padded coordinate system, and the rules of a
//! move and a turn, stated over plain sequences of rows.

use vstd::prelude::*;
use crate::piece::{GameError, Piece, Point};

verus! {

/// The largest number of player lines: the widest rows then reach column
/// `6 * n + 1`, which is still an `i32`.
pub const MAX_PLAYER_LINES: i32 = 357913941;

/// Number of cells in row `r` (counted from 0) of a board with `n` player
/// lines: a triangle of `n` rows, a band of `n` rows that shrink towards the
/// equator, the equator, the mirrored band, and the mirrored triangle.
pub open spec fn row_len(n: int, r: int) -> int {
    if r < n {
        r + 1
    } else if r <= 2 * n {
        4 * n + 1 - r
    } else if r <= 3 * n {
        r + 1
    } else {
        4 * n + 1 - r
    }
}

/// Width of each of the two side triangles in row `r` of the middle bands.
pub open spec fn side_width(n: int, r: int) -> int {
    if n <= r < 2 * n {
        2 * n - r
    } else if 2 * n < r <= 3 * n {
        r - 2 * n
    } else {
        0
    }
}

/// The piece in cell `c` of row `r` when a game starts.
pub open spec fn initial_piece(n: int, r: int, c: int) -> Piece {
    if r < n {
        Piece::Head
    } else if r < 2 * n {
        if c < side_width(n, r) {
            Piece::LeftHand
        } else if c >= row_len(n, r) - side_width(n, r) {
            Piece::RightHand
        } else {
            Piece::Empty
        }
    } else if r == 2 * n {
        Piece::Empty
    } else if r <= 3 * n {
        if c < side_width(n, r) {
            Piece::LeftFoot
        } else if c >= row_len(n, r) - side_width(n, r) {
            Piece::RightFoot
        } else {
            Piece::Empty
        }
    } else {
        Piece::Tail
    }
}

/// The rows of a board with `n` player lines when a game starts.
pub open spec fn initial_rows(n: int) -> Seq<Seq<Piece>> {
    Seq::new(
        (4 * n + 1) as nat,
        |r: int| Seq::new(row_len(n, r) as nat, |c: int| initial_piece(n, r, c)),
    )
}

/// The rows have the star shape of a board with `n` player lines.
pub open spec fn star_shaped(n: int, rows: Seq<Seq<Piece>>) -> bool {
    &&& rows.len() == 4 * n + 1
    &&& forall|r: int| 0 <= r < rows.len() ==> #[trigger] rows[r].len() == row_len(n, r)
}

/// Padded column of the first cell of a row of `len` cells: rows are centred
/// on column `3 * n + 1`.
pub open spec fn first_column(n: int, len: int) -> int {
    3 * n + 2 - len
}

/// The padded columns of a row of `len` cells, from left to right.
pub open spec fn valid_columns(n: int, len: int) -> Seq<int> {
    Seq::new(len as nat, |i: int| first_column(n, len) + 2 * i)
}

/// Position, within a row of `len` cells, of the cell at padded `column`.
pub open spec fn column_index(n: int, len: int, column: int) -> Option<int> {
    let d = column - first_column(n, len);
    if 0 <= d && d % 2 == 0 && d < 2 * len {
        Some(d / 2)
    } else {
        None
    }
}

/// Internal row and column of the padded point (`row`, `column`).
pub open spec fn index_pair(n: int, rows: Seq<Seq<Piece>>, row: int, column: int) -> Option<(int, int)> {
    let r = row - 1;
    if 0 <= r < rows.len() {
        match column_index(n, rows[r].len() as int, column) {
            Some(c) => Some((r, c)),
            None => None,
        }
    } else {
        None
    }
}

/// The piece at the padded point (`row`, `column`), if the point is a cell.
pub open spec fn piece_at(n: int, rows: Seq<Seq<Piece>>, row: int, column: int) -> Option<Piece> {
    match index_pair(n, rows, row, column) {
        Some((r, c)) => Some(rows[r][c]),
        None => None,
    }
}

pub open spec fn piece_at_point(n: int, rows: Seq<Seq<Piece>>, p: Point) -> Option<Piece> {
    piece_at(n, rows, p.row as int, p.column as int)
}

pub open spec fn abs(x: int) -> int {
    if x < 0 {
        -x
    } else {
        x
    }
}

/// Steps between two points: half the column difference along a row,
/// otherwise the row difference.
pub open spec fn distance(s: Point, t: Point) -> int {
    if s.row == t.row {
        abs(s.column - t.column) / 2
    } else {
        abs(s.row - t.row)
    }
}

/// The cell that a jump from `s` to `t` passes over: one row above the lower
/// end and one column left of the rightmost end. That is the cell between
/// the two ends only for jumps along the lines of the board; other pairs of
/// points two steps apart are not told apart from those.
pub open spec fn middle_row(s: Point, t: Point) -> int {
    if s.row >= t.row { s.row - 1 } else { t.row - 1 }
}

pub open spec fn middle_column(s: Point, t: Point) -> int {
    if s.column >= t.column { s.column - 1 } else { t.column - 1 }
}

/// Whether `player` may move from `s` to `t`, and if not, why.
pub open spec fn move_result(n: int, rows: Seq<Seq<Piece>>, s: Point, t: Point, player: Piece) -> Result<(), GameError> {
    let d = distance(s, t);
    let source = piece_at_point(n, rows, s);
    let target = piece_at_point(n, rows, t);
    let middle = piece_at(n, rows, middle_row(s, t), middle_column(s, t));
    if s == t || d > 2 {
        Err(GameError::NoRoute)
    } else if source is None || target is None {
        Err(GameError::OutOfBounds)
    } else if source != Some(player) {
        Err(GameError::WrongPlayer)
    } else if target != Some(Piece::Empty) {
        Err(GameError::OccupiedTarget)
    } else if d == 2 && (middle is None || middle == Some(Piece::Empty)) {
        Err(GameError::NoRoute)
    } else {
        Ok(())
    }
}

/// `rows` with the cell at `p` set to `piece`.
pub open spec fn put(n: int, rows: Seq<Seq<Piece>>, p: Point, piece: Piece) -> Seq<Seq<Piece>> {
    match index_pair(n, rows, p.row as int, p.column as int) {
        Some((r, c)) => rows.update(r, rows[r].update(c, piece)),
        None => rows,
    }
}

/// The rows after a move from `s` to `t` by `player`: the source empties,
/// then the target holds the player's piece.
pub open spec fn moved_rows(n: int, rows: Seq<Seq<Piece>>, s: Point, t: Point, player: Piece) -> Seq<Seq<Piece>> {
    put(n, put(n, rows, s, Piece::Empty), t, player)
}

/// The rows after an attempted move: changed only where it is legal.
pub open spec fn rows_after_move(n: int, rows: Seq<Seq<Piece>>, s: Point, t: Point, player: Piece) -> Seq<Seq<Piece>> {
    if move_result(n, rows, s, t, player) is Ok {
        moved_rows(n, rows, s, t, player)
    } else {
        rows
    }
}

/// Every segment of the path is a jump.
pub open spec fn all_jumps(points: Seq<Point>) -> bool {
    forall|i: int| 0 <= i < points.len() - 1 ==> distance(#[trigger] points[i], points[i + 1]) == 2
}

/// The moves along `points`, one after the other, stopping at the first one
/// that is refused: the rows reached, and the outcome.
pub open spec fn run_moves(n: int, rows: Seq<Seq<Piece>>, points: Seq<Point>, player: Piece) -> (Seq<Seq<Piece>>, Result<(), GameError>)
    decreases points.len(),
{
    if points.len() < 2 {
        (rows, Ok(()))
    } else {
        match move_result(n, rows, points[0], points[1], player) {
            Err(e) => (rows, Err(e)),
            Ok(_) => run_moves(n, moved_rows(n, rows, points[0], points[1], player), points.drop_first(), player),
        }
    }
}

/// A turn along `points`: a single move or jump, or a chain of jumps.
pub open spec fn turn_outcome(n: int, rows: Seq<Seq<Piece>>, points: Seq<Point>, player: Piece) -> (Seq<Seq<Piece>>, Result<(), GameError>) {
    if points.len() < 2 {
        (rows, Err(GameError::NoRoute))
    } else if points.len() > 2 && !all_jumps(points) {
        (rows, Err(GameError::Exhausted))
    } else {
        run_moves(n, rows, points, player)
    }
}

/// Where each player's goal triangle lies: whether its cells sit at the end
/// of each row, whether the triangle widens downwards, and its first row.
pub open spec fn home_zone(n: int, piece: Piece) -> (bool, bool, int) {
    match piece {
        Piece::Head => (false, false, 3 * n + 1),
        Piece::LeftHand => (true, true, 2 * n + 1),
        Piece::RightHand => (false, true, 2 * n + 1),
        Piece::LeftFoot => (true, false, n),
        Piece::RightFoot => (false, false, n),
        Piece::Tail => (false, true, 0),
        Piece::Empty => (false, false, 0),
    }
}

/// The `j`-th goal cell of `piece` in the `k`-th row of its goal triangle.
pub open spec fn goal_cell(n: int, rows: Seq<Seq<Piece>>, piece: Piece, k: int, j: int) -> Piece {
    let row = rows[home_zone(n, piece).2 + k];
    row[zone_cell(row.len() as int, home_zone(n, piece).0, j)]
}

/// Number of goal cells in the `k`-th row of a goal triangle.
pub open spec fn zone_width(n: int, increasing: bool, k: int) -> int {
    if increasing { k + 1 } else { n - k }
}

/// Position in its row of the `j`-th goal cell.
pub open spec fn zone_cell(len: int, reversed: bool, j: int) -> int {
    if reversed { len - 1 - j } else { j }
}

/// `piece` is a player and fills its whole goal triangle.
pub open spec fn has_won(n: int, rows: Seq<Seq<Piece>>, piece: Piece) -> bool {
    &&& piece != Piece::Empty
    &&& forall|k: int, j: int|
        0 <= k < n && 0 <= j < zone_width(n, home_zone(n, piece).1, k) ==>
            #[trigger] goal_cell(n, rows, piece, k, j) == piece
}

/// The `i`-th character of the text line of `row`: left padding up to the
/// width of the widest row, then a space and a symbol for each cell.
pub open spec fn line_char(n: int, row: Seq<Piece>, symbols: Seq<char>, i: int) -> char {
    let pad = 3 * n + 1 - row.len();
    if i < pad || (i - pad) % 2 == 0 {
        ' '
    } else {
        symbols[row[(i - pad) / 2].spec_index()]
    }
}

pub open spec fn render_row(n: int, row: Seq<Piece>, symbols: Seq<char>) -> Seq<char> {
    Seq::new((3 * n + 1 + row.len()) as nat, |i: int| line_char(n, row, symbols, i))
}

} // verus!
