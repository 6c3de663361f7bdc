//! Laws of the board that relate several operations.

use vstd::prelude::*;
use crate::board::Board;
use crate::geometry::{
    column_index, distance, index_pair, middle_row, move_result, moved_rows, piece_at,
    piece_at_point, put, valid_columns,
};
use crate::piece::{Piece, Point};

verus! {

/// Setting a cell changes no row's length, so every point addresses the same
/// cell before and after.
proof fn lemma_put_keeps_cells(n: int, rows: Seq<Seq<Piece>>, q: Point, piece: Piece, row: int, column: int)
    ensures
        put(n, rows, q, piece).len() == rows.len(),
        forall|r: int| 0 <= r < rows.len() ==> #[trigger] put(n, rows, q, piece)[r].len() == rows[r].len(),
        index_pair(n, put(n, rows, q, piece), row, column) == index_pair(n, rows, row, column),
{
}

/// `get_piece` finds a piece at exactly the points whose row is a row of the
/// board and whose column is one of that row's padded columns.
pub proof fn lemma_get_piece_columns(board: &Board, point: Point)
    requires
        board.wf(),
    ensures
        piece_at_point(board.size(), board.cells(), point) is Some <==> {
            &&& 1 <= point.row <= board.cells().len()
            &&& valid_columns(board.size(), board.cells()[point.row - 1].len() as int).contains(point.column as int)
        },
{
    let n = board.size();
    let rows = board.cells();
    let r = point.row - 1;
    if 1 <= point.row <= rows.len() {
        let len = rows[r].len() as int;
        let cols = valid_columns(n, len);
        match column_index(n, len, point.column as int) {
            Some(i) => {
                assert(cols[i] == point.column);
            },
            None => {
                if cols.contains(point.column as int) {
                    let i = choose|i: int| 0 <= i < cols.len() && cols[i] == point.column;
                    assert(point.column - (3 * n + 2 - len) == 2 * i);
                }
            },
        }
    }
}

/// A legal move followed by the same player's move straight back is legal
/// too, and it restores every cell: the jumped-over cell is neither end of
/// the move, so it is still occupied.
pub proof fn lemma_move_round_trip(board: &Board, source: Point, target: Point, player: Piece)
    requires
        board.wf(),
        move_result(board.size(), board.cells(), source, target, player) is Ok,
    ensures
        ({
            let n = board.size();
            let moved = moved_rows(n, board.cells(), source, target, player);
            &&& move_result(n, moved, target, source, player) is Ok
            &&& moved_rows(n, moved, target, source, player) == board.cells()
        }),
{
    let n = board.size();
    let rows = board.cells();
    let emptied = put(n, rows, source, Piece::Empty);
    let moved = put(n, emptied, target, player);
    let (sr, sc) = index_pair(n, rows, source.row as int, source.column as int)->0;
    let (tr, tc) = index_pair(n, rows, target.row as int, target.column as int)->0;
    let mr = middle_row(source, target);
    let mc = if source.column >= target.column { source.column - 1 } else { target.column - 1 };
    lemma_put_keeps_cells(n, rows, source, Piece::Empty, source.row as int, source.column as int);
    lemma_put_keeps_cells(n, rows, source, Piece::Empty, target.row as int, target.column as int);
    lemma_put_keeps_cells(n, rows, source, Piece::Empty, mr, mc);
    lemma_put_keeps_cells(n, emptied, target, player, source.row as int, source.column as int);
    lemma_put_keeps_cells(n, emptied, target, player, target.row as int, target.column as int);
    lemma_put_keeps_cells(n, emptied, target, player, mr, mc);
    assert(sr != tr || sc != tc);
    if distance(source, target) == 2 {
        assert(mr != source.row && mr != target.row);
        assert(piece_at(n, moved, mr, mc) == piece_at(n, rows, mr, mc));
    }
    assert(distance(target, source) == distance(source, target));
    assert(piece_at_point(n, moved, target) == Some(player));
    assert(piece_at_point(n, moved, source) == Some(Piece::Empty));
    assert(move_result(n, moved, target, source, player) is Ok);
    let back = put(n, put(n, moved, target, Piece::Empty), source, player);
    lemma_put_keeps_cells(n, moved, target, Piece::Empty, source.row as int, source.column as int);
    assert(rows[sr][sc] == player);
    assert(rows[tr][tc] == Piece::Empty);
    assert forall|r: int| 0 <= r < rows.len() implies #[trigger] back[r] =~= rows[r] by {}
    assert(back =~= rows);
}

} // verus!
