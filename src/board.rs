//! The board: its configuration, its grid of cells, and the moves on it.

use vstd::prelude::*;
use crate::geometry::{
    MAX_PLAYER_LINES, has_won, index_pair, initial_rows, line_char, move_result,
    piece_at, piece_at_point, render_row, row_len, rows_after_move, star_shaped, turn_outcome,
    distance, goal_cell, zone_width, home_zone, all_jumps, run_moves, put,
};
use crate::piece::{GameError, Piece, Point};

verus! {

/// The number of player lines of a board and the symbol of each piece in
/// its text form.
#[derive(Clone, Debug)]
pub struct Config {
    player_lines: i32,
    symbols: Vec<char>,
}

/// Symbols of the pieces by default, in the order of `Piece::index`.
pub open spec fn default_symbols() -> Seq<char> {
    seq!['1', '2', '3', '5', '6', '4', '.']
}

impl Config {
    pub closed spec fn size(&self) -> int {
        self.player_lines as int
    }

    pub closed spec fn symbol_table(&self) -> Seq<char> {
        self.symbols@
    }

    pub closed spec fn wf(&self) -> bool {
        &&& 1 <= self.player_lines <= MAX_PLAYER_LINES
        &&& self.symbols@.len() == 7
    }

    /// A configuration with `player_lines` lines and the default symbols.
    pub fn new(player_lines: i32) -> (r: Config)
        requires
            1 <= player_lines <= MAX_PLAYER_LINES,
        ensures
            r.wf(),
            r.size() == player_lines,
            r.symbol_table() == default_symbols(),
    {
        let symbols: Vec<char> = vec!['1', '2', '3', '5', '6', '4', '.'];
        assert(symbols@ == default_symbols());
        Config { player_lines, symbols }
    }

    /// The same configuration with `symbol` drawn for `piece`.
    pub fn with_symbol(self, piece: Piece, symbol: char) -> (r: Config)
        requires
            self.wf(),
        ensures
            r.wf(),
            r.size() == self.size(),
            r.symbol_table() == self.symbol_table().update(piece.spec_index(), symbol),
    {
        let mut symbols = self.symbols;
        symbols.set(piece.index(), symbol);
        Config { player_lines: self.player_lines, symbols }
    }

    pub fn player_lines(&self) -> (r: i32)
        ensures
            r == self.size(),
    {
        self.player_lines
    }

    pub fn symbol(&self, piece: Piece) -> (r: char)
        requires
            self.wf(),
        ensures
            r == self.symbol_table()[piece.spec_index()],
    {
        self.symbols[piece.index()]
    }

    fn duplicate(&self) -> (r: Config)
        requires
            self.wf(),
        ensures
            r.wf(),
            r.size() == self.size(),
            r.symbol_table() == self.symbol_table(),
    {
        let mut symbols: Vec<char> = Vec::new();
        let mut i: usize = 0;
        while i < self.symbols.len()
            invariant
                i <= self.symbols@.len(),
                symbols@ == self.symbols@.take(i as int),
            decreases self.symbols@.len() - i,
        {
            symbols.push(self.symbols[i]);
            i = i + 1;
            assert(symbols@ =~= self.symbols@.take(i as int));
        }
        assert(symbols@ =~= self.symbols@);
        Config { player_lines: self.player_lines, symbols }
    }
}

impl Default for Config {
    /// Four player lines and the default symbols.
    fn default() -> (r: Config)
        ensures
            r.wf(),
            r.size() == 4,
            r.symbol_table() == default_symbols(),
    {
        Config::new(4)
    }
}

/// Cell coordinates inside the grid of rows.
struct IndexPair {
    row: usize,
    column: usize,
}

impl IndexPair {
    fn new(row: usize, column: usize) -> (r: IndexPair)
        ensures
            r.row == row,
            r.column == column,
    {
        IndexPair { row, column }
    }
}

/// A board: rows of cells in the shape of a six-pointed star.
#[derive(Clone, Debug)]
pub struct Board {
    rows: Vec<Vec<Piece>>,
    config: Config,
}

/// A row of `count` copies of `piece`.
pub open spec fn run_of(piece: Piece, count: int) -> Seq<Piece> {
    Seq::new(count as nat, |i: int| piece)
}

/// Appends `count` copies of `piece` to `row`.
fn push_run(row: &mut Vec<Piece>, piece: Piece, count: usize)
    ensures
        final(row)@ == old(row)@ + run_of(piece, count as int),
{
    let ghost start = row@;
    let mut i: usize = 0;
    while i < count
        invariant
            i <= count,
            row@ == start + run_of(piece, i as int),
        decreases count - i,
    {
        row.push(piece);
        i = i + 1;
        assert(row@ =~= start + run_of(piece, i as int));
    }
}

/// A row made of a left triangle, an empty gap and a right triangle.
fn banded_row(left: Piece, width: usize, gap: usize, right: Piece) -> (r: Vec<Piece>)
    ensures
        r@ == run_of(left, width as int) + run_of(Piece::Empty, gap as int) + run_of(right, width as int),
{
    let mut row: Vec<Piece> = Vec::new();
    push_run(&mut row, left, width);
    push_run(&mut row, Piece::Empty, gap);
    push_run(&mut row, right, width);
    assert(row@ =~= run_of(left, width as int) + run_of(Piece::Empty, gap as int) + run_of(right, width as int));
    row
}

impl Board {
    pub closed spec fn size(&self) -> int {
        self.config.player_lines as int
    }

    /// The contents of the rows, from the top row down.
    pub closed spec fn cells(&self) -> Seq<Seq<Piece>> {
        self.rows@.map_values(|row: Vec<Piece>| row@)
    }

    pub closed spec fn symbol_table(&self) -> Seq<char> {
        self.config.symbols@
    }

    pub closed spec fn wf(&self) -> bool {
        &&& self.config.wf()
        &&& star_shaped(self.size(), self.cells())
    }

    /// The board at the start of a game: the triangle of `Head` at the top,
    /// the hands on both sides above the equator, the feet below it, and the
    /// triangle of `Tail` at the bottom.
    pub fn new(config: Config) -> (r: Board)
        requires
            config.wf(),
        ensures
            r.wf(),
            r.size() == config.size(),
            r.symbol_table() == config.symbol_table(),
            r.cells() == initial_rows(config.size()),
            r.cells().len() == 4 * r.size() + 1,
            forall|i: int| 0 <= i <= 4 * r.size() ==>
                #[trigger] r.cells()[i].len() == r.cells()[4 * r.size() - i].len(),
    {
        let n = config.player_lines as usize;
        let ghost ni = n as int;
        let mut rows: Vec<Vec<Piece>> = Vec::new();
        let mut r: usize = 0;
        while r < n
            invariant
                ni == config.size(),
                ni == n,
                1 <= ni <= MAX_PLAYER_LINES,
                r <= ni,
                rows@.len() == r,
                forall|i: int| 0 <= i < r ==> (#[trigger] rows@[i])@ == initial_rows(ni)[i],
            decreases n - r,
        {
            let mut row: Vec<Piece> = Vec::new();
            push_run(&mut row, Piece::Head, r + 1);
            assert(row@ =~= initial_rows(ni)[r as int]);
            rows.push(row);
            r = r + 1;
        }
        while r < 2 * n
            invariant
                ni == config.size(),
                ni == n,
                1 <= ni <= MAX_PLAYER_LINES,
                ni <= r <= 2 * ni,
                rows@.len() == r,
                forall|i: int| 0 <= i < r ==> (#[trigger] rows@[i])@ == initial_rows(ni)[i],
            decreases 2 * n - r,
        {
            let row = banded_row(Piece::LeftHand, 2 * n - r, r + 1, Piece::RightHand);
            assert(row@ =~= initial_rows(ni)[r as int]);
            rows.push(row);
            r = r + 1;
        }
        let equator = banded_row(Piece::Empty, 0, 2 * n + 1, Piece::Empty);
        assert(equator@ =~= initial_rows(ni)[r as int]);
        rows.push(equator);
        r = r + 1;
        while r <= 3 * n
            invariant
                ni == config.size(),
                ni == n,
                1 <= ni <= MAX_PLAYER_LINES,
                2 * ni + 1 <= r <= 3 * ni + 1,
                rows@.len() == r,
                forall|i: int| 0 <= i < r ==> (#[trigger] rows@[i])@ == initial_rows(ni)[i],
            decreases 3 * n + 1 - r,
        {
            let row = banded_row(Piece::LeftFoot, r - 2 * n, 4 * n + 1 - r, Piece::RightFoot);
            assert(row@ =~= initial_rows(ni)[r as int]);
            rows.push(row);
            r = r + 1;
        }
        while r <= 4 * n
            invariant
                ni == config.size(),
                ni == n,
                1 <= ni <= MAX_PLAYER_LINES,
                3 * ni + 1 <= r <= 4 * ni + 1,
                rows@.len() == r,
                forall|i: int| 0 <= i < r ==> (#[trigger] rows@[i])@ == initial_rows(ni)[i],
            decreases 4 * n + 1 - r,
        {
            let mut row: Vec<Piece> = Vec::new();
            push_run(&mut row, Piece::Tail, 4 * n + 1 - r);
            assert(row@ =~= initial_rows(ni)[r as int]);
            rows.push(row);
            r = r + 1;
        }
        let board = Board { rows, config };
        assert(board.cells() =~= initial_rows(ni));
        board
    }
}

/// Steps between two points, as `distance` states it.
fn step_distance(s: Point, t: Point) -> (r: u64)
    ensures
        r == distance(s, t),
{
    if s.row == t.row {
        let dc: i64 = s.column as i64 - t.column as i64;
        let a: u64 = if dc < 0 { (-dc) as u64 } else { dc as u64 };
        a / 2
    } else {
        let dr: i64 = s.row as i64 - t.row as i64;
        if dr < 0 { (-dr) as u64 } else { dr as u64 }
    }
}

impl Board {
    proof fn lemma_row_bounds(&self, r: int)
        requires
            self.wf(),
            0 <= r < self.cells().len(),
        ensures
            1 <= self.cells()[r].len() <= 3 * self.size() + 1,
            self.rows@[r]@ == self.cells()[r],
    {
    }

    /// Grid position of the padded point (`row`, `column`).
    fn index_of(&self, row: i64, column: i64) -> (r: Option<IndexPair>)
        requires
            self.wf(),
            -0x1_0000_0000 <= column <= 0x1_0000_0000,
        ensures
            match index_pair(self.size(), self.cells(), row as int, column as int) {
                Some((a, b)) => r is Some && r->0.row == a && r->0.column == b,
                None => r is None,
            },
    {
        let n: i64 = self.config.player_lines as i64;
        if row < 1 || row > self.rows.len() as i64 {
            return None;
        }
        let r: usize = (row - 1) as usize;
        proof {
            self.lemma_row_bounds(r as int);
        }
        let len: i64 = self.rows[r].len() as i64;
        let d: i64 = column - (3 * n + 2 - len);
        if d < 0 {
            return None;
        }
        let du: u64 = d as u64;
        if du % 2 == 0 && du < 2 * (len as u64) {
            Some(IndexPair::new(r, (du / 2) as usize))
        } else {
            None
        }
    }

    fn get_index_pair(&self, point: Point) -> (r: Option<IndexPair>)
        requires
            self.wf(),
        ensures
            match index_pair(self.size(), self.cells(), point.row as int, point.column as int) {
                Some((a, b)) => r is Some && r->0.row == a && r->0.column == b,
                None => r is None,
            },
    {
        self.index_of(point.row as i64, point.column as i64)
    }

    fn cell(&self, row: i64, column: i64) -> (r: Option<Piece>)
        requires
            self.wf(),
            -0x1_0000_0000 <= column <= 0x1_0000_0000,
        ensures
            r == piece_at(self.size(), self.cells(), row as int, column as int),
    {
        match self.index_of(row, column) {
            Some(at) => {
                proof {
                    self.lemma_row_bounds(at.row as int);
                }
                Some(self.rows[at.row][at.column])
            },
            None => None,
        }
    }

    /// The piece at `point`, or `None` where `point` is no cell of the board.
    pub fn get_piece(&self, point: Point) -> (r: Option<Piece>)
        requires
            self.wf(),
        ensures
            r == piece_at_point(self.size(), self.cells(), point),
    {
        self.cell(point.row as i64, point.column as i64)
    }

    /// Whether `player` may move from `source` to `target`, without moving.
    fn check_move(&self, source: Point, target: Point, player: Piece) -> (r: Result<(), GameError>)
        requires
            self.wf(),
        ensures
            r == move_result(self.size(), self.cells(), source, target, player),
    {
        let distance = step_distance(source, target);
        if source == target || distance > 2 {
            return Err(GameError::NoRoute);
        }
        let source_piece = self.get_piece(source);
        let target_piece = self.get_piece(target);
        let source_piece = match source_piece {
            Some(p) => p,
            None => return Err(GameError::OutOfBounds),
        };
        let target_piece = match target_piece {
            Some(p) => p,
            None => return Err(GameError::OutOfBounds),
        };
        if source_piece != player {
            return Err(GameError::WrongPlayer);
        }
        if target_piece != Piece::Empty {
            return Err(GameError::OccupiedTarget);
        }
        if distance == 2 {
            let middle_row: i64 = if source.row >= target.row { source.row as i64 - 1 } else { target.row as i64 - 1 };
            let middle_column: i64 = if source.column >= target.column {
                source.column as i64 - 1
            } else {
                target.column as i64 - 1
            };
            match self.cell(middle_row, middle_column) {
                Some(Piece::Empty) => return Err(GameError::NoRoute),
                None => return Err(GameError::NoRoute),
                Some(_) => {},
            }
        }
        Ok(())
    }

    /// Sets one cell, leaving the shape of the board alone.
    fn set_cell(&mut self, at: IndexPair, piece: Piece)
        requires
            old(self).wf(),
            at.row < old(self).cells().len(),
            at.column < old(self).cells()[at.row as int].len(),
        ensures
            final(self).wf(),
            final(self).size() == old(self).size(),
            final(self).symbol_table() == old(self).symbol_table(),
            final(self).cells() == old(self).cells().update(
                at.row as int,
                old(self).cells()[at.row as int].update(at.column as int, piece),
            ),
    {
        let ghost before = self.cells();
        let mut row: Vec<Piece> = Vec::new();
        self.rows.set_and_swap(at.row, &mut row);
        row.set(at.column, piece);
        self.rows.set_and_swap(at.row, &mut row);
        assert(self.cells() =~= before.update(at.row as int, before[at.row as int].update(at.column as int, piece)));
    }

    /// Moves the piece of `player` from `source` to `target`, a single step
    /// or a jump over an occupied cell. A refused move changes nothing.
    pub fn move_piece(&mut self, source: Point, target: Point, player: Piece) -> (r: Result<(), GameError>)
        requires
            old(self).wf(),
        ensures
            final(self).wf(),
            final(self).size() == old(self).size(),
            final(self).symbol_table() == old(self).symbol_table(),
            r == move_result(old(self).size(), old(self).cells(), source, target, player),
            final(self).cells() == rows_after_move(old(self).size(), old(self).cells(), source, target, player),
    {
        let checked = self.check_move(source, target, player);
        if let Err(e) = checked {
            return Err(e);
        }
        let ghost n = self.size();
        let ghost before = self.cells();
        let source_at = self.get_index_pair(source);
        let target_at = self.get_index_pair(target);
        match (source_at, target_at) {
            (Some(s), Some(t)) => {
                self.set_cell(s, Piece::Empty);
                assert(self.cells() == put(n, before, source, Piece::Empty));
                self.set_cell(t, player);
                Ok(())
            },
            _ => Err(GameError::OutOfBounds),
        }
    }

    /// Whether `player` may move from `source` to `target`; the board stays
    /// as it is either way.
    pub fn try_move_piece(&self, source: Point, target: Point, player: Piece) -> (r: Result<(), GameError>)
        requires
            self.wf(),
        ensures
            r == move_result(self.size(), self.cells(), source, target, player),
    {
        self.check_move(source, target, player)
    }
}

/// Every segment of the path `points` is a jump.
fn only_jumps(points: &Vec<Point>) -> (r: bool)
    ensures
        r == all_jumps(points@),
{
    if points.len() < 2 {
        return true;
    }
    let mut i: usize = 0;
    while i < points.len() - 1
        invariant
            2 <= points@.len(),
            i < points@.len(),
            forall|j: int| 0 <= j < i ==> distance(#[trigger] points@[j], points@[j + 1]) == 2,
        decreases points@.len() - i,
    {
        if step_distance(points[i], points[i + 1]) != 2 {
            return false;
        }
        i = i + 1;
    }
    true
}

impl Board {
    /// Plays a turn along `points`: one move or jump, or a chain of two or
    /// more jumps. A turn that fails part way leaves the moves made before
    /// the failing one in place.
    pub fn take_turn(&mut self, points: Vec<Point>, player: Piece) -> (r: Result<(), GameError>)
        requires
            old(self).wf(),
        ensures
            final(self).wf(),
            final(self).size() == old(self).size(),
            final(self).symbol_table() == old(self).symbol_table(),
            (final(self).cells(), r) == turn_outcome(old(self).size(), old(self).cells(), points@, player),
    {
        let len = points.len();
        if len < 2 {
            return Err(GameError::NoRoute);
        }
        if len > 2 && !only_jumps(&points) {
            return Err(GameError::Exhausted);
        }
        let ghost n = self.size();
        let ghost whole = run_moves(n, self.cells(), points@, player);
        assert(points@.subrange(0, len as int) =~= points@);
        let mut i: usize = 0;
        while i + 1 < len
            invariant
                len == points@.len(),
                2 <= len,
                whole == turn_outcome(n, old(self).cells(), points@, player),
                i < len,
                self.wf(),
                self.size() == n,
                n == old(self).size(),
                self.symbol_table() == old(self).symbol_table(),
                whole == run_moves(n, self.cells(), points@.subrange(i as int, len as int), player),
            decreases len - i,
        {
            let ghost rest = points@.subrange(i as int, len as int);
            assert(rest[0] == points@[i as int] && rest[1] == points@[i + 1]);
            assert(rest.drop_first() =~= points@.subrange(i + 1, len as int));
            let moved = self.move_piece(points[i], points[i + 1], player);
            if let Err(e) = moved {
                return Err(e);
            }
            i = i + 1;
        }
        Ok(())
    }

    /// A copy of the board that shares nothing with it.
    fn duplicate(&self) -> (r: Board)
        requires
            self.wf(),
        ensures
            r.wf(),
            r.size() == self.size(),
            r.symbol_table() == self.symbol_table(),
            r.cells() == self.cells(),
    {
        let mut rows: Vec<Vec<Piece>> = Vec::new();
        let mut i: usize = 0;
        while i < self.rows.len()
            invariant
                i <= self.rows@.len(),
                rows@.len() == i,
                forall|k: int| 0 <= k < i ==> (#[trigger] rows@[k])@ == self.rows@[k]@,
            decreases self.rows@.len() - i,
        {
            let source = &self.rows[i];
            let mut row: Vec<Piece> = Vec::new();
            let mut j: usize = 0;
            while j < source.len()
                invariant
                    j <= source@.len(),
                    row@ == source@.take(j as int),
                decreases source@.len() - j,
            {
                row.push(source[j]);
                j = j + 1;
                assert(row@ =~= source@.take(j as int));
            }
            assert(row@ =~= source@);
            rows.push(row);
            i = i + 1;
        }
        let copy = Board { rows, config: self.config.duplicate() };
        assert(copy.cells() =~= self.cells());
        copy
    }

    /// The outcome that `take_turn` would have; the board stays as it is.
    pub fn try_turn(&self, points: Vec<Point>, player: Piece) -> (r: Result<(), GameError>)
        requires
            self.wf(),
        ensures
            r == turn_outcome(self.size(), self.cells(), points@, player).1,
    {
        let mut trial = self.duplicate();
        trial.take_turn(points, player)
    }
}

/// Relies on `String::push`: the character goes at the end of the string.
#[verifier::external_body]
fn push_char(line: &mut String, c: char)
    ensures
        final(line)@ == old(line)@.push(c),
{
    line.push(c);
}

/// Number of cells in row `r` of a board with `n` player lines.
fn expected_row_len(n: usize, r: usize) -> (len: usize)
    requires
        1 <= n <= MAX_PLAYER_LINES,
        r <= 4 * n,
    ensures
        len == row_len(n as int, r as int),
{
    if r < n {
        r + 1
    } else if r <= 2 * n {
        4 * n + 1 - r
    } else if r <= 3 * n {
        r + 1
    } else {
        4 * n + 1 - r
    }
}

impl Board {
    /// A board of the given rows, where they have the star shape that
    /// `config` asks for; `None` otherwise.
    pub fn from_rows(config: Config, rows: Vec<Vec<Piece>>) -> (r: Option<Board>)
        requires
            config.wf(),
        ensures
            r is Some <==> star_shaped(config.size(), rows@.map_values(|row: Vec<Piece>| row@)),
            r is Some ==> {
                &&& r->0.wf()
                &&& r->0.size() == config.size()
                &&& r->0.symbol_table() == config.symbol_table()
                &&& r->0.cells() == rows@.map_values(|row: Vec<Piece>| row@)
            },
    {
        let n = config.player_lines as usize;
        let ghost cells = rows@.map_values(|row: Vec<Piece>| row@);
        if rows.len() != 4 * n + 1 {
            return None;
        }
        let mut i: usize = 0;
        while i < rows.len()
            invariant
                n == config.size(),
                1 <= n <= MAX_PLAYER_LINES,
                rows@.len() == 4 * n + 1,
                cells == rows@.map_values(|row: Vec<Piece>| row@),
                i <= rows@.len(),
                forall|k: int| 0 <= k < i ==> #[trigger] cells[k].len() == row_len(n as int, k),
            decreases rows@.len() - i,
        {
            if rows[i].len() != expected_row_len(n, i) {
                assert(cells[i as int].len() != row_len(n as int, i as int));
                return None;
            }
            i = i + 1;
        }
        Some(Board { rows, config })
    }

    /// The configuration the board was made with.
    pub fn config(&self) -> (r: &Config)
        ensures
            r.size() == self.size(),
            r.symbol_table() == self.symbol_table(),
    {
        &self.config
    }

    /// The rows of cells, from the top row down.
    pub fn rows(&self) -> (r: &Vec<Vec<Piece>>)
        ensures
            r@.map_values(|row: Vec<Piece>| row@) == self.cells(),
    {
        &self.rows
    }

    /// The text form of the board, one line per row: each cell is a space
    /// and its symbol, and each line is padded on the left so that the rows
    /// are centred.
    pub fn serialize(&self) -> (r: Vec<String>)
        requires
            self.wf(),
        ensures
            r@.len() == self.cells().len(),
            forall|i: int| 0 <= i < r@.len() ==>
                (#[trigger] r@[i])@ == render_row(self.size(), self.cells()[i], self.symbol_table()),
    {
        let width = self.config.player_lines as usize * 3 + 1;
        let ghost n = self.size();
        let ghost symbols = self.symbol_table();
        let mut lines: Vec<String> = Vec::new();
        let mut i: usize = 0;
        while i < self.rows.len()
            invariant
                self.wf(),
                n == self.size(),
                symbols == self.symbol_table(),
                width == 3 * n + 1,
                i <= self.rows@.len(),
                lines@.len() == i,
                forall|k: int| 0 <= k < i ==>
                    (#[trigger] lines@[k])@ == render_row(n, self.cells()[k], symbols),
            decreases self.rows@.len() - i,
        {
            proof {
                self.lemma_row_bounds(i as int);
            }
            let row = &self.rows[i];
            let ghost cells = row@;
            let pad = width - row.len();
            let mut line = String::new();
            let mut k: usize = 0;
            while k < pad
                invariant
                    k <= pad,
                    pad == 3 * n + 1 - cells.len(),
                    line@.len() == k,
                    forall|x: int| 0 <= x < k ==> #[trigger] line@[x] == line_char(n, cells, symbols, x),
                decreases pad - k,
            {
                push_char(&mut line, ' ');
                k = k + 1;
            }
            let mut j: usize = 0;
            while j < row.len()
                invariant
                    self.wf(),
                    symbols == self.symbol_table(),
                    cells == row@,
                    j <= cells.len(),
                    pad == 3 * n + 1 - cells.len(),
                    line@.len() == pad + 2 * j,
                    forall|x: int| 0 <= x < pad + 2 * j ==> #[trigger] line@[x] == line_char(n, cells, symbols, x),
                decreases cells.len() - j,
            {
                let symbol = self.config.symbol(row[j]);
                push_char(&mut line, ' ');
                push_char(&mut line, symbol);
                assert(line_char(n, cells, symbols, pad + 2 * j) == ' ');
                assert(line_char(n, cells, symbols, pad + 2 * j + 1) == symbol);
                j = j + 1;
            }
            assert(line@ =~= render_row(n, cells, symbols));
            lines.push(line);
            i = i + 1;
        }
        lines
    }

    /// Whether `piece` is a player whose goal triangle, the triangle
    /// opposite its own, holds its piece in every cell.
    pub fn has_player_won(&self, piece: Piece) -> (r: bool)
        requires
            self.wf(),
        ensures
            r == has_won(self.size(), self.cells(), piece),
    {
        let pl = self.config.player_lines as usize;
        let ghost n = self.size();
        let (reversed, increasing, start): (bool, bool, usize) = match piece {
            Piece::Head => (false, false, pl * 3 + 1),
            Piece::LeftHand => (true, true, pl * 2 + 1),
            Piece::RightHand => (false, true, pl * 2 + 1),
            Piece::LeftFoot => (true, false, pl),
            Piece::RightFoot => (false, false, pl),
            Piece::Tail => (false, true, 0),
            Piece::Empty => return false,
        };
        assert(home_zone(n, piece) == (reversed, increasing, start as int));
        let mut k: usize = 0;
        while k < pl
            invariant
                self.wf(),
                n == self.size(),
                pl == n,
                piece != Piece::Empty,
                home_zone(n, piece) == (reversed, increasing, start as int),
                k <= pl,
                forall|k2: int, j: int|
                    0 <= k2 < k && 0 <= j < zone_width(n, increasing, k2) ==>
                        #[trigger] goal_cell(n, self.cells(), piece, k2, j) == piece,
            decreases pl - k,
        {
            proof {
                self.lemma_row_bounds(start + k);
            }
            let row = &self.rows[start + k];
            let ghost cells = row@;
            let width = if increasing { k + 1 } else { pl - k };
            assert(width <= cells.len());
            let mut j: usize = 0;
            while j < width
                invariant
                    cells == row@,
                    cells == self.cells()[start + k],
                    self.wf(),
                    n == self.size(),
                    piece != Piece::Empty,
                    home_zone(n, piece) == (reversed, increasing, start as int),
                    k < n,
                    width == zone_width(n, increasing, k as int),
                    width <= cells.len(),
                    j <= width,
                    forall|k2: int, j2: int|
                        0 <= k2 < k && 0 <= j2 < zone_width(n, increasing, k2) ==>
                            #[trigger] goal_cell(n, self.cells(), piece, k2, j2) == piece,
                    forall|j2: int| 0 <= j2 < j ==> #[trigger] goal_cell(n, self.cells(), piece, k as int, j2) == piece,
                decreases width - j,
            {
                let c = if reversed { row.len() - 1 - j } else { j };
                if row[c] != piece {
                    assert(goal_cell(n, self.cells(), piece, k as int, j as int) != piece);
                    return false;
                }
                assert(goal_cell(n, self.cells(), piece, k as int, j as int) == piece);
                j = j + 1;
            }
            k = k + 1;
        }
        true
    }
}

impl Default for Board {
    /// The board of four player lines with the default symbols.
    fn default() -> (r: Board)
        ensures
            r.wf(),
            r.size() == 4,
            r.symbol_table() == default_symbols(),
            r.cells() == initial_rows(4),
    {
        Board::new(Config::default())
    }
}

} // verus!
