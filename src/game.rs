//! A game: a board and the players still playing on it.

use vstd::prelude::*;
use crate::board::Board;
use crate::geometry::{has_won, turn_outcome};
use crate::piece::{GameError, Piece, Point};

verus! {

/// `players` without any occurrence of `finished`, in the same order.
pub open spec fn without(players: Seq<Piece>, finished: Piece) -> Seq<Piece>
    decreases players.len(),
{
    if players.len() == 0 {
        players
    } else {
        let rest = without(players.drop_last(), finished);
        if players.last() == finished {
            rest
        } else {
            rest.push(players.last())
        }
    }
}

/// A board and the players, in turn order, who have not finished yet.
#[derive(Clone, Debug)]
pub struct Game {
    pub board: Board,
    pieces: Vec<Piece>,
}

impl Game {
    pub closed spec fn board_state(&self) -> Board {
        self.board
    }

    /// The players who have not finished yet, in turn order.
    pub closed spec fn players(&self) -> Seq<Piece> {
        self.pieces@
    }

    pub fn new(board: Board, pieces: Vec<Piece>) -> (r: Game)
        ensures
            r.board_state() == board,
            r.players() == pieces@,
    {
        Game { board, pieces }
    }

    /// The players who have not finished yet, in turn order.
    pub fn pieces(&self) -> (r: &Vec<Piece>)
        ensures
            r@ == self.players(),
    {
        &self.pieces
    }

    /// Plays one turn of `piece` along `points`. When the turn makes `piece`
    /// fill its goal triangle, `piece` leaves the players and the result is
    /// `Ok(true)`; otherwise the players stay as they are.
    pub fn play_turn(&mut self, points: Vec<Point>, piece: Piece) -> (r: Result<bool, GameError>)
        requires
            old(self).board_state().wf(),
        ensures
            final(self).board_state().wf(),
            final(self).board_state().size() == old(self).board_state().size(),
            final(self).board_state().symbol_table() == old(self).board_state().symbol_table(),
            final(self).board_state().cells() == turn_outcome(
                old(self).board_state().size(),
                old(self).board_state().cells(),
                points@,
                piece,
            ).0,
            match turn_outcome(old(self).board_state().size(), old(self).board_state().cells(), points@, piece).1 {
                Err(e) => r == Err::<bool, GameError>(e) && final(self).players() == old(self).players(),
                Ok(_) => {
                    let won = has_won(final(self).board_state().size(), final(self).board_state().cells(), piece);
                    &&& r == Ok::<bool, GameError>(won)
                    &&& final(self).players() == if won {
                        without(old(self).players(), piece)
                    } else {
                        old(self).players()
                    }
                },
            },
    {
        let taken = self.board.take_turn(points, piece);
        if let Err(e) = taken {
            return Err(e);
        }
        let won = self.board.has_player_won(piece);
        if won {
            self.pieces = remaining_players(&self.pieces, piece);
        }
        Ok(won)
    }
}

/// The players of `playing` other than `finished`, in the same order.
pub fn remaining_players(playing: &Vec<Piece>, finished: Piece) -> (r: Vec<Piece>)
    ensures
        r@ == without(playing@, finished),
{
    let mut kept: Vec<Piece> = Vec::new();
    let mut i: usize = 0;
    while i < playing.len()
        invariant
            i <= playing@.len(),
            kept@ == without(playing@.take(i as int), finished),
        decreases playing@.len() - i,
    {
        let ghost before = playing@.take(i as int);
        assert(playing@.take(i + 1).drop_last() =~= before);
        if playing[i] != finished {
            kept.push(playing[i]);
        }
        i = i + 1;
    }
    assert(playing@.take(i as int) =~= playing@);
    kept
}

} // verus!
