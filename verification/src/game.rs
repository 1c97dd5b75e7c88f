//! Turn orchestration: round-robin over the registered players, one
//! placement per turn, and a win check after every placement.

use vstd::prelude::*;
use crate::board::{Board, Cell, PlaceError, SizeError, all_empty, is_grid};
use crate::registry::{PlayerRegistry, distinct};
use crate::win::{has_won, winning};

verus! {

/// What a completed turn led to.
#[derive(Clone, Copy, PartialEq, Eq, Structural, Debug)]
pub enum Outcome {
    /// The mover completed a row, column, or diagonal: the game is over.
    Won(char),
    /// No win yet: the next player in registration order is up.
    Continue,
}

/// A game in progress: the players in registration order, the board, whose
/// turn it is, and the winner once one exists. Turns go round-robin over the
/// players, in registration order, and stop at the first detected win.
pub struct Game {
    players: PlayerRegistry,
    board: Board,
    turn: usize,
    winner: Option<char>,
}

impl Game {
    /// The registered players, in registration order.
    pub closed spec fn spec_players(&self) -> Seq<char> {
        self.players@
    }

    /// The board's cells.
    pub closed spec fn spec_board(&self) -> Seq<Seq<Cell>> {
        self.board@
    }

    /// Whose turn it is, as an index into the players.
    pub closed spec fn spec_turn(&self) -> int {
        self.turn as int
    }

    /// The winner, once a win has been detected.
    pub closed spec fn spec_winner(&self) -> Option<char> {
        self.winner
    }

    /// The game's invariant: distinct players, at least two of them, a
    /// square board at least as large as the player count, a turn index in
    /// range, and a recorded winner only for a player who truly has a full
    /// row, column, or diagonal.
    pub open spec fn wf(&self) -> bool {
        &&& distinct(self.spec_players())
        &&& self.spec_players().len() >= 2
        &&& is_grid(self.spec_board())
        &&& self.spec_board().len() >= self.spec_players().len()
        &&& 0 <= self.spec_turn() < self.spec_players().len()
        &&& (self.spec_winner() matches Some(p) ==>
            winning(self.spec_board(), p) && self.spec_players().contains(p))
    }

    /// Starts a game on a fresh `size` x `size` board for the registered
    /// players; a board smaller than the player count is refused. The first
    /// registered player moves first.
    pub fn new(players: PlayerRegistry, size: usize) -> (r: Result<Game, SizeError>)
        requires
            players.wf(),
            players@.len() >= 2,
        ensures
            r is Ok <==> size >= players@.len(),
            r matches Ok(g) ==> g.wf()
                && g.spec_players() == players@
                && g.spec_board().len() == size
                && all_empty(g.spec_board())
                && g.spec_turn() == 0
                && g.spec_winner() is None,
    {
        let board = match Board::new(size, players.len()) {
            Ok(b) => b,
            Err(e) => {
                return Err(e);
            },
        };
        Ok(Game { players, board, turn: 0, winner: None })
    }

    /// The identifier of the player whose turn it is.
    pub fn current_player(&self) -> (p: char)
        requires
            self.wf(),
        ensures
            p == self.spec_players()[self.spec_turn()],
    {
        self.players.player_at(self.turn)
    }

    /// The winner, if the game is over.
    pub fn winner(&self) -> (w: Option<char>)
        ensures
            w == self.spec_winner(),
    {
        self.winner
    }

    /// Read access to the board.
    pub fn board(&self) -> (b: &Board)
        ensures
            b@ == self.spec_board(),
    {
        &self.board
    }

    /// Plays one turn: the current player marks `(row, col)`.
    ///
    /// An out-of-range position or an occupied cell is refused with the
    /// exact error and changes nothing; the same player stays on turn for
    /// the retry. An accepted placement marks the cell for the mover; if the
    /// mover now owns a full row, column, or diagonal, the game is over and
    /// the mover is recorded as the winner, otherwise the turn passes to the
    /// next player in registration order, cyclically.
    pub fn play(&mut self, row: usize, col: usize) -> (r: Result<Outcome, PlaceError>)
        requires
            old(self).wf(),
            old(self).spec_winner() is None,
        ensures
            final(self).wf(),
            final(self).spec_players() == old(self).spec_players(),
            final(self).spec_board().len() == old(self).spec_board().len(),
            ({
                let b0 = old(self).spec_board();
                let n = b0.len();
                let mover = old(self).spec_players()[old(self).spec_turn()];
                &&& (r is Ok <==> (row < n && col < n && b0[row as int][col as int] is Empty))
                &&& ((row >= n || col >= n)
                    ==> r == Err::<Outcome, PlaceError>(PlaceError::OutOfRange))
                &&& ((row < n && col < n && b0[row as int][col as int] is Occupied)
                    ==> r == Err::<Outcome, PlaceError>(PlaceError::Occupied))
                &&& (r is Err ==> final(self).spec_board() == b0
                    && final(self).spec_turn() == old(self).spec_turn()
                    && final(self).spec_winner() is None)
                &&& (r is Ok ==> ({
                    let b1 = b0.update(
                        row as int,
                        b0[row as int].update(col as int, Cell::Occupied(mover)),
                    );
                    &&& final(self).spec_board() == b1
                    &&& (winning(b1, mover) ==> r == Ok::<Outcome, PlaceError>(Outcome::Won(mover))
                        && final(self).spec_winner() == Some(mover)
                        && final(self).spec_turn() == old(self).spec_turn())
                    &&& (!winning(b1, mover) ==> r == Ok::<Outcome, PlaceError>(Outcome::Continue)
                        && final(self).spec_winner() is None
                        && final(self).spec_turn()
                            == (old(self).spec_turn() + 1) % (old(self).spec_players().len() as int))
                }))
            }),
    {
        let mover = self.players.player_at(self.turn);
        match self.board.place(row, col, mover) {
            Err(e) => Err(e),
            Ok(()) => {
                if has_won(&self.board, mover) {
                    self.winner = Some(mover);
                    proof {
                        assert(self.spec_players().contains(mover));
                    }
                    Ok(Outcome::Won(mover))
                } else {
                    let n = self.players.len();
                    assert(self.turn < n);
                    self.turn = (self.turn + 1) % n;
                    Ok(Outcome::Continue)
                }
            },
        }
    }
}

} // verus!
