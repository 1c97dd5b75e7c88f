//! Win detection: a player wins by owning a full row, a full column, or a
//! full diagonal. The three conditions are independent: each is evaluated on
//! its own, and any one of them decides the game.

use vstd::prelude::*;
use crate::board::{Board, Cell, all_empty, is_grid};

verus! {

/// Row `r` is entirely occupied by `p`.
pub open spec fn row_won(b: Seq<Seq<Cell>>, p: char, r: int) -> bool {
    forall|c: int| 0 <= c < b.len() ==> #[trigger] b[r][c] == Cell::Occupied(p)
}

/// Some row is entirely occupied by `p`.
pub open spec fn has_row_win(b: Seq<Seq<Cell>>, p: char) -> bool {
    exists|r: int| 0 <= r < b.len() && #[trigger] row_won(b, p, r)
}

/// Column `c` is entirely occupied by `p`.
pub open spec fn col_won(b: Seq<Seq<Cell>>, p: char, c: int) -> bool {
    forall|r: int| 0 <= r < b.len() ==> #[trigger] b[r][c] == Cell::Occupied(p)
}

/// Some column is entirely occupied by `p`.
pub open spec fn has_col_win(b: Seq<Seq<Cell>>, p: char) -> bool {
    exists|c: int| 0 <= c < b.len() && #[trigger] col_won(b, p, c)
}

/// The main diagonal is entirely occupied by `p`.
pub open spec fn main_diag_won(b: Seq<Seq<Cell>>, p: char) -> bool {
    forall|i: int| 0 <= i < b.len() ==> #[trigger] b[i][i] == Cell::Occupied(p)
}

/// The anti-diagonal is entirely occupied by `p`.
pub open spec fn anti_diag_won(b: Seq<Seq<Cell>>, p: char) -> bool {
    forall|i: int| 0 <= i < b.len() ==> (#[trigger] b[i])[b.len() - 1 - i] == Cell::Occupied(p)
}

/// `p` has won: a full row, a full column, or a full diagonal is theirs.
pub open spec fn winning(b: Seq<Seq<Cell>>, p: char) -> bool {
    ||| has_row_win(b, p)
    ||| has_col_win(b, p)
    ||| main_diag_won(b, p)
    ||| anti_diag_won(b, p)
}

/// Whether `player` has won on this board, by a full row, a full column, or
/// a full diagonal of their own marks.
pub fn has_won(board: &Board, player: char) -> (r: bool)
    requires
        board.wf(),
    ensures
        r == winning(board@, player),
{
    check_rows(board, player) || check_cols(board, player) || check_main_diag(board, player)
        || check_anti_diag(board, player)
}

/// Whether `player` owns all of row `row`.
fn row_filled(board: &Board, player: char, row: usize) -> (r: bool)
    requires
        board.wf(),
        row < board@.len(),
    ensures
        r == row_won(board@, player, row as int),
{
    let n = board.size();
    let mut c: usize = 0;
    while c < n
        invariant
            board.wf(),
            n == board@.len(),
            row < n,
            c <= n,
            forall|j: int| 0 <= j < c ==> #[trigger] board@[row as int][j] == Cell::Occupied(player),
        decreases n - c,
    {
        if board.cell(row, c) != Cell::Occupied(player) {
            return false;
        }
        c = c + 1;
    }
    true
}

/// Whether some row is entirely `player`'s.
fn check_rows(board: &Board, player: char) -> (r: bool)
    requires
        board.wf(),
    ensures
        r == has_row_win(board@, player),
{
    let n = board.size();
    let mut row: usize = 0;
    while row < n
        invariant
            board.wf(),
            n == board@.len(),
            row <= n,
            forall|i: int| 0 <= i < row ==> !#[trigger] row_won(board@, player, i),
        decreases n - row,
    {
        if row_filled(board, player, row) {
            return true;
        }
        row = row + 1;
    }
    false
}

/// Whether `player` owns all of column `col`.
fn col_filled(board: &Board, player: char, col: usize) -> (r: bool)
    requires
        board.wf(),
        col < board@.len(),
    ensures
        r == col_won(board@, player, col as int),
{
    let n = board.size();
    let mut row: usize = 0;
    while row < n
        invariant
            board.wf(),
            n == board@.len(),
            col < n,
            row <= n,
            forall|i: int| 0 <= i < row ==> #[trigger] board@[i][col as int] == Cell::Occupied(player),
        decreases n - row,
    {
        if board.cell(row, col) != Cell::Occupied(player) {
            return false;
        }
        row = row + 1;
    }
    true
}

/// Whether some column is entirely `player`'s.
fn check_cols(board: &Board, player: char) -> (r: bool)
    requires
        board.wf(),
    ensures
        r == has_col_win(board@, player),
{
    let n = board.size();
    let mut col: usize = 0;
    while col < n
        invariant
            board.wf(),
            n == board@.len(),
            col <= n,
            forall|i: int| 0 <= i < col ==> !#[trigger] col_won(board@, player, i),
        decreases n - col,
    {
        if col_filled(board, player, col) {
            return true;
        }
        col = col + 1;
    }
    false
}

/// Whether the main diagonal is entirely `player`'s.
fn check_main_diag(board: &Board, player: char) -> (r: bool)
    requires
        board.wf(),
    ensures
        r == main_diag_won(board@, player),
{
    let n = board.size();
    let mut i: usize = 0;
    while i < n
        invariant
            board.wf(),
            n == board@.len(),
            i <= n,
            forall|j: int| 0 <= j < i ==> #[trigger] board@[j][j] == Cell::Occupied(player),
        decreases n - i,
    {
        if board.cell(i, i) != Cell::Occupied(player) {
            return false;
        }
        i = i + 1;
    }
    true
}

/// Whether the anti-diagonal is entirely `player`'s.
fn check_anti_diag(board: &Board, player: char) -> (r: bool)
    requires
        board.wf(),
    ensures
        r == anti_diag_won(board@, player),
{
    let n = board.size();
    let mut i: usize = 0;
    while i < n
        invariant
            board.wf(),
            n == board@.len(),
            i <= n,
            forall|j: int| 0 <= j < i ==> (#[trigger] board@[j])[n - 1 - j] == Cell::Occupied(player),
        decreases n - i,
    {
        if board.cell(i, n - 1 - i) != Cell::Occupied(player) {
            return false;
        }
        i = i + 1;
    }
    true
}

/// On a board with no occupied cell, no player has won.
pub proof fn lemma_empty_board_no_win(b: Seq<Seq<Cell>>, p: char)
    requires
        is_grid(b),
        all_empty(b),
    ensures
        !winning(b, p),
{
    assert forall|r: int| 0 <= r < b.len() implies !row_won(b, p, r) by {
        assert(b[r][0] is Empty);
    }
    assert forall|c: int| 0 <= c < b.len() implies !col_won(b, p, c) by {
        assert(b[0][c] is Empty);
    }
    assert(b[0][0] is Empty);
    assert(!main_diag_won(b, p));
    assert(b[0][b.len() - 1] is Empty);
    assert(!anti_diag_won(b, p));
}

/// Filling all of row `r` with `p`'s mark wins via the row condition.
pub proof fn lemma_full_row_wins(b: Seq<Seq<Cell>>, p: char, r: int)
    requires
        is_grid(b),
        0 <= r < b.len(),
        forall|c: int| 0 <= c < b.len() ==> #[trigger] b[r][c] == Cell::Occupied(p),
    ensures
        has_row_win(b, p),
        winning(b, p),
{
    assert(row_won(b, p, r));
}

/// Filling all of column `c` with `p`'s mark wins via the column condition.
pub proof fn lemma_full_col_wins(b: Seq<Seq<Cell>>, p: char, c: int)
    requires
        is_grid(b),
        0 <= c < b.len(),
        forall|r: int| 0 <= r < b.len() ==> #[trigger] b[r][c] == Cell::Occupied(p),
    ensures
        has_col_win(b, p),
        winning(b, p),
{
    assert(col_won(b, p, c));
}

/// Filling the main diagonal with `p`'s mark wins via the diagonal condition.
pub proof fn lemma_full_main_diag_wins(b: Seq<Seq<Cell>>, p: char)
    requires
        is_grid(b),
        forall|i: int| 0 <= i < b.len() ==> #[trigger] b[i][i] == Cell::Occupied(p),
    ensures
        main_diag_won(b, p),
        winning(b, p),
{
}

/// Filling the anti-diagonal with `p`'s mark wins via the diagonal condition.
pub proof fn lemma_full_anti_diag_wins(b: Seq<Seq<Cell>>, p: char)
    requires
        is_grid(b),
        forall|i: int| 0 <= i < b.len() ==> (#[trigger] b[i])[b.len() - 1 - i] == Cell::Occupied(p),
    ensures
        anti_diag_won(b, p),
        winning(b, p),
{
}

} // verus!
