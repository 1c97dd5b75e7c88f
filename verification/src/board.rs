//! The square board of cells and the placement operation.

use vstd::prelude::*;

verus! {

/// One grid position: empty, or occupied by the player with this identifier.
#[derive(Clone, Copy, PartialEq, Eq, Structural, Debug)]
pub enum Cell {
    Empty,
    Occupied(char),
}

/// Why a placement was refused.
#[derive(Clone, Copy, PartialEq, Eq, Structural, Debug)]
pub enum PlaceError {
    /// The addressed cell already holds a mark.
    Occupied,
    /// The row or column index lies outside the board.
    OutOfRange,
}

/// Board construction was refused: the requested size is smaller than the
/// number of players.
#[derive(Clone, Copy, PartialEq, Eq, Structural, Debug)]
pub struct SizeError;

/// A well-formed board view: at least one row, and every row exactly as long
/// as there are rows (a non-empty square grid).
pub open spec fn is_grid(b: Seq<Seq<Cell>>) -> bool {
    &&& b.len() >= 1
    &&& forall|r: int| 0 <= r < b.len() ==> (#[trigger] b[r]).len() == b.len()
}

/// Every cell of the view is empty.
pub open spec fn all_empty(b: Seq<Seq<Cell>>) -> bool {
    forall|r: int, c: int| 0 <= r < b.len() && 0 <= c < b.len() ==> #[trigger] b[r][c] is Empty
}

/// The display character of a cell: `_` for an empty cell, the owner's
/// identifier otherwise.
pub open spec fn glyph(c: Cell) -> char {
    match c {
        Cell::Empty => '_',
        Cell::Occupied(p) => p,
    }
}

/// A square grid of cells, fixed in size at creation. Cells are written only
/// through `place`, which marks an empty cell and never overwrites a mark.
pub struct Board {
    cells: Vec<Vec<Cell>>,
}

impl View for Board {
    type V = Seq<Seq<Cell>>;

    closed spec fn view(&self) -> Seq<Seq<Cell>> {
        Seq::new(self.cells@.len(), |r: int| self.cells@[r]@)
    }
}

impl Board {
    /// The board is a non-empty square grid.
    pub open spec fn wf(&self) -> bool {
        is_grid(self@)
    }

    /// Creates a `size` x `size` board of empty cells, provided the board is
    /// big enough for the players; a smaller request is refused.
    pub fn new(size: usize, player_count: usize) -> (r: Result<Board, SizeError>)
        requires
            player_count >= 2,
        ensures
            r is Ok <==> size >= player_count,
            r matches Ok(b) ==> b.wf() && b@.len() == size && all_empty(b@),
    {
        if size < player_count {
            return Err(SizeError);
        }
        let mut cells: Vec<Vec<Cell>> = Vec::new();
        let mut r: usize = 0;
        while r < size
            invariant
                r <= size,
                cells@.len() == r,
                forall|i: int| 0 <= i < r ==> (#[trigger] cells@[i])@.len() == size,
                forall|i: int, j: int|
                    0 <= i < r && 0 <= j < size ==> #[trigger] cells@[i]@[j] is Empty,
            decreases size - r,
        {
            let mut row: Vec<Cell> = Vec::new();
            let mut c: usize = 0;
            while c < size
                invariant
                    c <= size,
                    row@.len() == c,
                    forall|j: int| 0 <= j < c ==> #[trigger] row@[j] is Empty,
                decreases size - c,
            {
                row.push(Cell::Empty);
                c = c + 1;
            }
            cells.push(row);
            r = r + 1;
        }
        let b = Board { cells };
        Ok(b)
    }

    /// The board's dimension.
    pub fn size(&self) -> (n: usize)
        ensures
            n == self@.len(),
    {
        self.cells.len()
    }

    /// Reads the cell at the given position.
    pub fn cell(&self, row: usize, col: usize) -> (c: Cell)
        requires
            self.wf(),
            row < self@.len(),
            col < self@.len(),
        ensures
            c == self@[row as int][col as int],
    {
        self.cells[row][col]
    }

    /// Marks the cell at `(row, col)` for `player`.
    ///
    /// Succeeds exactly when the position lies on the board and the cell is
    /// still empty; the cell then reads `Occupied(player)` and no other cell
    /// changes. A refused placement leaves the board untouched: an occupied
    /// cell keeps its owner, and an out-of-range position is failed closed.
    pub fn place(&mut self, row: usize, col: usize, player: char) -> (r: Result<(), PlaceError>)
        requires
            old(self).wf(),
        ensures
            final(self).wf(),
            final(self)@.len() == old(self)@.len(),
            r is Ok <==> (row < old(self)@.len() && col < old(self)@.len()
                && old(self)@[row as int][col as int] is Empty),
            r is Ok ==> final(self)@ == old(self)@.update(
                row as int,
                old(self)@[row as int].update(col as int, Cell::Occupied(player)),
            ),
            r is Err ==> final(self)@ == old(self)@,
            (row >= old(self)@.len() || col >= old(self)@.len())
                ==> r == Err::<(), PlaceError>(PlaceError::OutOfRange),
            (row < old(self)@.len() && col < old(self)@.len()
                && old(self)@[row as int][col as int] is Occupied)
                ==> r == Err::<(), PlaceError>(PlaceError::Occupied),
    {
        let n = self.cells.len();
        if row >= n || col >= n {
            return Err(PlaceError::OutOfRange);
        }
        match self.cells[row][col] {
            Cell::Occupied(_) => Err(PlaceError::Occupied),
            Cell::Empty => {
                let ghost old_view = self@;
                let mut new_row: Vec<Cell> = Vec::new();
                let mut c: usize = 0;
                while c < n
                    invariant
                        self.wf(),
                        n == self@.len(),
                        row < n,
                        col < n,
                        c <= n,
                        new_row@.len() == c,
                        old_view == self@,
                        forall|j: int| 0 <= j < c ==> #[trigger] new_row@[j] == (
                            if j == col { Cell::Occupied(player) } else { self@[row as int][j] }
                        ),
                    decreases n - c,
                {
                    if c == col {
                        new_row.push(Cell::Occupied(player));
                    } else {
                        new_row.push(self.cells[row][c]);
                    }
                    c = c + 1;
                }
                self.cells.set(row, new_row);
                proof {
                    assert(self@[row as int] =~= old_view[row as int].update(
                        col as int,
                        Cell::Occupied(player),
                    ));
                    assert(self@ =~= old_view.update(
                        row as int,
                        old_view[row as int].update(col as int, Cell::Occupied(player)),
                    ));
                }
                Ok(())
            },
        }
    }

    /// Renders the board as one row of display characters per board row:
    /// `_` for an empty cell, the owner's identifier for an occupied one.
    pub fn render(&self) -> (rows: Vec<Vec<char>>)
        requires
            self.wf(),
        ensures
            rows@.len() == self@.len(),
            forall|r: int| 0 <= r < self@.len() ==> (#[trigger] rows@[r])@.len() == self@.len(),
            forall|r: int, c: int|
                0 <= r < self@.len() && 0 <= c < self@.len()
                    ==> #[trigger] rows@[r]@[c] == glyph(self@[r][c]),
    {
        let n = self.cells.len();
        let mut rows: Vec<Vec<char>> = Vec::new();
        let mut r: usize = 0;
        while r < n
            invariant
                self.wf(),
                n == self@.len(),
                r <= n,
                rows@.len() == r,
                forall|i: int| 0 <= i < r ==> (#[trigger] rows@[i])@.len() == n,
                forall|i: int, j: int|
                    0 <= i < r && 0 <= j < n ==> #[trigger] rows@[i]@[j] == glyph(self@[i][j]),
            decreases n - r,
        {
            let mut line: Vec<char> = Vec::new();
            let mut c: usize = 0;
            while c < n
                invariant
                    self.wf(),
                    n == self@.len(),
                    r < n,
                    c <= n,
                    line@.len() == c,
                    forall|j: int| 0 <= j < c ==> #[trigger] line@[j] == glyph(self@[r as int][j]),
                decreases n - c,
            {
                proof {
                    assert(self@[r as int] == self.cells@[r as int]@);
                    assert(self@[r as int].len() == self@.len());
                }
                let ch = match self.cells[r][c] {
                    Cell::Empty => '_',
                    Cell::Occupied(p) => p,
                };
                line.push(ch);
                c = c + 1;
            }
            rows.push(line);
            r = r + 1;
        }
        rows
    }
}

} // verus!
