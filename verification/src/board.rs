//! The grid of cells: storage with checked access and nothing else.

use vstd::prelude::*;
use crate::config::GridConfig;
use crate::config::MIN_SIDE;

verus! {

/// The value of a dead cell.
pub const DEAD: u8 = 0;

/// The value of a live cell.
pub const ALIVE: u8 = 1;

/// Whether `cells`, read as `cells[column][row]`, is a rectangle of dead and
/// live cells with a border ring and at least one cell inside it.
pub open spec fn is_grid(cells: Seq<Seq<u8>>) -> bool {
    &&& cells.len() >= MIN_SIDE
    &&& cells[0].len() >= MIN_SIDE
    &&& forall|col: int| 0 <= col < cells.len() ==> (#[trigger] cells[col]).len() == cells[0].len()
    &&& forall|col: int, row: int|
        0 <= col < cells.len() && 0 <= row < cells[0].len() ==> #[trigger] cells[col][row] <= ALIVE
}

/// The grid of `columns` by `rows` cells that are all dead.
pub open spec fn blank_grid(columns: nat, rows: nat) -> Seq<Seq<u8>> {
    Seq::new(columns, |col: int| Seq::new(rows, |row: int| DEAD))
}

/// The state of the simulation at one instant.
///
/// Its view is the sequence of its columns, each the sequence of that column's
/// cells, so that `board@[col][row]` is the cell at `(col, row)`.
#[derive(Debug)]
pub struct Board {
    cells: Vec<Vec<u8>>,
}

impl View for Board {
    type V = Seq<Seq<u8>>;

    closed spec fn view(&self) -> Seq<Seq<u8>> {
        Seq::new(self.cells@.len(), |col: int| self.cells@[col]@)
    }
}

impl Board {
    /// The invariant of every board that this library hands out or takes.
    pub open spec fn wf(&self) -> bool {
        is_grid(self@)
    }

    /// The column count, as a specification value.
    pub open spec fn spec_columns(&self) -> nat {
        self@.len()
    }

    /// The row count, as a specification value.
    pub open spec fn spec_rows(&self) -> nat {
        self@[0].len()
    }

    /// A board of the configured size on which every cell is dead.
    pub fn new(config: &GridConfig) -> (board: Board)
        ensures
            board.wf(),
            board@ == blank_grid(config.columns() as nat, config.rows() as nat),
    {
        let columns = config.columns();
        let rows = config.rows();
        let mut cells: Vec<Vec<u8>> = Vec::new();
        for col in 0..columns
            invariant
                cells@.len() == col,
                forall|c: int|
                    0 <= c < col ==> (#[trigger] cells@[c])@ == Seq::new(
                        rows as nat,
                        |row: int| DEAD,
                    ),
        {
            let mut column: Vec<u8> = Vec::new();
            for row in 0..rows
                invariant
                    column@ == Seq::new(row as nat, |r: int| DEAD),
            {
                column.push(DEAD);
                assert(column@ =~= Seq::new((row + 1) as nat, |r: int| DEAD));
            }
            cells.push(column);
        }
        let board = Board { cells };
        assert(board@ =~= blank_grid(columns as nat, rows as nat));
        board
    }

    /// The column count.
    pub fn columns(&self) -> (n: usize)
        ensures
            n == self.spec_columns(),
    {
        self.cells.len()
    }

    /// The row count.
    pub fn rows(&self) -> (n: usize)
        requires
            self.wf(),
        ensures
            n == self.spec_rows(),
    {
        self.cells[0].len()
    }

    /// The cell at `(col, row)`.
    pub fn get(&self, col: usize, row: usize) -> (value: u8)
        requires
            self.wf(),
            col < self.spec_columns(),
            row < self.spec_rows(),
        ensures
            value == self@[col as int][row as int],
            value == DEAD || value == ALIVE,
    {
        assert(self.cells@[col as int]@ == self@[col as int]);
        self.cells[col][row]
    }

    /// Writes `value` to the cell at `(col, row)` and to no other.
    pub fn set(&mut self, col: usize, row: usize, value: u8)
        requires
            old(self).wf(),
            col < old(self).spec_columns(),
            row < old(self).spec_rows(),
            value == DEAD || value == ALIVE,
        ensures
            final(self).wf(),
            final(self)@ == old(self)@.update(
                col as int,
                old(self)@[col as int].update(row as int, value),
            ),
    {
        assert(self.cells@[col as int]@ == self@[col as int]);
        self.cells[col][row] = value;
        assert(self@ =~= old(self)@.update(
            col as int,
            old(self)@[col as int].update(row as int, value),
        ));
    }
}

} // verus!
