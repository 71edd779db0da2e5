//! The fixed 5-by-6 display board the service shows and resets: a grid of
//! cells that starts blank, is framed with walls by [`Board::reset`], and is
//! rendered one symbol per cell, one line per row.

use vstd::prelude::*;

verus! {

pub const ROWS: usize = 5;

pub const COLUMNS: usize = 6;

/// One cell of the board.
#[derive(Clone, Copy, Debug, PartialEq)]
pub enum Cell {
    Blank,
    Wall,
    Cookies,
    Milk,
}

/// The symbol a cell is rendered as.
pub open spec fn cell_char(c: Cell) -> char {
    match c {
        Cell::Blank => '\u{2b1b}',
        Cell::Cookies => '\u{1f36a}',
        Cell::Milk => '\u{1f95b}',
        Cell::Wall => '\u{2b1c}',
    }
}

/// The board: a fixed grid of cells, row by row.
#[derive(Clone)]
pub struct Board {
    pub state: [[Cell; COLUMNS]; ROWS],
}

impl Board {
    /// The cell at a row and column, as the contracts speak of it.
    pub open spec fn cell(&self, row: int, column: int) -> Cell {
        self.state@[row]@[column]
    }

    /// A fresh board: every cell blank.
    pub fn new() -> (b: Self)
        ensures
            forall|i: int, j: int|
                0 <= i < ROWS && 0 <= j < COLUMNS ==> b.cell(i, j) == Cell::Blank,
    {
        let state = [[Cell::Blank; COLUMNS]; ROWS];
        Self { state }
    }

    /// Frame the board: the first and last columns and the last row become
    /// walls; every other cell keeps its value.
    pub fn reset(&mut self)
        ensures
            forall|i: int, j: int|
                0 <= i < ROWS && 0 <= j < COLUMNS ==> final(self).cell(i, j) == (if j == 0 || j
                    == COLUMNS - 1 || i == ROWS - 1 {
                    Cell::Wall
                } else {
                    old(self).cell(i, j)
                }),
    {
        let ghost b0 = *self;
        for column in 0..COLUMNS
            invariant
                forall|i: int, j: int|
                    0 <= i < ROWS && 0 <= j < COLUMNS ==> self.cell(i, j) == (if (j == 0 || j
                        == COLUMNS - 1 || i == ROWS - 1) && j < column {
                        Cell::Wall
                    } else {
                        b0.cell(i, j)
                    }),
        {
            for row in 0..ROWS
                invariant
                    0 <= column < COLUMNS,
                    forall|i: int, j: int|
                        0 <= i < ROWS && 0 <= j < COLUMNS ==> self.cell(i, j) == (if (j == 0 || j
                            == COLUMNS - 1 || i == ROWS - 1) && (j < column || (j == column && i
                            < row)) {
                            Cell::Wall
                        } else {
                            b0.cell(i, j)
                        }),
            {
                if column == 0 || column == COLUMNS - 1 || row == ROWS - 1 {
                    self.set_cell(row, column, Cell::Wall);
                }
            }
        }
    }

    /// Write one cell, when the coordinates are on the board; off-board
    /// coordinates change nothing.
    pub fn set_cell(&mut self, row: usize, column: usize, cell_type: Cell)
        ensures
            forall|i: int, j: int|
                0 <= i < ROWS && 0 <= j < COLUMNS ==> final(self).cell(i, j) == (if i == row && j
                    == column {
                    cell_type
                } else {
                    old(self).cell(i, j)
                }),
            !(row < ROWS && column < COLUMNS) ==> *final(self) == *old(self),
    {
        if row < ROWS && column < COLUMNS {
            let mut updated = self.state[row];
            updated[column] = cell_type;
            self.state[row] = updated;
        }
    }
}

/// The rows of a board as sequences of cells.
pub open spec fn grid_of(b: &Board) -> Seq<Seq<Cell>> {
    b.state@.map_values(|row: [Cell; COLUMNS]| row@)
}

/// The first `n` cells of one row, rendered.
pub open spec fn spec_row_prefix(row: Seq<Cell>, n: int) -> Seq<char>
    decreases n,
{
    if n <= 0 {
        Seq::empty()
    } else {
        spec_row_prefix(row, n - 1).push(cell_char(row[n - 1]))
    }
}

/// One whole row, rendered and newline-terminated.
pub open spec fn spec_row_text(row: Seq<Cell>) -> Seq<char> {
    spec_row_prefix(row, row.len() as int).push('\n')
}

/// The first `n` rows of a grid, rendered.
pub open spec fn spec_grid_prefix(grid: Seq<Seq<Cell>>, n: int) -> Seq<char>
    decreases n,
{
    if n <= 0 {
        Seq::empty()
    } else {
        spec_grid_prefix(grid, n - 1) + spec_row_text(grid[n - 1])
    }
}

/// The whole board, rendered.
pub open spec fn spec_render(b: &Board) -> Seq<char> {
    spec_grid_prefix(grid_of(b), ROWS as int)
}

impl Board {
    /// Render the board: one symbol per cell, each row closed by a newline.
    pub fn render(&self) -> (r: String)
        ensures
            r@ == spec_render(self),
    {
        let ghost grid = grid_of(self);
        let mut out = String::new();
        for i in 0..ROWS
            invariant
                out@ == spec_grid_prefix(grid, i as int),
                grid == grid_of(self),
        {
            for j in 0..COLUMNS
                invariant
                    0 <= i < ROWS,
                    grid == grid_of(self),
                    out@ == spec_grid_prefix(grid, i as int) + spec_row_prefix(grid[i as int], j as int),
            {
                let ghost before = out@;
                let symbol = match self.state[i][j] {
                    Cell::Blank => "\u{2b1b}",
                    Cell::Cookies => "\u{1f36a}",
                    Cell::Milk => "\u{1f95b}",
                    Cell::Wall => "\u{2b1c}",
                };
                proof {
                    reveal_strlit("\u{2b1b}");
                    reveal_strlit("\u{1f36a}");
                    reveal_strlit("\u{1f95b}");
                    reveal_strlit("\u{2b1c}");
                }
                out.append(symbol);
                proof {
                    assert(out@ =~= before.push(cell_char(grid[i as int][j as int])));
                }
            }
            let ghost before = out@;
            proof {
                reveal_strlit("\n");
            }
            out.append("\n");
            proof {
                assert(grid[i as int].len() == COLUMNS as int);
                assert(out@ =~= spec_grid_prefix(grid, i as int) + spec_row_text(grid[i as int]));
            }
        }
        out
    }
}

/// The board the service starts from and resets to: fresh, then framed.
pub fn new_board() -> (b: Board)
    ensures
        forall|i: int, j: int|
            0 <= i < ROWS && 0 <= j < COLUMNS ==> b.cell(i, j) == (if j == 0 || j == COLUMNS - 1
                || i == ROWS - 1 {
                Cell::Wall
            } else {
                Cell::Blank
            }),
{
    let mut board = Board::new();
    board.reset();
    board
}

} // verus!
