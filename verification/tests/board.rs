use cch24::board::new_board;
use cch24::board::Board;
use cch24::board::Cell;
use cch24::board::COLUMNS;
use cch24::board::ROWS;

#[test]
fn test_board_initialization() {
    let board = Board::new();
    for row in 0..ROWS {
        for column in 0..COLUMNS {
            assert_eq!(
                board.state[row][column],
                Cell::Blank,
                "Cell at ({}, {}) should be Blank",
                row,
                column
            );
        }
    }
}

#[test]
fn test_set_cell() {
    let mut board = Board::new();
    let row: usize = 2;
    let column: usize = 3;
    let cell = Cell::Cookies;
    board.set_cell(row, column, cell);

    assert_eq!(
        board.state[row][column], cell,
        "Cell at ({}, {}) should be Cookies",
        row, column
    );
}

#[test]
fn test_set_cell_out_of_bounds() {
    let mut board = Board::new();
    // These should not panic or modify any cell
    board.set_cell(ROWS, COLUMNS, Cell::Milk);
    board.set_cell(100, 100, Cell::Wall);

    // Ensure the board is still initialized with default values
    for row in 0..ROWS {
        for column in 0..COLUMNS {
            assert_eq!(
                board.state[row][column],
                Cell::Blank,
                "Cell at ({:?}, {:?}) should remain Blank",
                row,
                column
            );
        }
    }
}

#[test]
fn test_reset_display() {
    let mut board = Board::new();
    board.reset();

    let expected_display = "\
\u{2b1c}\u{2b1b}\u{2b1b}\u{2b1b}\u{2b1b}\u{2b1c}
\u{2b1c}\u{2b1b}\u{2b1b}\u{2b1b}\u{2b1b}\u{2b1c}
\u{2b1c}\u{2b1b}\u{2b1b}\u{2b1b}\u{2b1b}\u{2b1c}
\u{2b1c}\u{2b1b}\u{2b1b}\u{2b1b}\u{2b1b}\u{2b1c}
\u{2b1c}\u{2b1c}\u{2b1c}\u{2b1c}\u{2b1c}\u{2b1c}
";

    assert_eq!(
        board.render(),
        expected_display,
        "Board display did not match expected output"
    );
}

#[test]
fn new_board_is_framed() {
    let board = new_board();
    for row in 0..ROWS {
        for column in 0..COLUMNS {
            let expected = if column == 0 || column == COLUMNS - 1 || row == ROWS - 1 {
                Cell::Wall
            } else {
                Cell::Blank
            };
            assert_eq!(board.state[row][column], expected);
        }
    }
}

#[test]
fn render_shows_written_cells() {
    let mut board = Board::new();
    board.set_cell(0, 0, Cell::Cookies);
    board.set_cell(0, 1, Cell::Milk);
    let rendered = board.render();
    let first_line = rendered.lines().next().unwrap();
    assert_eq!(first_line, "\u{1f36a}\u{1f95b}\u{2b1b}\u{2b1b}\u{2b1b}\u{2b1b}");
}
