use vstd::prelude::*;

verus! {

/// Number of cells on the 3x3 board, indexed row by row.
pub const BOARD_SIZE: usize = 9;

/// Cell value of an empty cell.
pub const EMPTY: u8 = 0;

/// Cell value of a mark of the session's creator.
pub const PLAYER_X_MARK: u8 = 1;

/// Cell value of a mark of the second player.
pub const PLAYER_O_MARK: u8 = 2;

/// Every cell holds one of the three cell values.
pub open spec fn cells_valid(cells: [u8; 9]) -> bool {
    forall|i: int| 0 <= i < 9 ==> #[trigger] cells[i] <= 2
}

/// The three cells `a`, `b`, `c` all hold `mark`.
pub open spec fn line_of(cells: [u8; 9], a: int, b: int, c: int, mark: u8) -> bool {
    cells[a] == mark && cells[b] == mark && cells[c] == mark
}

/// `mark` fills one of the eight winning lines: a row, a column or a diagonal.
pub open spec fn has_line(cells: [u8; 9], mark: u8) -> bool {
    line_of(cells, 0, 1, 2, mark) || line_of(cells, 3, 4, 5, mark) || line_of(cells, 6, 7, 8, mark)
        || line_of(cells, 0, 3, 6, mark) || line_of(cells, 1, 4, 7, mark) || line_of(
        cells,
        2,
        5,
        8,
        mark,
    ) || line_of(cells, 0, 4, 8, mark) || line_of(cells, 2, 4, 6, mark)
}

/// No cell is empty.
pub open spec fn is_full(cells: [u8; 9]) -> bool {
    forall|i: int| 0 <= i < 9 ==> #[trigger] cells[i] != EMPTY
}

/// The number of non-empty cells among the first `n`.
pub open spec fn filled_prefix(cells: [u8; 9], n: int) -> nat
    decreases n,
{
    if n <= 0 {
        0
    } else {
        filled_prefix(cells, n - 1) + if cells[n - 1] != EMPTY {
            1nat
        } else {
            0nat
        }
    }
}

/// The number of non-empty cells.
pub open spec fn filled_count(cells: [u8; 9]) -> nat {
    filled_prefix(cells, 9)
}

fn line_holds(cells: &[u8; 9], a: usize, b: usize, c: usize, mark: u8) -> (r: bool)
    requires
        a < 9,
        b < 9,
        c < 9,
    ensures
        r == line_of(*cells, a as int, b as int, c as int, mark),
{
    cells[a] == mark && cells[b] == mark && cells[c] == mark
}

/// Whether `mark` fills a row, a column or a diagonal.
pub fn check_winner(board: &[u8; 9], mark: u8) -> (r: bool)
    ensures
        r == has_line(*board, mark),
{
    line_holds(board, 0, 1, 2, mark) || line_holds(board, 3, 4, 5, mark) || line_holds(
        board,
        6,
        7,
        8,
        mark,
    ) || line_holds(board, 0, 3, 6, mark) || line_holds(board, 1, 4, 7, mark) || line_holds(
        board,
        2,
        5,
        8,
        mark,
    ) || line_holds(board, 0, 4, 8, mark) || line_holds(board, 2, 4, 6, mark)
}

/// Whether every cell is occupied.
pub fn is_board_full(board: &[u8; 9]) -> (r: bool)
    ensures
        r == is_full(*board),
{
    let mut i: usize = 0;
    while i < BOARD_SIZE
        invariant
            0 <= i <= 9,
            forall|j: int| 0 <= j < i ==> #[trigger] board[j] != EMPTY,
        decreases 9 - i,
    {
        if board[i] == EMPTY {
            return false;
        }
        i = i + 1;
    }
    true
}

} // verus!
