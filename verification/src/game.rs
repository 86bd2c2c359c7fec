//! The board model: cell states, the 3x3 grid, and the derived queries
//! (winner, draw) together with the reset operation.

use vstd::prelude::*;

verus! {

/// The content of one square of the board.
#[derive(Clone, Copy, PartialEq, Eq, Structural, Debug)]
pub enum BlockState {
    X,
    O,
    Empty,
}

/// The overall status of a game.
#[derive(Clone, Copy, PartialEq, Eq, Structural, Debug)]
pub enum GameState {
    OWon,
    Playing,
    XWon,
    Draw,
}

/// The board: a fixed 3x3 grid of cells, row-major.
pub type Board = [[BlockState; 3]; 3];

/// Whether every cell of `b` holds `Empty`.
pub open spec fn board_clear(b: Board) -> bool {
    forall|r: int, c: int| 0 <= r < 3 && 0 <= c < 3 ==> b[r][c] == BlockState::Empty
}

/// Whether every cell of `b` holds a mark, i.e. the board is full.
pub open spec fn board_full(b: Board) -> bool {
    forall|r: int, c: int| 0 <= r < 3 && 0 <= c < 3 ==> b[r][c] != BlockState::Empty
}

/// Whether row `r` of `b` is filled with the mark `m`.
pub open spec fn row_won(b: Board, r: int, m: BlockState) -> bool {
    &&& m != BlockState::Empty
    &&& b[r][0] == m
    &&& b[r][1] == m
    &&& b[r][2] == m
}

/// Whether column `c` of `b` is filled with the mark `m`.
pub open spec fn col_won(b: Board, c: int, m: BlockState) -> bool {
    &&& m != BlockState::Empty
    &&& b[0][c] == m
    &&& b[1][c] == m
    &&& b[2][c] == m
}

/// Whether the main diagonal of `b` is filled with the mark `m`.
pub open spec fn main_diag_won(b: Board, m: BlockState) -> bool {
    &&& m != BlockState::Empty
    &&& b[0][0] == m
    &&& b[1][1] == m
    &&& b[2][2] == m
}

/// Whether the anti-diagonal of `b` is filled with the mark `m`.
pub open spec fn anti_diag_won(b: Board, m: BlockState) -> bool {
    &&& m != BlockState::Empty
    &&& b[0][2] == m
    &&& b[1][1] == m
    &&& b[2][0] == m
}

/// Whether some row, column, or diagonal of `b` is filled with the mark `m`.
pub open spec fn has_line(b: Board, m: BlockState) -> bool {
    ||| exists|r: int| 0 <= r < 3 && row_won(b, r, m)
    ||| exists|c: int| 0 <= c < 3 && col_won(b, c, m)
    ||| main_diag_won(b, m)
    ||| anti_diag_won(b, m)
}

/// The winner of `b` under the fixed scan order: rows first, then columns,
/// then the main diagonal, then the anti-diagonal. The mark of the first
/// completed line in that order, or `None` when no line is complete.
pub open spec fn winner_spec(b: Board) -> Option<BlockState> {
    if row_won(b, 0, b[0][0]) {
        Some(b[0][0])
    } else if row_won(b, 1, b[1][0]) {
        Some(b[1][0])
    } else if row_won(b, 2, b[2][0]) {
        Some(b[2][0])
    } else if col_won(b, 0, b[0][0]) {
        Some(b[0][0])
    } else if col_won(b, 1, b[0][1]) {
        Some(b[0][1])
    } else if col_won(b, 2, b[0][2]) {
        Some(b[0][2])
    } else if main_diag_won(b, b[0][0]) {
        Some(b[0][0])
    } else if anti_diag_won(b, b[0][2]) {
        Some(b[0][2])
    } else {
        None
    }
}

/// Scans the three rows, then the three columns, then the main diagonal,
/// then the anti-diagonal, and returns the mark of the first completed
/// line found, or `None` when no line is complete.
pub fn check_winner(board: &Board) -> (w: Option<BlockState>)
    ensures
        w == winner_spec(*board),
{
    for r in 0..3usize
        invariant
            forall|i: int| 0 <= i < r ==> !row_won(*board, i, board[i][0]),
    {
        if board[r][0] != BlockState::Empty
            && board[r][0] == board[r][1]
            && board[r][0] == board[r][2]
        {
            return Some(board[r][0]);
        }
    }

    for c in 0..3usize
        invariant
            forall|i: int| 0 <= i < 3 ==> !row_won(*board, i, board[i][0]),
            forall|j: int| 0 <= j < c ==> !col_won(*board, j, board[0][j]),
    {
        if board[0][c] != BlockState::Empty
            && board[0][c] == board[1][c]
            && board[0][c] == board[2][c]
        {
            return Some(board[0][c]);
        }
    }

    if board[0][0] != BlockState::Empty && board[0][0] == board[1][1] && board[0][0] == board[2][2]
    {
        return Some(board[0][0]);
    }

    if board[0][2] != BlockState::Empty && board[0][2] == board[1][1] && board[0][2] == board[2][0]
    {
        return Some(board[0][2]);
    }

    None
}

/// Counts the filled cells and reports whether all nine are filled.
pub fn check_draw(board: &Board) -> (full: bool)
    ensures
        full == board_full(*board),
{
    let mut count: u32 = 0;

    for r in 0..3usize
        invariant
            count <= 3 * r,
            (count == 3 * r) <==> (forall|i: int, j: int|
                0 <= i < r && 0 <= j < 3 ==> board[i][j] != BlockState::Empty),
    {
        for c in 0..3usize
            invariant
                r < 3,
                count <= 3 * r + c,
                (count == 3 * r + c) <==> (forall|i: int, j: int|
                    0 <= i < 3 && 0 <= j < 3 && (i < r || (i == r && j < c))
                        ==> board[i][j] != BlockState::Empty),
        {
            if board[r][c] != BlockState::Empty {
                count += 1;
            }
        }
    }

    count == 9
}

/// Clears the board and puts the game back into the `Playing` state.
pub fn reset(game_state: &mut GameState, board: &mut Board)
    ensures
        *final(game_state) == GameState::Playing,
        board_clear(*final(board)),
{
    *game_state = GameState::Playing;

    for r in 0..3usize
        invariant
            forall|i: int, j: int|
                0 <= i < r && 0 <= j < 3 ==> board[i][j] == BlockState::Empty,
    {
        for c in 0..3usize
            invariant
                r < 3,
                forall|i: int, j: int|
                    0 <= i < r && 0 <= j < 3 ==> board[i][j] == BlockState::Empty,
                forall|j: int| 0 <= j < c ==> board[r as int][j] == BlockState::Empty,
        {
            board[r][c] = BlockState::Empty;
        }
    }
}

/// Whether the cell at `(row, col)` is empty.
pub fn cell_is_empty(board: &Board, row: usize, col: usize) -> (r: bool)
    requires
        row < 3,
        col < 3,
    ensures
        r == (board[row as int][col as int] == BlockState::Empty),
{
    board[row][col] == BlockState::Empty
}

/// Whether `new_b` is `old_b` with `m` written into the cell at `(r, c)`
/// and every other cell unchanged.
pub open spec fn cell_written(old_b: Board, new_b: Board, r: int, c: int, m: BlockState) -> bool {
    forall|i: int, j: int|
        0 <= i < 3 && 0 <= j < 3 ==> new_b[i][j] == (if i == r && j == c {
            m
        } else {
            old_b[i][j]
        })
}

/// Writes `mark` into the cell at `(row, col)`, leaving every other cell
/// as it was. Callers are responsible for checking `cell_is_empty` first
/// where the no-overwrite policy applies.
pub fn set_cell(board: &mut Board, row: usize, col: usize, mark: BlockState)
    requires
        row < 3,
        col < 3,
    ensures
        cell_written(*old(board), *final(board), row as int, col as int, mark),
{
    board[row][col] = mark;
}

/// A mark is returned by `winner_spec` only when that mark fills some row,
/// column, or diagonal, and when no mark fills a line the winner is `None`.
pub proof fn lemma_winner_has_line(b: Board)
    ensures
        forall|m: BlockState| winner_spec(b) == Some(m) ==> has_line(b, m),
        winner_spec(b) is None ==> forall|m: BlockState| !has_line(b, m),
{
    if winner_spec(b) is None {
        assert forall|m: BlockState| !has_line(b, m) by {
            if exists|r: int| 0 <= r < 3 && row_won(b, r, m) {
                let r = choose|r: int| 0 <= r < 3 && row_won(b, r, m);
                assert(row_won(b, r, b[r][0]));
            }
            if exists|c: int| 0 <= c < 3 && col_won(b, c, m) {
                let c = choose|c: int| 0 <= c < 3 && col_won(b, c, m);
                assert(col_won(b, c, b[0][c]));
            }
        }
    }
}

/// A cleared board is not full and has no winner.
pub proof fn lemma_clear_board(b: Board)
    requires
        board_clear(b),
    ensures
        !board_full(b),
        winner_spec(b) is None,
{
    assert(b[0][0] == BlockState::Empty);
    assert(b[0][1] == BlockState::Empty);
    assert(b[0][2] == BlockState::Empty);
}

} // verus!
