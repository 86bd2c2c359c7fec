//! The game controller: owns the board, whose turn it is, and the game
//! phase; maps a pointer position to a board cell; applies the transition
//! rules for clicks and for reset requests.

use vstd::prelude::*;

verus! {

use crate::game::{
    BlockState, Board, GameState, board_clear, board_full, cell_is_empty, cell_written,
    check_draw, check_winner, reset, set_cell, winner_spec,
};
use crate::input::{KeyboardKey, MouseKey};
use vstd::arithmetic::div_mod::{lemma_div_pos_is_pos, lemma_multiply_divide_lt};

/// The bucket that position `p` falls in when a viewport extent `d` is
/// split into three equal cells: `floor(p * 3 / d)`, with positions at or
/// beyond the edge clamped into the last bucket.
pub open spec fn bucket(p: int, d: int) -> int {
    if p >= d {
        2
    } else {
        p * 3 / d
    }
}

/// For a nonnegative position and a positive extent the bucket is one of
/// 0, 1, 2.
pub proof fn lemma_bucket_range(p: int, d: int)
    requires
        0 <= p,
        0 < d,
    ensures
        0 <= bucket(p, d) < 3,
{
    if p < d {
        lemma_div_pos_is_pos(p * 3, d);
        assert(p * 3 < d * 3);
        lemma_multiply_divide_lt(p * 3, d, 3);
    }
}

/// The mark placed by the player whose turn it is: `X` when `x_chance`
/// holds, else `O`.
pub open spec fn turn_mark(x_chance: bool) -> BlockState {
    if x_chance {
        BlockState::X
    } else {
        BlockState::O
    }
}

/// The phase a board implies right after a move: the winner's phase when a
/// line is complete, else a draw when the board is full, else still in play.
pub open spec fn outcome(b: Board) -> GameState {
    if winner_spec(b) == Some(BlockState::X) {
        GameState::XWon
    } else if winner_spec(b) == Some(BlockState::O) {
        GameState::OWon
    } else if board_full(b) {
        GameState::Draw
    } else {
        GameState::Playing
    }
}

/// Splits the viewport into a 3x3 grid of equal cells and buckets the
/// pointer position by flooring `coordinate * 3 / extent`. A position at
/// or beyond a viewport edge is clamped into the last row or column. The
/// row comes from `y`, the column from `x`.
pub fn map_to_cell(x: u32, y: u32, width: u32, height: u32) -> (cell: (usize, usize))
    requires
        width > 0,
        height > 0,
    ensures
        cell.0 == bucket(y as int, height as int),
        cell.1 == bucket(x as int, width as int),
        cell.0 < 3,
        cell.1 < 3,
{
    proof {
        lemma_bucket_range(y as int, height as int);
        lemma_bucket_range(x as int, width as int);
    }
    let row: usize = if y >= height {
        2
    } else {
        ((y as u64) * 3 / (height as u64)) as usize
    };
    let col: usize = if x >= width {
        2
    } else {
        ((x as u64) * 3 / (width as u64)) as usize
    };
    (row, col)
}

/// The whole game: the board, whose turn it is, the phase, and the
/// viewport extents used to map pointer positions to cells.
#[derive(Clone, Copy, PartialEq, Eq, Debug)]
pub struct GameController {
    pub board: Board,
    pub x_chance: bool,
    pub state: GameState,
    pub width: u32,
    pub height: u32,
}

/// How a successfully applied move at `(r, c)` transforms the controller:
/// the moving player's mark is written into that one cell, the turn
/// toggles, the phase follows from the new board, and the viewport is
/// untouched.
pub open spec fn move_applied(pre: GameController, post: GameController, r: int, c: int) -> bool {
    &&& cell_written(pre.board, post.board, r, c, turn_mark(pre.x_chance))
    &&& post.x_chance == !pre.x_chance
    &&& post.state == outcome(post.board)
    &&& post.width == pre.width
    &&& post.height == pre.height
}

/// The full effect of a click at `(x, y)`: a no-op unless the game is in
/// play and the target cell is empty, in which case the move is applied
/// there.
pub open spec fn click_applied(pre: GameController, post: GameController, x: u32, y: u32) -> bool {
    if pre.state != GameState::Playing {
        post == pre
    } else if pre.board[pre.click_row(y)][pre.click_col(x)] != BlockState::Empty {
        post == pre
    } else {
        move_applied(pre, post, pre.click_row(y), pre.click_col(x))
    }
}

/// The effect of an honored reset request: the board is cleared, the first
/// player moves first again, the game is in play, and the viewport is
/// untouched.
pub open spec fn reset_applied(pre: GameController, post: GameController) -> bool {
    &&& post.state == GameState::Playing
    &&& board_clear(post.board)
    &&& post.x_chance == true
    &&& post.width == pre.width
    &&& post.height == pre.height
}

impl GameController {
    /// A controller is well formed when its viewport has positive extent
    /// in both directions.
    pub open spec fn wf(self) -> bool {
        self.width > 0 && self.height > 0
    }

    /// The board row a click at vertical position `y` falls in.
    pub open spec fn click_row(self, y: u32) -> int {
        bucket(y as int, self.height as int)
    }

    /// The board column a click at horizontal position `x` falls in.
    pub open spec fn click_col(self, x: u32) -> int {
        bucket(x as int, self.width as int)
    }

    /// Builds a fresh game over the given viewport: a cleared board, the
    /// first player to move, and the game in play.
    pub fn new(width: u32, height: u32) -> (game: GameController)
        requires
            width > 0,
            height > 0,
        ensures
            game.wf(),
            board_clear(game.board),
            game.x_chance == true,
            game.state == GameState::Playing,
            game.width == width,
            game.height == height,
    {
        let empty_row = [BlockState::Empty, BlockState::Empty, BlockState::Empty];
        GameController {
            board: [empty_row, empty_row, empty_row],
            x_chance: true,
            state: GameState::Playing,
            width,
            height,
        }
    }

    /// Applies a click at pixel position `(x, y)`. Only takes effect while
    /// the game is in play and the target cell is empty; then the current
    /// player's mark is placed, the turn toggles, and the phase is updated,
    /// a completed line taking priority over a full board.
    pub fn apply_click(&mut self, x: u32, y: u32)
        requires
            old(self).wf(),
        ensures
            final(self).wf(),
            click_applied(*old(self), *final(self), x, y),
    {
        if self.state != GameState::Playing {
            return;
        }

        let (row, col) = map_to_cell(x, y, self.width, self.height);
        if !cell_is_empty(&self.board, row, col) {
            return;
        }

        let mark = if self.x_chance {
            BlockState::X
        } else {
            BlockState::O
        };
        set_cell(&mut self.board, row, col, mark);
        self.x_chance = !self.x_chance;

        match check_winner(&self.board) {
            Some(BlockState::X) => {
                self.state = GameState::XWon;
            },
            Some(BlockState::O) => {
                self.state = GameState::OWon;
            },
            _ => {
                if check_draw(&self.board) {
                    self.state = GameState::Draw;
                }
            },
        }
    }

    /// Honors a reset request only once the game has left the `Playing`
    /// phase; a request mid-game leaves everything unchanged.
    pub fn request_reset(&mut self)
        ensures
            old(self).state == GameState::Playing ==> *final(self) == *old(self),
            old(self).state != GameState::Playing ==> reset_applied(*old(self), *final(self)),
    {
        if self.state != GameState::Playing {
            reset(&mut self.state, &mut self.board);
            self.x_chance = true;
        }
    }

    /// Reacts to a released key: the restart key requests a reset; any
    /// other key leaves the game unchanged.
    pub fn on_key_released(&mut self, key: KeyboardKey)
        ensures
            key != KeyboardKey::R ==> *final(self) == *old(self),
            key == KeyboardKey::R && old(self).state == GameState::Playing ==> *final(self)
                == *old(self),
            key == KeyboardKey::R && old(self).state != GameState::Playing ==> reset_applied(
                *old(self),
                *final(self),
            ),
    {
        if key == KeyboardKey::R {
            self.request_reset();
        }
    }

    /// Reacts to a released mouse button: the left button clicks at the
    /// pointer position; any other button leaves the game unchanged.
    pub fn on_mouse_released(&mut self, button: MouseKey, x: u32, y: u32)
        requires
            old(self).wf(),
        ensures
            final(self).wf(),
            button != MouseKey::Left ==> *final(self) == *old(self),
            button == MouseKey::Left ==> click_applied(*old(self), *final(self), x, y),
    {
        if button == MouseKey::Left {
            self.apply_click(x, y);
        }
    }
}

} // verus!
