use tictactoe::color::Color;
use tictactoe::controller::GameController;
use tictactoe::controller::map_to_cell;
use tictactoe::game::BlockState;
use tictactoe::game::GameState;
use tictactoe::input::KeyboardKey;
use tictactoe::input::MouseKey;

const X: BlockState = BlockState::X;
const O: BlockState = BlockState::O;
const E: BlockState = BlockState::Empty;

/// The pixel at the centre of cell `(row, col)` in a 300x300 viewport.
fn centre(row: u32, col: u32) -> (u32, u32) {
    (col * 100 + 50, row * 100 + 50)
}

/// Clicks the centre of cell `(row, col)` on a 300x300 game.
fn click(game: &mut GameController, row: u32, col: u32) {
    let (x, y) = centre(row, col);
    game.apply_click(x, y);
}

#[test]
fn map_centre_pixel_to_middle_cell() {
    assert_eq!(map_to_cell(150, 150, 300, 300), (1, 1));
}

#[test]
fn map_origin_pixel_to_first_cell() {
    assert_eq!(map_to_cell(0, 0, 300, 300), (0, 0));
}

#[test]
fn map_last_pixel_to_last_cell() {
    assert_eq!(map_to_cell(299, 299, 300, 300), (2, 2));
}

#[test]
fn map_mixed_coordinates() {
    // The row comes from y, the column from x.
    assert_eq!(map_to_cell(250, 10, 300, 300), (0, 2));
    assert_eq!(map_to_cell(10, 250, 300, 300), (2, 0));
    assert_eq!(map_to_cell(99, 100, 300, 300), (1, 0));
}

#[test]
fn map_clamps_positions_beyond_the_edge() {
    assert_eq!(map_to_cell(300, 300, 300, 300), (2, 2));
    assert_eq!(map_to_cell(1000, 5, 300, 300), (0, 2));
    assert_eq!(map_to_cell(5, 1000, 300, 300), (2, 0));
}

#[test]
fn new_game_is_clear_and_playing() {
    let game = GameController::new(300, 300);
    assert_eq!(game.board, [[E, E, E], [E, E, E], [E, E, E]]);
    assert!(game.x_chance);
    assert_eq!(game.state, GameState::Playing);
    assert_eq!(game.width, 300);
    assert_eq!(game.height, 300);
}

#[test]
fn turns_alternate_starting_with_x() {
    let mut game = GameController::new(300, 300);
    click(&mut game, 0, 0);
    assert_eq!(game.board[0][0], X);
    assert!(!game.x_chance);
    click(&mut game, 0, 1);
    assert_eq!(game.board[0][1], O);
    assert!(game.x_chance);
}

#[test]
fn click_on_taken_cell_changes_nothing() {
    let mut game = GameController::new(300, 300);
    click(&mut game, 1, 1);
    let before = game;
    click(&mut game, 1, 1);
    assert_eq!(game, before);
    assert_eq!(game.board[1][1], X);
    assert!(!game.x_chance);
    assert_eq!(game.state, GameState::Playing);
}

#[test]
fn main_diagonal_game_ends_in_x_win() {
    // X takes (0,0), (1,1), (2,2); O answers (0,1), (0,2).
    let mut game = GameController::new(300, 300);
    click(&mut game, 0, 0);
    click(&mut game, 0, 1);
    click(&mut game, 1, 1);
    click(&mut game, 0, 2);
    assert_eq!(game.state, GameState::Playing);
    click(&mut game, 2, 2);
    assert_eq!(game.state, GameState::XWon);
    assert_eq!(game.board[0][0], X);
    assert_eq!(game.board[1][1], X);
    assert_eq!(game.board[2][2], X);
}

#[test]
fn line_free_fill_ends_in_draw() {
    // Ends at X O X / X O O / O X X: full with no completed line.
    let mut game = GameController::new(300, 300);
    click(&mut game, 0, 0); // X
    click(&mut game, 0, 1); // O
    click(&mut game, 0, 2); // X
    click(&mut game, 1, 1); // O
    click(&mut game, 1, 0); // X
    click(&mut game, 1, 2); // O
    click(&mut game, 2, 1); // X
    click(&mut game, 2, 0); // O
    assert_eq!(game.state, GameState::Playing);
    click(&mut game, 2, 2); // X
    assert_eq!(game.board, [[X, O, X], [X, O, O], [O, X, X]]);
    assert_eq!(game.state, GameState::Draw);
}

#[test]
fn winning_move_on_full_board_is_a_win_not_a_draw() {
    // The last move fills the board and completes the middle column.
    let mut game = GameController::new(300, 300);
    click(&mut game, 0, 1); // X
    click(&mut game, 0, 0); // O
    click(&mut game, 1, 1); // X
    click(&mut game, 0, 2); // O
    click(&mut game, 1, 2); // X
    click(&mut game, 1, 0); // O
    click(&mut game, 2, 0); // X
    click(&mut game, 2, 2); // O
    click(&mut game, 2, 1); // X completes the middle column and the board
    assert_eq!(game.state, GameState::XWon);
}

#[test]
fn clicks_after_the_game_ends_change_nothing() {
    let mut game = GameController::new(300, 300);
    click(&mut game, 0, 0);
    click(&mut game, 1, 0);
    click(&mut game, 0, 1);
    click(&mut game, 1, 1);
    click(&mut game, 0, 2); // X wins the top row
    assert_eq!(game.state, GameState::XWon);
    let before = game;
    click(&mut game, 2, 2);
    assert_eq!(game, before);
}

#[test]
fn reset_request_mid_game_changes_nothing() {
    let mut game = GameController::new(300, 300);
    click(&mut game, 1, 1);
    let before = game;
    game.request_reset();
    assert_eq!(game, before);
}

#[test]
fn reset_request_after_win_starts_over() {
    let mut game = GameController::new(300, 300);
    click(&mut game, 0, 0);
    click(&mut game, 1, 0);
    click(&mut game, 0, 1);
    click(&mut game, 1, 1);
    click(&mut game, 0, 2); // X wins the top row
    assert_eq!(game.state, GameState::XWon);
    game.request_reset();
    assert_eq!(game.state, GameState::Playing);
    assert!(game.x_chance);
    assert_eq!(game.board, [[E, E, E], [E, E, E], [E, E, E]]);
}

#[test]
fn restart_key_resets_only_a_finished_game() {
    let mut game = GameController::new(300, 300);
    click(&mut game, 1, 1);
    let before = game;
    game.on_key_released(KeyboardKey::R);
    assert_eq!(game, before);
    game.on_key_released(KeyboardKey::Q);
    assert_eq!(game, before);
    click(&mut game, 0, 0); // O
    click(&mut game, 0, 1); // X
    click(&mut game, 1, 0); // O
    click(&mut game, 2, 2); // X
    click(&mut game, 2, 0); // O wins the first column
    assert_eq!(game.state, GameState::OWon);
    game.on_key_released(KeyboardKey::R);
    assert_eq!(game.state, GameState::Playing);
    assert_eq!(game.board, [[E, E, E], [E, E, E], [E, E, E]]);
}

#[test]
fn only_the_left_button_places_a_mark() {
    let mut game = GameController::new(300, 300);
    let before = game;
    game.on_mouse_released(MouseKey::Right, 150, 150);
    assert_eq!(game, before);
    game.on_mouse_released(MouseKey::Middle, 150, 150);
    assert_eq!(game, before);
    game.on_mouse_released(MouseKey::Left, 150, 150);
    assert_eq!(game.board[1][1], X);
}

#[test]
fn colour_channels_are_kept() {
    let c = Color::new(245, 245, 245, 255);
    assert_eq!(c, Color(245, 245, 245, 255));
    assert_eq!(c.0, 245);
    assert_eq!(c.3, 255);
}
