//! Core logic of a 3x3 tic-tac-toe game: the board model with win and draw
//! detection, and the game controller that applies clicks, tracks whose turn
//! it is, and resets a finished game. Rendering and input polling live
//! outside this crate; the controller consumes plain key and mouse events.

pub mod color;
pub mod controller;
pub mod game;
pub mod input;
