//! The input vocabulary the game controller consumes: the keys and mouse
//! buttons the game reacts to, as plain values independent of any windowing
//! layer.

use vstd::prelude::*;

verus! {

/// A keyboard key the game cares about: quit and restart.
#[derive(Clone, Copy, PartialEq, Eq, Structural, Debug)]
pub enum KeyboardKey {
    Q,
    R,
}

/// A mouse button.
#[derive(Clone, Copy, PartialEq, Eq, Structural, Debug)]
pub enum MouseKey {
    Left,
    Right,
    Middle,
}

} // verus!
