//! What the user's input does to the state of the interface.

pub mod keybindings;
