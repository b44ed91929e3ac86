//! The verified core of the level editor: undo history, editor state,
//! object editing commands, keyboard input bookkeeping and focus handling.

pub mod commands;
pub mod focus;
pub mod history;
pub mod level;
pub mod model;
pub mod input;
pub mod editor_input;
pub mod objects;
pub mod save;
pub mod ui;
pub mod laws;
