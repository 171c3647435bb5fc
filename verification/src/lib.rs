//! Decision logic of a keyboard-driven autoclicker: hotkey bindings, the
//! running / inventory-pause state machine, and what the user interface shows.

pub mod hotkey;
pub mod label;
pub mod state;
pub mod commands;
pub mod click;
pub mod ui;
pub mod wide;
pub mod classic;
pub mod laws;
pub mod operation_laws;
pub mod text_laws;
