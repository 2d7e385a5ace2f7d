pub mod cell;
pub mod classify;
pub mod keyboard_status;
pub mod game;
pub mod input;
