//! Menu, cursor and animation logic of a small arcade game front-end.
//!
//! Everything here works on plain values: time is counted in nanoseconds,
//! cursor positions in whole UI units, and each per-frame rule returns what
//! the caller should do to the scene instead of touching the engine itself.
pub mod cursor_movement;
pub mod timer;
pub mod effects;
pub mod audio;
pub mod cursor;
pub mod waving;
pub mod flow;
pub mod main_menu;
pub mod loading;
pub mod disclaimer;
pub mod arcade_game;
