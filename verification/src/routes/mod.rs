//! What the web interface asks for, and what it is told.

pub mod audio;
pub mod frontend;
pub mod game_state;
