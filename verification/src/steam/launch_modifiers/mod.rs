//! What is added to the command of a game before it is started.

pub mod env_vars;
pub mod steam;
pub mod wivrn;
