//! The WiVRn backend.

pub mod wivrn_backend;
pub mod wivrn_launch_modifier;
pub mod wivrn_log_handler;
