//! The WiVRn runtime as an Envision profile installs it.

pub mod config;
pub mod envision_backend;
pub mod envision_launch_modifier;
