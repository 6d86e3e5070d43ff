//! The logs of a session: one channel for each process, one file for each
//! channel.

pub mod log_channel;
pub mod log_session;
