//! Tools for looking at what other launchers do.

pub mod proton_sentinel;
