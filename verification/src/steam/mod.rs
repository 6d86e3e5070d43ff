//! Starting games through a compatibility tool.

pub mod launch_modifiers;
pub mod launcher;
pub mod steam_interface;
pub mod vfd_format;
