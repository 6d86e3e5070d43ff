//! The VR runtimes that a game can be started with.

use crate::text::{chars_of, is_text, lowercase};
use vstd::prelude::*;

pub mod envision;
pub mod wivrn;

verus! {

/// What a started backend reports.
#[derive(Debug, PartialEq, Eq)]
pub struct BackendStartInfo {
    pub vr_device_serial: String,
    pub vr_device_ip: Option<String>,
    pub was_restarted: bool,
}

/// The kinds of backend.
#[derive(Debug, Clone, Copy, PartialEq, Eq, Structural)]
pub enum BackendType {
    Unknown,
    WiVRn,
    Envision,
    ALVR,
}

/// The backend that a game names, where it is one that can be started:
/// `wivrn`, in any case of its letters.
pub open spec fn backend_named(name: Seq<char>) -> Option<BackendType> {
    if lowercase(name) == "wivrn"@ {
        Some(BackendType::WiVRn)
    } else {
        None
    }
}

/// The backend that a game names, or `None` where it cannot be started.
pub fn resolve_backend(name: &str) -> (r: Option<BackendType>)
    ensures
        r == backend_named(name@),
{
    let lower = name.to_lowercase();
    let chars = chars_of(lower.as_str());
    if is_text(&chars, "wivrn") {
        Some(BackendType::WiVRn)
    } else {
        None
    }
}

} // verus!
