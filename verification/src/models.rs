//! The records that the launcher keeps of its games.

use vstd::prelude::*;

verus! {

/// A game of the library, as the database holds it.
#[derive(Debug)]
pub struct Game {
    pub id: String,
    pub title: String,
    pub cover: Option<Vec<u8>>,
    pub vr_backend: String,
    pub steam_app_id: Option<i64>,
    pub proton_version: Option<String>,
    pub command_line: Option<String>,
    pub total_playtime_sec: i32,
}

} // verus!
