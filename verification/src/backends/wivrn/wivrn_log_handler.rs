//! Watching the backend's log for a lost connection.

use crate::text::{chars_of, contains_exec, contains_text};
use vstd::prelude::*;

verus! {

/// The seconds to wait before the reconnect that follows a lost connection.
pub const RECONNECT_DELAY_SECS: u64 = 3;

/// Whether a log line tells that the connection to the headset was lost.
pub open spec fn tells_socket_shutdown(message: Seq<char>) -> bool {
    contains_text(message, "Exception in network thread: Socket shutdown"@)
}

/// Reads the backend's log lines.
pub struct WiVRnLogHandler {}

impl WiVRnLogHandler {
    /// Whether `message` asks for a reconnect: the caller then waits
    /// `RECONNECT_DELAY_SECS` and reconnects, without holding up the
    /// reading of the log.
    pub fn handle_message(&self, message: &str) -> (reconnect: bool)
        ensures
            reconnect == tells_socket_shutdown(message@),
    {
        let chars = chars_of(message);
        let pattern = chars_of("Exception in network thread: Socket shutdown");
        contains_exec(&chars, &pattern)
    }
}

} // verus!
