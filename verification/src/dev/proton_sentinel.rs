//! Watching for games that another launcher starts through Proton, to see
//! the commands and the environment that it gives them.

use crate::text::{chars_of, ends_with, ends_with_exec, split_once, split_once_exec, texts};
use vstd::prelude::*;

verus! {

/// The watcher.
pub struct ProtonSentinel {}

/// Whether a command line is that of a game started through Proton: its
/// second word ends with `/proton`.
pub open spec fn runs_proton(cmd: Seq<Seq<char>>) -> bool {
    cmd.len() >= 2 && ends_with(cmd[1], "/proton"@)
}

/// The name that an entry of an environment sets, if it sets one.
pub open spec fn entry_name(entry: Seq<char>) -> Option<Seq<char>> {
    match split_once(entry, '=') {
        Some(pair) => Some(pair.0),
        None => None,
    }
}

impl ProtonSentinel {
    /// The milliseconds between two looks at the processes.
    pub fn interval_millis() -> (r: u64)
        ensures
            r == 3000,
    {
        3000
    }

    /// Whether a process with the command line `cmd` is a game started
    /// through Proton.
    pub fn is_proton_command(cmd: &Vec<String>) -> (r: bool)
        ensures
            r == runs_proton(texts(cmd@)),
    {
        if cmd.len() < 2 {
            return false;
        }
        assert(texts(cmd@)[1] == cmd@[1]@);
        let word = chars_of(cmd[1].as_str());
        let suffix = chars_of("/proton");
        ends_with_exec(&word, &suffix)
    }

    /// The name that an entry of an environment sets.
    pub fn name_of(entry: &str) -> (r: Option<String>)
        ensures
            match r {
                Some(n) => entry_name(entry@) == Some(n@),
                None => entry_name(entry@).is_none(),
            },
    {
        let chars = chars_of(entry);
        match split_once_exec(&chars, '=') {
            Some(pair) => Some(crate::text::string_of(&pair.0)),
            None => None,
        }
    }
}

} // verus!
