//! One log channel: the name of its file, and the last lines that came
//! over each of the two streams.

use crate::text::texts;
use std::fmt::Write;
use vstd::prelude::*;

verus! {

/// The stream over which a line came.
#[derive(Debug, Clone, Copy, PartialEq, Eq, Structural)]
pub enum LogType {
    StdOut,
    StdErr,
}

/// The text of a point in time, given in seconds since 1970 in UTC, in a
/// format of chrono's `strftime` kind; `None` where chrono has no date for
/// the seconds or cannot write the format.
pub uninterp spec fn utc_text(secs: int, pattern: Seq<char>) -> Option<Seq<char>>;

/// Calls chrono's `DateTime::from_timestamp` and writes the time with
/// `DateTime::format`. The text is a function of the seconds and the
/// format alone: the time is taken as UTC, and no locale is used.
#[verifier::external_body]
pub(crate) fn format_utc(secs: i64, pattern: &str) -> (r: Option<String>)
    ensures
        match r {
            Some(t) => utc_text(secs as int, pattern@) == Some(t@),
            None => utc_text(secs as int, pattern@).is_none(),
        },
{
    match chrono::DateTime::from_timestamp(secs, 0) {
        Some(time) => {
            let mut text = String::new();
            match write!(text, "{}", time.format(pattern)) {
                Ok(_) => Some(text),
                Err(_) => None,
            }
        },
        None => None,
    }
}

/// The number of lines of each stream that a channel keeps.
pub const TAIL_CAPACITY: usize = 256;

/// The name of the file of a channel: the date code of its session, `_`,
/// the channel's name, and `.log`.
pub open spec fn log_file_name(date_code: Seq<char>, name: Seq<char>) -> Seq<char> {
    date_code + "_"@ + name + ".log"@
}

/// The last `capacity` lines of `lines` and `line` after them.
pub open spec fn tail_with(lines: Seq<Seq<char>>, line: Seq<char>, capacity: int) -> Seq<Seq<char>> {
    let all = lines.push(line);
    if all.len() > capacity {
        all.skip(all.len() - capacity)
    } else {
        all
    }
}

/// What is written to the console for a line.
pub open spec fn console_line(
    timestamp: Seq<char>,
    channel: Seq<char>,
    log_type: LogType,
    message: Seq<char>,
) -> Seq<char> {
    "["@ + timestamp + "] ["@ + channel + "] ["@ + (match log_type {
        LogType::StdOut => "Output"@,
        LogType::StdErr => "Error"@,
    }) + "] "@ + message
}

/// A log channel.
#[derive(Debug)]
pub struct LogChannel {
    name: String,
    file_name: String,
    stdout_lines: Vec<String>,
    stderr_lines: Vec<String>,
}

/// What is to be written for a line that came in.
#[derive(Debug)]
pub struct LogLine {
    /// The line for the console.
    pub console: String,
    /// The bytes for the file: the message and a line feed.
    pub file: String,
}

impl LogChannel {
    /// The name of the channel.
    pub closed spec fn name(&self) -> Seq<char> {
        self.name@
    }

    /// The name of the channel's file.
    pub closed spec fn file_name(&self) -> Seq<char> {
        self.file_name@
    }

    /// The last lines of the output stream, oldest first.
    pub closed spec fn stdout_tail(&self) -> Seq<Seq<char>> {
        texts(self.stdout_lines@)
    }

    /// The last lines of the error stream, oldest first.
    pub closed spec fn stderr_tail(&self) -> Seq<Seq<char>> {
        texts(self.stderr_lines@)
    }

    /// Neither tail is longer than the capacity.
    pub open spec fn wf(&self) -> bool {
        self.stdout_tail().len() <= TAIL_CAPACITY && self.stderr_tail().len() <= TAIL_CAPACITY
    }

    /// A channel named `name` in a session with the date code `date_code`.
    pub fn new(name: &str, date_code: &str) -> (c: LogChannel)
        ensures
            c.name() == name@,
            c.file_name() == log_file_name(date_code@, name@),
            c.stdout_tail().len() == 0,
            c.stderr_tail().len() == 0,
            c.wf(),
    {
        let mut file_name = date_code.to_owned();
        file_name.append("_");
        file_name.append(name);
        file_name.append(".log");
        LogChannel {
            name: name.to_owned(),
            file_name,
            stdout_lines: Vec::new(),
            stderr_lines: Vec::new(),
        }
    }

    /// The name of the channel.
    pub fn get_name(&self) -> (n: &String)
        ensures
            n@ == self.name(),
    {
        &self.name
    }

    /// The name of the channel's file.
    pub fn get_file_name(&self) -> (n: &String)
        ensures
            n@ == self.file_name(),
    {
        &self.file_name
    }

    /// The last lines of the output stream, oldest first.
    pub fn get_stdout_lines(&self) -> (lines: &Vec<String>)
        ensures
            texts(lines@) == self.stdout_tail(),
    {
        &self.stdout_lines
    }

    /// The last lines of the error stream, oldest first.
    pub fn get_stderr_lines(&self) -> (lines: &Vec<String>)
        ensures
            texts(lines@) == self.stderr_tail(),
    {
        &self.stderr_lines
    }

    /// The last line of the error stream, if there is one.
    pub fn last_error_line(&self) -> (line: Option<String>)
        ensures
            match line {
                Some(l) => self.stderr_tail().len() > 0 && l@ == self.stderr_tail().last(),
                None => self.stderr_tail().len() == 0,
            },
    {
        if self.stderr_lines.len() == 0 {
            None
        } else {
            Some(self.stderr_lines[self.stderr_lines.len() - 1].clone())
        }
    }

    /// Takes a line in: it is kept at the end of the tail of its stream,
    /// the oldest line giving way where the tail is full, and what is to be
    /// written is returned. `timestamp` is the text of the time of the
    /// line.
    pub fn write(&mut self, message: &str, log_type: LogType, timestamp: &str) -> (line: LogLine)
        requires
            old(self).wf(),
        ensures
            final(self).wf(),
            final(self).name() == old(self).name(),
            final(self).file_name() == old(self).file_name(),
            final(self).stdout_tail() == (match log_type {
                LogType::StdOut => tail_with(old(self).stdout_tail(), message@, TAIL_CAPACITY as int),
                LogType::StdErr => old(self).stdout_tail(),
            }),
            final(self).stderr_tail() == (match log_type {
                LogType::StdOut => old(self).stderr_tail(),
                LogType::StdErr => tail_with(old(self).stderr_tail(), message@, TAIL_CAPACITY as int),
            }),
            line.console@ == console_line(timestamp@, old(self).name(), log_type, message@),
            line.file@ == message@ + "\n"@,
    {
        match log_type {
            LogType::StdOut => keep(&mut self.stdout_lines, message),
            LogType::StdErr => keep(&mut self.stderr_lines, message),
        }
        let mut console = "[".to_owned();
        console.append(timestamp);
        console.append("] [");
        console.append(self.name.as_str());
        console.append("] [");
        match log_type {
            LogType::StdOut => console.append("Output"),
            LogType::StdErr => console.append("Error"),
        }
        console.append("] ");
        console.append(message);
        let mut file = message.to_owned();
        file.append("\n");
        LogLine { console, file }
    }
}

/// Puts `message` at the end of a tail, the oldest line giving way where
/// the tail is full.
fn keep(lines: &mut Vec<String>, message: &str)
    requires
        old(lines)@.len() <= TAIL_CAPACITY,
    ensures
        texts(final(lines)@) == tail_with(texts(old(lines)@), message@, TAIL_CAPACITY as int),
        final(lines)@.len() <= TAIL_CAPACITY,
{
    let line = message.to_owned();
    proof {
        crate::text::lemma_texts_push(lines@, line);
    }
    lines.push(line);
    if lines.len() > TAIL_CAPACITY {
        let ghost full = lines@;
        lines.remove(0);
        assert(texts(lines@) =~= texts(full).skip(1));
    }
}

/// The time of a line as it is shown on the console.
pub fn console_timestamp(now_secs: i64) -> (r: Option<String>)
    ensures
        match r {
            Some(t) => utc_text(now_secs as int, "%Y-%m-%d %H:%M:%S"@) == Some(t@),
            None => utc_text(now_secs as int, "%Y-%m-%d %H:%M:%S"@).is_none(),
        },
{
    format_utc(now_secs, "%Y-%m-%d %H:%M:%S")
}

} // verus!
