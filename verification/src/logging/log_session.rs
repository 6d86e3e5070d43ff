//! A log session: its channels, whose names are unique, and the archives
//! into which the files of earlier sessions are put.

use crate::app_state::LaunchError;
use crate::logging::log_channel::{format_utc, log_file_name, utc_text, LogChannel};
use crate::text::{chars_of, ends_with, ends_with_exec, slice_of, str_equal, string_of, texts};
use vstd::prelude::*;

verus! {

/// Whether `c` is one of the digits `0` to `9`.
pub open spec fn is_decimal_digit(c: char) -> bool {
    48 <= c as u32 <= 57
}

/// The length of a date code.
pub const DATE_CODE_LEN: usize = 19;

/// What stands at position `i` of a date code: a digit, or one of the
/// separators of `yyyy-mm-dd_hh:mm:ss`.
pub open spec fn date_code_position(c: char, i: int) -> bool {
    if i == 4 || i == 7 {
        c == '-'
    } else if i == 10 {
        c == '_'
    } else if i == 13 || i == 16 {
        c == ':'
    } else {
        is_decimal_digit(c)
    }
}

/// Whether a text is a date code: `yyyy-mm-dd_hh:mm:ss`, all in digits.
pub open spec fn is_date_code(s: Seq<char>) -> bool {
    s.len() == DATE_CODE_LEN && forall|i: int|
        0 <= i < DATE_CODE_LEN ==> date_code_position(#[trigger] s[i], i)
}

/// Whether a file name is that of a log file: a date code, `_`, a name of
/// one character or more without a line feed, and `.log`.
pub open spec fn is_log_name(name: Seq<char>) -> bool {
    name.len() >= DATE_CODE_LEN + 6 && is_date_code(name.take(DATE_CODE_LEN as int))
        && name[DATE_CODE_LEN as int] == '_' && ends_with(name, ".log"@) && !name.subrange(
        DATE_CODE_LEN + 1,
        name.len() - 4,
    ).contains('\n')
}

/// The name of the archive of the session with the date code `date_code`.
pub open spec fn archive_name(date_code: Seq<char>) -> Seq<char> {
    date_code + ".tar.gz"@
}

/// Whether a text is a date code.
pub fn check_date_code(v: &Vec<char>) -> (r: bool)
    ensures
        r == is_date_code(v@),
{
    if v.len() != DATE_CODE_LEN {
        return false;
    }
    let mut i: usize = 0;
    while i < DATE_CODE_LEN
        invariant
            i <= DATE_CODE_LEN,
            v.len() == DATE_CODE_LEN,
            forall|j: int| 0 <= j < i ==> date_code_position(#[trigger] v@[j], j),
        decreases DATE_CODE_LEN - i,
    {
        let c = v[i];
        let x: u32 = c as u32;
        let fits = if i == 4 || i == 7 {
            c == '-'
        } else if i == 10 {
            c == '_'
        } else if i == 13 || i == 16 {
            c == ':'
        } else {
            48 <= x && x <= 57
        };
        if !fits {
            assert(!date_code_position(v@[i as int], i as int));
            return false;
        }
        i = i + 1;
    }
    true
}

/// The date code of a log file's name, or `None` where the name is not
/// that of a log file.
pub fn date_code_of(file_name: &str) -> (r: Option<String>)
    ensures
        match r {
            Some(code) => is_log_name(file_name@) && code@ == file_name@.take(DATE_CODE_LEN as int),
            None => !is_log_name(file_name@),
        },
{
    let chars = chars_of(file_name);
    let n = chars.len();
    if n < DATE_CODE_LEN + 6 {
        return None;
    }
    let code = slice_of(&chars, 0, DATE_CODE_LEN);
    assert(code@ =~= chars@.take(DATE_CODE_LEN as int));
    if !check_date_code(&code) {
        return None;
    }
    if chars[DATE_CODE_LEN] != '_' {
        return None;
    }
    let suffix = chars_of(".log");
    if !ends_with_exec(&chars, &suffix) {
        return None;
    }
    let mut i: usize = DATE_CODE_LEN + 1;
    let ghost middle = chars@.subrange(DATE_CODE_LEN + 1, n - 4);
    while i < n - 4
        invariant
            DATE_CODE_LEN + 1 <= i <= n - 4,
            n == chars.len(),
            chars@ == file_name@,
            middle == chars@.subrange(DATE_CODE_LEN + 1, n - 4),
            forall|j: int| DATE_CODE_LEN + 1 <= j < i ==> chars@[j] != '\n',
        decreases n - i,
    {
        if chars[i] == '\n' {
            assert(middle[i - DATE_CODE_LEN - 1] == '\n');
            assert(middle.contains('\n'));
            return None;
        }
        i = i + 1;
    }
    assert(!middle.contains('\n')) by {
        if middle.contains('\n') {
            let k = choose|k: int| 0 <= k < middle.len() && middle[k] == '\n';
            assert(chars@[k + DATE_CODE_LEN + 1] == '\n');
        }
    }
    Some(string_of(&code))
}

/// The log files of one earlier session, and the archive they go into.
#[derive(Debug, PartialEq, Eq)]
pub struct ArchiveGroup {
    pub date_code: String,
    pub archive_name: String,
    pub files: Vec<String>,
}

/// What an `ArchiveGroup` holds.
pub struct ArchiveGroupView {
    pub date_code: Seq<char>,
    pub files: Seq<Seq<char>>,
}

impl View for ArchiveGroup {
    type V = ArchiveGroupView;

    open spec fn view(&self) -> ArchiveGroupView {
        ArchiveGroupView { date_code: self.date_code@, files: texts(self.files@) }
    }
}

/// The views of a list of groups.
pub open spec fn group_views(groups: Seq<ArchiveGroup>) -> Seq<ArchiveGroupView> {
    groups.map_values(|g: ArchiveGroup| g@)
}

/// The position of the group with the date code `code`, from `i` on, or
/// the number of groups.
pub open spec fn group_position(groups: Seq<ArchiveGroupView>, code: Seq<char>, i: int) -> int
    decreases groups.len() - i,
{
    if i < 0 || i >= groups.len() || groups[i].date_code == code {
        i
    } else {
        group_position(groups, code, i + 1)
    }
}

/// The groups with one more file: it joins the group of its date code, or
/// begins a new group at the end.
pub open spec fn with_file(groups: Seq<ArchiveGroupView>, file: Seq<char>) -> Seq<ArchiveGroupView> {
    let code = file.take(DATE_CODE_LEN as int);
    let at = group_position(groups, code, 0);
    if at < groups.len() {
        groups.update(
            at,
            ArchiveGroupView { date_code: code, files: groups[at].files.push(file) },
        )
    } else {
        groups.push(ArchiveGroupView { date_code: code, files: seq![file] })
    }
}

/// The log files among `files`, grouped by date code. Groups stand in the
/// order in which their first files come, and so do the files of a group.
pub open spec fn groups_of(files: Seq<Seq<char>>) -> Seq<ArchiveGroupView>
    decreases files.len(),
{
    if files.len() == 0 {
        Seq::<ArchiveGroupView>::empty()
    } else if is_log_name(files.last()) {
        with_file(groups_of(files.drop_last()), files.last())
    } else {
        groups_of(files.drop_last())
    }
}

/// Why a channel was not created.
#[derive(Debug, Clone, Copy, PartialEq, Eq, Structural)]
pub enum LogError {
    /// A channel needs a name.
    EmptyName,
    /// The session has a channel of that name.
    ChannelExists,
}

impl LogError {
    /// The error of the launch that this error ends, for the channel that
    /// was to be named `name`.
    pub fn launch_error(&self, name: &str) -> (r: LaunchError)
        ensures
            match self {
                LogError::ChannelExists => r matches LaunchError::LogChannelConflict(n) && n@
                    == name@,
                LogError::EmptyName => r matches LaunchError::Other(m) && m@
                    == "Name cannot be empty"@,
            },
    {
        match self {
            LogError::ChannelExists => LaunchError::LogChannelConflict(name.to_owned()),
            LogError::EmptyName => LaunchError::Other("Name cannot be empty".to_owned()),
        }
    }
}

/// A log session.
pub struct LogSession {
    logs_dir: String,
    date_code: String,
    channels: Vec<LogChannel>,
}

/// The format of a date code.
pub open spec fn date_code_format() -> Seq<char> {
    "%Y-%m-%d_%H:%M:%S"@
}

impl LogSession {
    /// The directory of the log files.
    pub closed spec fn logs_dir(&self) -> Seq<char> {
        self.logs_dir@
    }

    /// The date code of the session.
    pub closed spec fn date_code(&self) -> Seq<char> {
        self.date_code@
    }

    /// The names of the channels, in the order of their creation.
    pub closed spec fn channel_names(&self) -> Seq<Seq<char>> {
        self.channels@.map_values(|c: LogChannel| c.name())
    }

    /// The names of the channels' files, in the order of their creation.
    pub closed spec fn channel_files(&self) -> Seq<Seq<char>> {
        self.channels@.map_values(|c: LogChannel| c.file_name())
    }

    /// No two channels have the same name, and each channel's file is
    /// named after the session and the channel.
    pub closed spec fn wf(&self) -> bool {
        &&& forall|i: int, j: int|
            0 <= i < j < self.channels@.len() ==> self.channels@[i].name()
                != self.channels@[j].name()
        &&& forall|i: int|
            0 <= i < self.channels@.len() ==> (#[trigger] self.channels@[i]).file_name()
                == log_file_name(self.date_code@, self.channels@[i].name()) && self.channels@[i].wf()
    }

    /// A session that begins at `start_secs`, in seconds since 1970, with
    /// its files in `logs_dir`; `None` where the time has no date code.
    pub fn new(logs_dir: String, start_secs: i64) -> (r: Option<LogSession>)
        ensures
            match r {
                Some(s) => {
                    &&& s.wf()
                    &&& s.logs_dir() == logs_dir@
                    &&& s.channel_names().len() == 0
                    &&& is_date_code(s.date_code())
                    &&& utc_text(start_secs as int, date_code_format()) == Some(s.date_code())
                },
                None => match utc_text(start_secs as int, date_code_format()) {
                    Some(code) => !is_date_code(code),
                    None => true,
                },
            },
    {
        match format_utc(start_secs, "%Y-%m-%d_%H:%M:%S") {
            Some(date_code) => {
                let chars = chars_of(date_code.as_str());
                if check_date_code(&chars) {
                    Some(LogSession { logs_dir, date_code, channels: Vec::new() })
                } else {
                    None
                }
            },
            None => None,
        }
    }

    /// The date code of the session.
    pub fn get_date_code(&self) -> (code: &String)
        ensures
            code@ == self.date_code(),
    {
        &self.date_code
    }

    /// The number of channels.
    pub fn channel_count(&self) -> (n: usize)
        ensures
            n == self.channel_names().len(),
    {
        self.channels.len()
    }

    /// The channel at position `i`.
    pub fn channel(&self, i: usize) -> (c: &LogChannel)
        requires
            i < self.channel_names().len(),
        ensures
            c.name() == self.channel_names()[i as int],
            c.file_name() == self.channel_files()[i as int],
    {
        &self.channels[i]
    }

    /// The position of the channel named `name`, if the session has one.
    pub fn find_channel(&self, name: &str) -> (r: Option<usize>)
        ensures
            match r {
                Some(i) => i < self.channel_names().len() && self.channel_names()[i as int]
                    == name@,
                None => !self.channel_names().contains(name@),
            },
    {
        let mut i: usize = 0;
        while i < self.channels.len()
            invariant
                i <= self.channels.len(),
                forall|j: int| 0 <= j < i ==> self.channel_names()[j] != name@,
            decreases self.channels.len() - i,
        {
            if str_equal(self.channels[i].get_name().as_str(), name) {
                return Some(i);
            }
            i = i + 1;
        }
        None
    }

    /// Creates a channel named `name`, and returns its position. A name
    /// that is empty, or that a channel of the session has, is refused.
    pub fn create_channel(&mut self, name: &str) -> (r: Result<usize, LogError>)
        requires
            old(self).wf(),
        ensures
            final(self).wf(),
            final(self).logs_dir() == old(self).logs_dir(),
            final(self).date_code() == old(self).date_code(),
            match r {
                Ok(i) => {
                    &&& name@.len() > 0
                    &&& !old(self).channel_names().contains(name@)
                    &&& i == old(self).channel_names().len()
                    &&& final(self).channel_names() == old(self).channel_names().push(name@)
                    &&& final(self).channel_files() == old(self).channel_files().push(
                        log_file_name(old(self).date_code(), name@),
                    )
                },
                Err(e) => {
                    &&& final(self).channel_names() == old(self).channel_names()
                    &&& final(self).channel_files() == old(self).channel_files()
                    &&& e == (if name@.len() == 0 {
                        LogError::EmptyName
                    } else {
                        LogError::ChannelExists
                    })
                    &&& name@.len() == 0 || old(self).channel_names().contains(name@)
                },
            },
    {
        if name.unicode_len() == 0 {
            return Err(LogError::EmptyName);
        }
        if self.find_channel(name).is_some() {
            return Err(LogError::ChannelExists);
        }
        let channel = LogChannel::new(name, self.date_code.as_str());
        let at = self.channels.len();
        let ghost before = self.channels@;
        self.channels.push(channel);
        proof {
            assert(self.channel_names() =~= old(self).channel_names().push(name@));
            assert(self.channel_files() =~= old(self).channel_files().push(
                log_file_name(old(self).date_code(), name@),
            ));
            assert forall|i: int, j: int| 0 <= i < j < self.channels@.len() implies self.channels@[i].name()
                != self.channels@[j].name() by {
                if j == before.len() {
                    assert(old(self).channel_names()[i] == before[i].name());
                }
            }
        }
        Ok(at)
    }

    /// Shuts the session down: its channels are dropped, and the files of
    /// those whose file exists go into the session's archive. `exists` says
    /// of each channel's file whether it exists. Nothing is archived where
    /// no file exists.
    pub fn shutdown(&mut self, exists: &Vec<bool>) -> (r: Option<ArchiveGroup>)
        requires
            exists.len() == old(self).channel_names().len(),
        ensures
            final(self).channel_names().len() == 0,
            final(self).wf(),
            final(self).date_code() == old(self).date_code(),
            final(self).logs_dir() == old(self).logs_dir(),
            match r {
                Some(g) => {
                    &&& g.date_code@ == old(self).date_code()
                    &&& g.archive_name@ == archive_name(old(self).date_code())
                    &&& texts(g.files@) == existing(old(self).channel_files(), exists@)
                    &&& g.files@.len() > 0
                },
                None => existing(old(self).channel_files(), exists@).len() == 0,
            },
    {
        let mut files: Vec<String> = Vec::new();
        let mut i: usize = 0;
        let n = self.channels.len();
        let ghost all = self.channel_files();
        assert(all.take(0) =~= Seq::<Seq<char>>::empty());
        assert(exists@.take(0) =~= Seq::<bool>::empty());
        while i < n
            invariant
                i <= n,
                n == self.channels.len(),
                n == exists.len(),
                all == self.channel_files(),
                texts(files@) == existing(all.take(i as int), exists@.take(i as int)),
            decreases n - i,
        {
            proof {
                assert(all.take(i + 1).drop_last() =~= all.take(i as int));
                assert(exists@.take(i + 1).drop_last() =~= exists@.take(i as int));
            }
            if exists[i] {
                let f = self.channels[i].get_file_name().clone();
                proof {
                    crate::text::lemma_texts_push(files@, f);
                }
                files.push(f);
            }
            i = i + 1;
        }
        assert(all.take(n as int) =~= all);
        assert(exists@.take(n as int) =~= exists@);
        self.channels = Vec::new();
        if files.len() == 0 {
            None
        } else {
            let mut name = self.date_code.clone();
            name.append(".tar.gz");
            Some(ArchiveGroup { date_code: self.date_code.clone(), archive_name: name, files })
        }
    }

    /// Groups the log files of earlier sessions for archiving. `files` are
    /// the names of the files in the log directory. Each group goes into
    /// the archive named after its date code, and its files are removed
    /// once they are in it. Names that are not those of log files are left
    /// alone, whatever they are, and so is an empty directory.
    pub fn archive_old_files(&self, files: &Vec<String>) -> (groups: Vec<ArchiveGroup>)
        ensures
            group_views(groups@) == groups_of(texts(files@)),
            forall|i: int|
                0 <= i < groups@.len() ==> (#[trigger] groups@[i]).archive_name@ == archive_name(
                    groups@[i].date_code@,
                ),
    {
        let mut groups: Vec<ArchiveGroup> = Vec::new();
        let mut i: usize = 0;
        assert(texts(files@).take(0) =~= Seq::<Seq<char>>::empty());
        assert(group_views(groups@) =~= Seq::<ArchiveGroupView>::empty());
        while i < files.len()
            invariant
                i <= files.len(),
                group_views(groups@) == groups_of(texts(files@).take(i as int)),
                forall|k: int|
                    0 <= k < groups@.len() ==> (#[trigger] groups@[k]).archive_name@
                        == archive_name(groups@[k].date_code@),
            decreases files.len() - i,
        {
            let ghost next = texts(files@).take(i + 1);
            proof {
                assert(next.drop_last() =~= texts(files@).take(i as int));
                assert(next.last() == files@[i as int]@);
            }
            match date_code_of(files[i].as_str()) {
                Some(code) => {
                    add_to_group(&mut groups, code, files[i].clone());
                },
                None => {},
            }
            i = i + 1;
        }
        assert(texts(files@).take(i as int) =~= texts(files@));
        groups
    }
}

/// Of a list of files, those that exist.
pub open spec fn existing(files: Seq<Seq<char>>, exists: Seq<bool>) -> Seq<Seq<char>>
    decreases files.len(),
{
    if files.len() == 0 || exists.len() != files.len() {
        Seq::<Seq<char>>::empty()
    } else if exists.last() {
        existing(files.drop_last(), exists.drop_last()).push(files.last())
    } else {
        existing(files.drop_last(), exists.drop_last())
    }
}

/// Puts `file` into the group with the date code `code`, or into a new
/// group at the end.
fn add_to_group(groups: &mut Vec<ArchiveGroup>, code: String, file: String)
    requires
        code@ == file@.take(DATE_CODE_LEN as int),
        forall|k: int|
            0 <= k < old(groups)@.len() ==> (#[trigger] old(groups)@[k]).archive_name@
                == archive_name(old(groups)@[k].date_code@),
    ensures
        group_views(final(groups)@) == with_file(group_views(old(groups)@), file@),
        forall|k: int|
            0 <= k < final(groups)@.len() ==> (#[trigger] final(groups)@[k]).archive_name@
                == archive_name(final(groups)@[k].date_code@),
{
    let mut i: usize = 0;
    let ghost views = group_views(groups@);
    while i < groups.len()
        invariant
            i <= groups.len(),
            groups@ == old(groups)@,
            views == group_views(groups@),
            code@ == file@.take(DATE_CODE_LEN as int),
            group_position(views, code@, i as int) == group_position(views, code@, 0),
            forall|k: int|
                0 <= k < groups@.len() ==> (#[trigger] groups@[k]).archive_name@ == archive_name(
                    groups@[k].date_code@,
                ),
        decreases groups.len() - i,
    {
        assert(views[i as int] == groups@[i as int]@);
        if str_equal(groups[i].date_code.as_str(), code.as_str()) {
            let ghost before = groups@;
            let mut group = groups.remove(i);
            assert(group == before[i as int]);
            proof {
                crate::text::lemma_texts_push(group.files@, file);
            }
            group.files.push(file);
            let ghost changed = group;
            groups.insert(i, group);
            proof {
                assert(groups@ =~= before.update(i as int, changed));
                assert(changed@ == (ArchiveGroupView {
                    date_code: code@,
                    files: views[i as int].files.push(file@),
                }));
                assert(group_views(groups@) =~= with_file(views, file@));
                assert forall|k: int| 0 <= k < groups@.len() implies (#[trigger] groups@[k]).archive_name@
                    == archive_name(groups@[k].date_code@) by {
                    if k != i {
                        assert(groups@[k] == before[k]);
                    } else {
                        assert(before[i as int].archive_name@ == archive_name(
                            before[i as int].date_code@,
                        ));
                    }
                }
            }
            return ;
        }
        i = i + 1;
    }
    let mut name = code.clone();
    name.append(".tar.gz");
    let mut files: Vec<String> = Vec::new();
    files.push(file);
    assert(texts(files@) =~= seq![file@]);
    groups.push(ArchiveGroup { date_code: code, archive_name: name, files });
    assert(group_views(groups@) =~= with_file(views, file@));
}

/// The name of an archive is not the name of a log file.
pub proof fn lemma_archive_is_no_log(code: Seq<char>)
    ensures
        !is_log_name(archive_name(code)),
{
    reveal_strlit(".tar.gz");
    reveal_strlit(".log");
    let name = archive_name(code);
    if ends_with(name, ".log"@) {
        let tail = name.subrange(name.len() - 4, name.len() as int);
        assert(tail[3] == 'g');
        assert(name[name.len() - 1] == 'z');
    }
}

/// Files that are not log files make no group.
pub proof fn lemma_no_logs_no_groups(files: Seq<Seq<char>>)
    requires
        forall|i: int| 0 <= i < files.len() ==> !is_log_name(#[trigger] files[i]),
    ensures
        groups_of(files).len() == 0,
    decreases files.len(),
{
    if files.len() > 0 {
        assert(!is_log_name(files[files.len() - 1]));
        assert forall|i: int| 0 <= i < files.drop_last().len() implies !is_log_name(
            #[trigger] files.drop_last()[i],
        ) by {
            assert(!is_log_name(files[i]));
        }
        lemma_no_logs_no_groups(files.drop_last());
    }
}

/// Archiving twice is archiving once: after the log files of a directory
/// were archived, the directory holds the files that were no log files and
/// the archives, and nothing of that is archived again.
pub proof fn law_archive_idempotent(files: Seq<Seq<char>>, remaining: Seq<Seq<char>>)
    requires
        forall|i: int|
            0 <= i < remaining.len() ==> (files.contains(#[trigger] remaining[i]) && !is_log_name(
                remaining[i],
            )) || (exists|k: int|
                0 <= k < groups_of(files).len() && remaining[i] == archive_name(
                    #[trigger] groups_of(files)[k].date_code,
                )),
    ensures
        groups_of(remaining).len() == 0,
{
    assert forall|i: int| 0 <= i < remaining.len() implies !is_log_name(#[trigger] remaining[i]) by {
        if !(files.contains(remaining[i]) && !is_log_name(remaining[i])) {
            let k = choose|k: int|
                0 <= k < groups_of(files).len() && remaining[i] == archive_name(
                    #[trigger] groups_of(files)[k].date_code,
                );
            lemma_archive_is_no_log(groups_of(files)[k].date_code);
        }
    }
    lemma_no_logs_no_groups(remaining);
}

/// The file of a channel is a log file with the date code of its session,
/// where the channel's name has no line feed in it.
pub proof fn law_channel_file_is_log(date_code: Seq<char>, name: Seq<char>)
    requires
        is_date_code(date_code),
        name.len() > 0,
        !name.contains('\n'),
    ensures
        is_log_name(log_file_name(date_code, name)),
        log_file_name(date_code, name).take(DATE_CODE_LEN as int) == date_code,
{
    reveal_strlit("_");
    reveal_strlit(".log");
    let file = log_file_name(date_code, name);
    assert(file.take(DATE_CODE_LEN as int) =~= date_code);
    assert(file.subrange(file.len() - 4, file.len() as int) =~= ".log"@);
    assert(file.subrange(DATE_CODE_LEN + 1, file.len() - 4) =~= name);
}

} // verus!
