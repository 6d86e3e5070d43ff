use vr_launcher::logging::log_channel::{console_timestamp, LogChannel, LogType, TAIL_CAPACITY};
use vr_launcher::logging::log_session::{
    check_date_code, date_code_of, ArchiveGroup, LogError, LogSession,
};

fn session() -> LogSession {
    // 2023-11-14 22:13:20 UTC
    LogSession::new("/var/logs".to_string(), 1_700_000_000).unwrap()
}

#[test]
fn channel_files_are_named_after_session_and_channel() {
    let mut s = session();
    assert_eq!(s.create_channel("vr_backend"), Ok(0));
    assert_eq!(s.create_channel("game"), Ok(1));
    assert_eq!(s.channel_count(), 2);
    assert_eq!(s.channel(0).get_name(), "vr_backend");
    assert_eq!(s.channel(0).get_file_name(), "2023-11-14_22:13:20_vr_backend.log");
    assert_eq!(s.channel(1).get_file_name(), "2023-11-14_22:13:20_game.log");
    assert_eq!(s.find_channel("game"), Some(1));
    assert_eq!(s.find_channel("overlay"), None);
}

#[test]
fn channel_names_are_unique() {
    let mut s = session();
    assert_eq!(s.create_channel(""), Err(LogError::EmptyName));
    assert_eq!(s.create_channel("game"), Ok(0));
    assert_eq!(s.create_channel("game"), Err(LogError::ChannelExists));
    assert_eq!(s.channel_count(), 1);
}

#[test]
fn session_needs_a_time_with_a_date_code() {
    assert!(LogSession::new("/l".to_string(), 0).is_some());
    // the year 10000 and later has no date code of four digits
    assert!(LogSession::new("/l".to_string(), 253_402_300_800).is_none());
    assert!(LogSession::new("/l".to_string(), i64::MAX).is_none());
    assert_eq!(console_timestamp(1_700_000_000), Some("2023-11-14 22:13:20".to_string()));
    assert_eq!(console_timestamp(0), Some("1970-01-01 00:00:00".to_string()));
}

#[test]
fn date_codes_are_recognised() {
    let chars = |s: &str| s.chars().collect::<Vec<char>>();
    assert!(check_date_code(&chars("2023-11-14_22:13:20")));
    assert!(!check_date_code(&chars("2023-11-14 22:13:20")));
    assert!(!check_date_code(&chars("2023-11-14_22:13:2")));
    assert!(!check_date_code(&chars("2023-11-14_22:13:2x")));
    assert_eq!(
        date_code_of("2023-11-14_22:13:20_game.log"),
        Some("2023-11-14_22:13:20".to_string())
    );
    assert_eq!(date_code_of("2023-11-14_22:13:20_.log"), None);
    assert_eq!(date_code_of("2023-11-14_22:13:20_game.txt"), None);
    assert_eq!(date_code_of("2023-11-14_22:13:20-game.log"), None);
    assert_eq!(date_code_of("2023-11-14_22:13:20_a\nb.log"), None);
    assert_eq!(date_code_of("2023-11-14_22:13:20.tar.gz"), None);
    assert_eq!(date_code_of("notes.log"), None);
    assert_eq!(date_code_of(""), None);
}

fn names(v: &[&str]) -> Vec<String> {
    v.iter().map(|s| s.to_string()).collect()
}

#[test]
fn old_files_are_grouped_by_date_code() {
    let s = session();
    let files = names(&[
        "2023-01-01_10:00:00_game.log",
        "readme.txt",
        "2023-01-02_11:00:00_game.log",
        "2023-01-01_10:00:00_vr_backend.log",
        "2022-12-31_09:00:00.tar.gz",
    ]);
    let groups = s.archive_old_files(&files);
    assert_eq!(
        groups,
        vec![
            ArchiveGroup {
                date_code: "2023-01-01_10:00:00".to_string(),
                archive_name: "2023-01-01_10:00:00.tar.gz".to_string(),
                files: names(&["2023-01-01_10:00:00_game.log", "2023-01-01_10:00:00_vr_backend.log"]),
            },
            ArchiveGroup {
                date_code: "2023-01-02_11:00:00".to_string(),
                archive_name: "2023-01-02_11:00:00.tar.gz".to_string(),
                files: names(&["2023-01-02_11:00:00_game.log"]),
            },
        ]
    );
}

#[test]
fn archiving_twice_archives_nothing_more() {
    let s = session();
    let files = names(&[
        "2023-01-01_10:00:00_game.log",
        "readme.txt",
        "2023-01-02_11:00:00_game.log",
    ]);
    let groups = s.archive_old_files(&files);
    // what the directory holds afterwards
    let mut remaining: Vec<String> = files
        .iter()
        .filter(|f| !groups.iter().any(|g| g.files.contains(f)))
        .cloned()
        .collect();
    for g in &groups {
        remaining.push(g.archive_name.clone());
    }
    assert_eq!(remaining.len(), 3);
    assert!(s.archive_old_files(&remaining).is_empty());
    assert!(s.archive_old_files(&vec![]).is_empty());
    assert!(s.archive_old_files(&names(&["a", "b.log"])).is_empty());
}

#[test]
fn shutdown_archives_the_files_that_exist() {
    let mut s = session();
    s.create_channel("vr_backend").unwrap();
    s.create_channel("game").unwrap();
    s.create_channel("overlay").unwrap();
    let g = s.shutdown(&vec![true, false, true]).unwrap();
    assert_eq!(g.archive_name, "2023-11-14_22:13:20.tar.gz");
    assert_eq!(
        g.files,
        names(&["2023-11-14_22:13:20_vr_backend.log", "2023-11-14_22:13:20_overlay.log"])
    );
    assert_eq!(s.channel_count(), 0);
    assert_eq!(s.shutdown(&vec![]), None);
    s.create_channel("game").unwrap();
    assert_eq!(s.shutdown(&vec![false]), None);
}

#[test]
fn channel_keeps_tails_and_formats_lines() {
    let mut c = LogChannel::new("game", "2023-11-14_22:13:20");
    let line = c.write("hello", LogType::StdOut, "2023-11-14 22:13:21");
    assert_eq!(line.console, "[2023-11-14 22:13:21] [game] [Output] hello");
    assert_eq!(line.file, "hello\n");
    let line = c.write("oops", LogType::StdErr, "t");
    assert_eq!(line.console, "[t] [game] [Error] oops");
    assert_eq!(c.get_stdout_lines(), &vec!["hello".to_string()]);
    assert_eq!(c.get_stderr_lines(), &vec!["oops".to_string()]);
    assert_eq!(c.last_error_line(), Some("oops".to_string()));
    for i in 0..(TAIL_CAPACITY + 10) {
        c.write(&format!("line {}", i), LogType::StdErr, "t");
    }
    assert_eq!(c.get_stderr_lines().len(), TAIL_CAPACITY);
    assert_eq!(c.get_stderr_lines()[0], "line 10");
    assert_eq!(c.last_error_line(), Some(format!("line {}", TAIL_CAPACITY + 9)));
    assert_eq!(c.get_stdout_lines().len(), 1);
    let fresh = LogChannel::new("x", "d");
    assert_eq!(fresh.last_error_line(), None);
}

#[test]
fn channel_errors_end_the_launch() {
    assert_eq!(
        LogError::ChannelExists.launch_error("game"),
        vr_launcher::app_state::LaunchError::LogChannelConflict("game".to_string())
    );
    assert_eq!(
        LogError::EmptyName.launch_error(""),
        vr_launcher::app_state::LaunchError::Other("Name cannot be empty".to_string())
    );
}
