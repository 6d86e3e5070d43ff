use vr_launcher::command_parser::{
    determine_working_directory, parse_linux_command, tokenize_command,
};

fn here() -> Result<String, String> {
    Ok("/work".to_string())
}

#[test]
fn test_simple_command() {
    let cmd = "ls -la /home";
    let parsed = parse_linux_command(cmd, here()).unwrap();

    assert_eq!(parsed.executable, "ls");
    assert_eq!(parsed.arguments, vec!["-la", "/home"]);
    assert!(parsed.env_vars.is_empty());
}

#[test]
fn test_command_with_env_vars() {
    let cmd = "PATH=/usr/bin USER=test ls -la";
    let parsed = parse_linux_command(cmd, here()).unwrap();

    assert_eq!(parsed.executable, "ls");
    assert_eq!(parsed.arguments, vec!["-la"]);
    assert_eq!(parsed.env_vars.get("PATH"), Some(&"/usr/bin".to_string()));
    assert_eq!(parsed.env_vars.get("USER"), Some(&"test".to_string()));
}

#[test]
fn test_command_with_cwd() {
    let cmd = "CWD=/tmp ls";
    let parsed = parse_linux_command(cmd, here()).unwrap();

    assert_eq!(parsed.executable, "ls");
    assert_eq!(parsed.working_dir, "/tmp");
    assert!(!parsed.env_vars.contains_key("CWD"));
}

#[test]
fn test_quoted_arguments() {
    let cmd = r#"echo "hello world" 'single quotes' normal"#;
    let parsed = parse_linux_command(cmd, here()).unwrap();

    assert_eq!(parsed.executable, "echo");
    assert_eq!(parsed.arguments, vec!["hello world", "single quotes", "normal"]);
}

#[test]
fn test_executable_with_path() {
    let cmd = "/usr/bin/python script.py";
    let parsed = parse_linux_command(cmd, here()).unwrap();

    assert_eq!(parsed.executable, "/usr/bin/python");
    assert_eq!(parsed.working_dir, "/usr/bin");
    assert_eq!(parsed.arguments, vec!["script.py"]);
}

#[test]
fn test_complex_command() {
    let cmd = r#"VAR1="value with spaces" VAR2=value2 CWD=/workspace /usr/local/bin/app --config="my config.json" --verbose"#;
    let parsed = parse_linux_command(cmd, here()).unwrap();

    assert_eq!(parsed.executable, "/usr/local/bin/app");
    assert_eq!(parsed.working_dir, "/workspace");
    assert_eq!(parsed.env_vars.get("VAR1"), Some(&"value with spaces".to_string()));
    assert_eq!(parsed.env_vars.get("VAR2"), Some(&"value2".to_string()));
    assert!(!parsed.env_vars.contains_key("CWD"));
    assert_eq!(parsed.arguments, vec!["--config=my config.json", "--verbose"]);
}

#[test]
fn test_escaped_characters() {
    let cmd = r#"echo "line1\nline2" "quote\"inside""#;
    let parsed = parse_linux_command(cmd, here()).unwrap();

    assert_eq!(parsed.executable, "echo");
    assert_eq!(parsed.arguments[0], "line1\nline2");
    assert_eq!(parsed.arguments[1], "quote\"inside");
}

#[test]
fn working_dir_falls_back_to_current_dir() {
    let parsed = parse_linux_command("ls -la", here()).unwrap();
    assert_eq!(parsed.working_dir, "/work");
}

#[test]
fn current_dir_error_is_reported_only_when_needed() {
    let failed: Result<String, String> = Err("denied".to_string());
    let err = parse_linux_command("ls", failed.clone()).unwrap_err();
    assert_eq!(err, "Failed to get current directory: denied");
    let parsed = parse_linux_command("CWD=/x ls", failed.clone()).unwrap();
    assert_eq!(parsed.working_dir, "/x");
    let parsed = parse_linux_command("/opt/game/run", failed).unwrap();
    assert_eq!(parsed.working_dir, "/opt/game");
}

#[test]
fn empty_command_is_an_error() {
    assert_eq!(parse_linux_command("", here()).unwrap_err(), "Empty command");
    assert_eq!(parse_linux_command("   \t ", here()).unwrap_err(), "Empty command");
}

#[test]
fn only_assignments_is_an_error() {
    assert_eq!(
        parse_linux_command("A=1 B=2", here()).unwrap_err(),
        "No executable found in command"
    );
}

#[test]
fn unclosed_quotes_are_errors() {
    assert_eq!(tokenize_command("echo 'abc").unwrap_err(), "Unclosed single quote");
    assert_eq!(tokenize_command("echo \"abc").unwrap_err(), "Unclosed double quote");
}

#[test]
fn tokenizer_handles_escapes_and_tabs() {
    assert_eq!(tokenize_command("a\tb  c").unwrap(), vec!["a", "b", "c"]);
    assert_eq!(tokenize_command(r"a\ b").unwrap(), vec!["a b"]);
    assert_eq!(tokenize_command(r"a\tb").unwrap(), vec!["a\tb"]);
    assert_eq!(tokenize_command(r"'a\nb'").unwrap(), vec![r"a\nb"]);
    assert_eq!(tokenize_command("a\\").unwrap(), vec!["a"]);
    assert_eq!(tokenize_command("\"it's\"").unwrap(), vec!["it's"]);
    assert_eq!(tokenize_command("''").unwrap(), Vec::<String>::new());
}

#[test]
fn later_assignment_wins() {
    let parsed = parse_linux_command("A=1 A=2 run", here()).unwrap();
    assert_eq!(parsed.env_vars.get("A"), Some(&"2".to_string()));
    assert_eq!(parsed.env_vars.len(), 1);
}

#[test]
fn assignment_value_may_hold_equals() {
    let parsed = parse_linux_command("A=b=c run", here()).unwrap();
    assert_eq!(parsed.env_vars.get("A"), Some(&"b=c".to_string()));
}

#[test]
fn working_directory_priorities() {
    let r = determine_working_directory(
        Some("/cwd".to_string()),
        "/bin/x",
        Some("/bin".to_string()),
        Ok("/here".to_string()),
    );
    assert_eq!(r, Ok("/cwd".to_string()));
    let r = determine_working_directory(None, "/bin/x", Some("/bin".to_string()), Ok("/here".to_string()));
    assert_eq!(r, Ok("/bin".to_string()));
    let r = determine_working_directory(None, "x", Some("".to_string()), Ok("/here".to_string()));
    assert_eq!(r, Ok("/here".to_string()));
    let r = determine_working_directory(None, "/", None, Ok("/here".to_string()));
    assert_eq!(r, Ok("/here".to_string()));
}
