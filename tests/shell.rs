use wasmux_sh::command::Builtin;
use wasmux_sh::decimal::decimal_text;
use wasmux_sh::hello;
use wasmux_sh::report::{external_report, listing, ls_failure, RunOutcome};
use wasmux_sh::shell::{banner, farewell, help, Action, Shell};
use wasmux_sh::text::{same_text, space_char};
use wasmux_sh::words::split_words;

fn print(text: &str) -> Action {
    Action::Print(text.to_string())
}

#[test]
fn test_hello() {
    assert_eq!(hello(), "Wasmux libc wrapper v1.0.0");
}

#[test]
fn new_shell_starts_as_guest_at_home() {
    let sh = Shell::new();
    assert_eq!(sh.current_dir, "/home/guest");
    assert_eq!(sh.username, "guest");
    assert_eq!(sh.prompt(), "guest$ ");
}

#[test]
fn blank_lines_do_nothing() {
    let mut sh = Shell::new();
    for line in ["", "   ", "\t", " \t \r\n ", "\u{3000}\u{a0}"] {
        assert_eq!(sh.handle_command(line), Action::Nothing);
        assert_eq!(sh.current_dir, "/home/guest");
        assert_eq!(sh.username, "guest");
    }
}

#[test]
fn split_words_on_runs_of_white_space() {
    assert_eq!(split_words("  ls   -l\t/tmp  "), vec!["ls", "-l", "/tmp"]);
    assert_eq!(split_words("a\u{3000}b\u{2003}c"), vec!["a", "b", "c"]);
    assert_eq!(split_words("héllo wörld"), vec!["héllo", "wörld"]);
    assert!(split_words("").is_empty());
    assert!(split_words(" \n\t ").is_empty());
}

#[test]
fn space_chars() {
    assert!(space_char(' '));
    assert!(space_char('\t'));
    assert!(space_char('\u{85}'));
    assert!(space_char('\u{205f}'));
    assert!(!space_char('a'));
    assert!(!space_char('\u{200b}'));
}

#[test]
fn echo_collapses_white_space() {
    let mut sh = Shell::new();
    assert_eq!(sh.handle_command("echo a  b   c"), print("a b c\n"));
    assert_eq!(sh.handle_command("  echo\thello   world  "), print("hello world\n"));
}

#[test]
fn echo_alone_prints_nothing() {
    let mut sh = Shell::new();
    assert_eq!(sh.handle_command("echo"), print(""));
    assert_eq!(sh.handle_command("  echo   "), print(""));
}

#[test]
fn cd_to_missing_path_keeps_directory() {
    let mut sh = Shell::new();
    assert_eq!(sh.handle_command("cd /no/such/dir"), Action::CheckPath("/no/such/dir".to_string()));
    let out = sh.finish_cd("/no/such/dir", false);
    assert_eq!(out, "[sh] cd: /no/such/dir: No such file or directory\n");
    assert!(out.contains("/no/such/dir"));
    assert_eq!(sh.current_dir, "/home/guest");
}

#[test]
fn cd_alone_goes_home() {
    let mut sh = Shell::new();
    assert_eq!(sh.finish_cd("/var/log", true), "");
    assert_eq!(sh.current_dir, "/var/log");
    assert_eq!(sh.handle_command("cd"), print(""));
    assert_eq!(sh.current_dir, "/home/guest");
    assert_eq!(sh.username, "guest");
}

#[test]
fn cd_uses_first_argument_only() {
    let mut sh = Shell::new();
    assert_eq!(sh.handle_command("cd /a /b"), Action::CheckPath("/a".to_string()));
    assert_eq!(sh.current_dir, "/home/guest");
}

#[test]
fn pwd_prints_directory_as_written() {
    let mut sh = Shell::new();
    assert_eq!(sh.handle_command("pwd"), print("/home/guest\n"));
    sh.finish_cd("/tmp/", true);
    assert_eq!(sh.handle_command("pwd"), print("/tmp/\n"));
    sh.finish_cd("./x/../y", true);
    assert_eq!(sh.handle_command("pwd extra"), print("./x/../y\n"));
}

#[test]
fn unknown_command_runs_externally_and_shell_goes_on() {
    let mut sh = Shell::new();
    let action = sh.handle_command("nosuchcmd --flag  arg");
    assert_eq!(action, Action::Run(vec!["nosuchcmd".to_string(), "--flag".to_string(), "arg".to_string()]));
    assert_eq!(external_report("nosuchcmd", RunOutcome::NotFound), "[sh] command not found: nosuchcmd\n");
    assert_eq!(sh.current_dir, "/home/guest");
    assert_eq!(sh.handle_command("pwd"), print("/home/guest\n"));
}

#[test]
fn exit_and_quit_end_the_loop() {
    let mut sh = Shell::new();
    assert_eq!(sh.handle_command("exit"), Action::Exit);
    assert_eq!(sh.handle_command("quit"), Action::Exit);
    assert_eq!(sh.handle_command("exit now please"), Action::Exit);
    assert_eq!(sh.handle_command("  quit 1 2"), Action::Exit);
    assert_eq!(sh.current_dir, "/home/guest");
}

#[test]
fn command_names_are_case_sensitive() {
    assert_eq!(Builtin::from_name("EXIT"), Builtin::External);
    assert_eq!(Builtin::from_name("Pwd"), Builtin::External);
    assert_eq!(Builtin::from_name("pwd"), Builtin::Pwd);
    assert_eq!(Builtin::from_name("quit"), Builtin::Exit);
    assert_eq!(Builtin::from_name("whoami"), Builtin::Whoami);
    let mut sh = Shell::new();
    assert_eq!(sh.handle_command("ECHO hi"), Action::Run(vec!["ECHO".to_string(), "hi".to_string()]));
}

#[test]
fn cd_twice_same_as_once() {
    let mut once = Shell::new();
    once.finish_cd("/tmp", true);
    let mut twice = Shell::new();
    twice.finish_cd("/tmp", true);
    twice.finish_cd("/tmp", true);
    assert_eq!(once.current_dir, twice.current_dir);
    assert_eq!(once.username, twice.username);
}

#[test]
fn pwd_cd_pwd_exit_scenario() {
    let mut sh = Shell::new();
    let mut out = String::new();
    match sh.handle_command("pwd") {
        Action::Print(t) => out.push_str(&t),
        other => panic!("unexpected {:?}", other),
    }
    match sh.handle_command("cd /tmp") {
        Action::CheckPath(p) => out.push_str(&sh.finish_cd(&p, true)),
        other => panic!("unexpected {:?}", other),
    }
    match sh.handle_command("pwd") {
        Action::Print(t) => out.push_str(&t),
        other => panic!("unexpected {:?}", other),
    }
    assert_eq!(sh.handle_command("exit"), Action::Exit);
    out.push_str(&farewell());
    assert_eq!(out, "/home/guest\n/tmp\n[sh] Exiting shell...\n");
}

#[test]
fn fixed_outputs() {
    let mut sh = Shell::new();
    assert_eq!(sh.handle_command("whoami"), print("guest\n"));
    assert_eq!(sh.handle_command("uname -a"), print("Wasmux 1.0.0 wasmux wasm32 wasmux-wasi\n"));
    assert_eq!(sh.handle_command("date"), print("[sh] 2026-01-05 00:00:00 UTC\n"));
    assert_eq!(sh.handle_command("clear"), print("\x1B[2J\x1B[1;1H"));
    assert_eq!(sh.handle_command("help"), Action::Print(help()));
}

#[test]
fn help_lists_commands_in_order() {
    let text = help();
    let lines: Vec<&str> = text.lines().collect();
    assert_eq!(lines.len(), 11);
    assert_eq!(lines[0], "Available commands:");
    assert!(lines[1].starts_with("  help"));
    assert!(lines[10].starts_with("  exit/quit"));
    assert!(text.ends_with('\n'));
}

#[test]
fn banner_and_farewell() {
    let b = banner();
    assert!(b.contains("Wasmux Shell v1.0.0 - POSIX Compatible"));
    assert!(b.ends_with("╝\n\n"));
    assert_eq!(b.lines().count(), 8);
    assert_eq!(farewell(), "[sh] Exiting shell...\n");
}

#[test]
fn ls_targets() {
    let mut sh = Shell::new();
    assert_eq!(sh.handle_command("ls"), Action::ListDir("/home/guest".to_string()));
    assert_eq!(sh.handle_command("ls /etc /usr"), Action::ListDir("/etc".to_string()));
    sh.finish_cd("/tmp", true);
    assert_eq!(sh.handle_command("ls"), Action::ListDir("/tmp".to_string()));
}

#[test]
fn listing_format() {
    let names = vec![Some("a.txt".to_string()), None, Some("bin".to_string())];
    assert_eq!(listing(&names), "a.txt  bin  \n");
    assert_eq!(listing(&Vec::new()), "\n");
    assert_eq!(ls_failure("/x", "Permission denied"), "[sh] ls: cannot open /x: Permission denied\n");
}

#[test]
fn external_reports() {
    assert_eq!(external_report("true", RunOutcome::Success), "");
    assert_eq!(external_report("false", RunOutcome::Failed(Some(1))), "[sh] command exited with status: Some(1)\n");
    assert_eq!(external_report("x", RunOutcome::Failed(Some(-3))), "[sh] command exited with status: Some(-3)\n");
    assert_eq!(external_report("x", RunOutcome::Failed(Some(255))), "[sh] command exited with status: Some(255)\n");
    assert_eq!(external_report("x", RunOutcome::Failed(None)), "[sh] command exited with status: None\n");
}

#[test]
fn decimal_values() {
    assert_eq!(decimal_text(0), "0");
    assert_eq!(decimal_text(9), "9");
    assert_eq!(decimal_text(10), "10");
    assert_eq!(decimal_text(1234567890), "1234567890");
    assert_eq!(decimal_text(-7), "-7");
    assert_eq!(decimal_text(i32::MAX), "2147483647");
    assert_eq!(decimal_text(i32::MIN), "-2147483648");
}

#[test]
fn text_equality() {
    assert!(same_text("cd", "cd"));
    assert!(!same_text("cd", "cd "));
    assert!(!same_text("ab", "ac"));
    assert!(same_text("", ""));
}
