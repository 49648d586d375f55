use green_shell::builtins::{builtin_cd, builtin_exit, builtin_help, CdAction};
use green_shell::history::history_line;
use green_shell::launch::{finish_launch, LaunchOutcome};
use green_shell::prompt::get_shortened_path;
use green_shell::{Action, Builtin, Builtins, Shell, ShellStatus};

fn words(ws: &[&str]) -> Vec<String> {
    ws.iter().map(|w| w.to_string()).collect()
}

fn launched(action: Action) -> (String, Vec<String>) {
    match action {
        Action::Launch(c, a) => (c, a),
        other => panic!("expected a launch, got {:?}", other),
    }
}

#[test]
fn registry_holds_exit_help_cd() {
    let b = Builtins::new();
    assert_eq!(b.get(&"exit".to_string()), Some(Builtin::Exit));
    assert_eq!(b.get(&"help".to_string()), Some(Builtin::Help));
    assert_eq!(b.get(&"cd".to_string()), Some(Builtin::Cd));
    assert_eq!(b.get(&"ls".to_string()), None);
    assert_eq!(b.get(&"EXIT".to_string()), None);
}

#[test]
fn shell_finds_builtins_by_exact_name() {
    let sh = Shell::new();
    assert_eq!(sh.check_for_builtins("cd"), Some(Builtin::Cd));
    assert_eq!(sh.check_for_builtins("c"), None);
    assert_eq!(sh.check_for_builtins("gs"), None);
}

#[test]
fn empty_line_is_idle_and_unrecorded() {
    let sh = Shell::new();
    let d = sh.execute(Vec::new());
    assert!(matches!(d.action, Action::Idle));
    assert_eq!(d.history, None);
}

#[test]
fn builtin_runs_with_the_whole_line() {
    let sh = Shell::new();
    let d = sh.execute(words(&["exit", "now", "please"]));
    assert_eq!(d.history.as_deref(), Some("exit now please"));
    match d.action {
        Action::Builtin(b, args) => {
            assert_eq!(b, Builtin::Exit);
            assert_eq!(args, words(&["exit", "now", "please"]));
        }
        other => panic!("expected a builtin, got {:?}", other),
    }
}

#[test]
fn builtin_name_as_argument_is_not_a_builtin() {
    let sh = Shell::new();
    let (c, a) = launched(sh.execute(words(&["echo", "exit"])).action);
    assert_eq!(c, "echo");
    assert_eq!(a, words(&["exit"]));
}

#[test]
fn alias_gs_launches_git_status() {
    let sh = Shell::new();
    let d = sh.execute(words(&["gs"]));
    assert_eq!(d.history.as_deref(), Some("gs"));
    let (c, a) = launched(d.action);
    assert_eq!(c, "git");
    assert_eq!(a, words(&["status", "-s", "-b"]));
}

#[test]
fn alias_lg_launches_lazygit_without_arguments() {
    let sh = Shell::new();
    let (c, a) = launched(sh.execute(words(&["lg"])).action);
    assert_eq!(c, "lazygit");
    assert!(a.is_empty());
}

#[test]
fn alias_replaces_the_whole_line() {
    let sh = Shell::new();
    let d = sh.execute(words(&["gs", "extra"]));
    assert_eq!(d.history.as_deref(), Some("gs extra"));
    let (c, a) = launched(d.action);
    assert_eq!(c, "git");
    assert_eq!(a, words(&["status", "-s", "-b"]));
}

#[test]
fn alias_only_on_first_token() {
    let sh = Shell::new();
    let (c, a) = launched(sh.execute(words(&["sudo", "gs"])).action);
    assert_eq!(c, "sudo");
    assert_eq!(a, words(&["gs"]));
}

#[test]
fn other_command_launches_as_typed() {
    let sh = Shell::new();
    let (c, a) = launched(sh.execute(words(&["ls", "-la", "/tmp"])).action);
    assert_eq!(c, "ls");
    assert_eq!(a, words(&["-la", "/tmp"]));
}

#[test]
fn split_line_then_execute() {
    let sh = Shell::new();
    let toks = sh.split_line(String::from("   gs   "));
    let (c, _) = launched(sh.execute(toks).action);
    assert_eq!(c, "git");
}

#[test]
fn exit_ignores_arguments() {
    assert_eq!(builtin_exit(Vec::new()), ShellStatus::Exit);
    assert_eq!(builtin_exit(words(&["exit"])), ShellStatus::Exit);
    assert_eq!(builtin_exit(words(&["exit", "1", "--force"])), ShellStatus::Exit);
}

#[test]
fn help_keeps_running() {
    assert_eq!(builtin_help(words(&["help", "cd"])), ShellStatus::Running);
}

#[test]
fn cd_with_path_takes_it_literally() {
    let a = builtin_cd(&words(&["cd", "~/src", "ignored"]), Some("/home/u".to_string()));
    assert_eq!(a, CdAction::ChangeTo("~/src".to_string()));
    assert_eq!(a.status(), ShellStatus::Running);
}

#[test]
fn cd_without_path_goes_home() {
    let a = builtin_cd(&words(&["cd"]), Some("/home/u".to_string()));
    assert_eq!(a, CdAction::ChangeTo("/home/u".to_string()));
    assert_eq!(a.status(), ShellStatus::Running);
}

#[test]
fn cd_without_path_or_home_ends_session() {
    let a = builtin_cd(&words(&["cd"]), None);
    assert_eq!(a, CdAction::NoHome);
    assert_eq!(a.status(), ShellStatus::Exit);
}

#[test]
fn cd_with_path_needs_no_home() {
    let a = builtin_cd(&words(&["cd", "/nonexistent/dir"]), None);
    assert_eq!(a, CdAction::ChangeTo("/nonexistent/dir".to_string()));
    assert_eq!(a.status(), ShellStatus::Running);
}

#[test]
fn missing_command_keeps_running_and_names_it() {
    let (status, msg) = finish_launch(
        "__not_a_real_cmd__",
        LaunchOutcome::NotStarted("No such file or directory (os error 2)".to_string()),
    );
    assert_eq!(status, ShellStatus::Running);
    assert_eq!(
        msg.as_deref(),
        Some("failed to execute process - __not_a_real_cmd__: No such file or directory (os error 2)")
    );
}

#[test]
fn failing_command_keeps_running_and_is_reported() {
    let (status, msg) = finish_launch("false", LaunchOutcome::Failed("exit status: 1".to_string()));
    assert_eq!(status, ShellStatus::Running);
    assert_eq!(msg.as_deref(), Some("failed to execute process - false: exit status: 1"));
}

#[test]
fn succeeding_command_is_silent() {
    let (status, msg) = finish_launch("true", LaunchOutcome::Succeeded);
    assert_eq!(status, ShellStatus::Running);
    assert_eq!(msg, None);
}

#[test]
fn history_line_joins_with_single_spaces() {
    assert_eq!(history_line(&words(&["git", "commit", "-m", "wip"])), "git commit -m wip");
    assert_eq!(history_line(&words(&["ls"])), "ls");
    assert_eq!(history_line(&Vec::new()), "");
}

#[test]
fn history_round_trip_keeps_lines_in_order() {
    let sh = Shell::new();
    let lines = ["  ls   -la ", "gs", "cd /tmp", "exit 3"];
    let mut text = String::new();
    for l in lines.iter() {
        let d = sh.execute(sh.split_line(l.to_string()));
        text.push_str(&d.history.unwrap());
        text.push('\n');
    }
    let back: Vec<&str> = text.lines().collect();
    assert_eq!(back, vec!["ls -la", "gs", "cd /tmp", "exit 3"]);
}

#[test]
fn prompt_path_shortens_home() {
    let p = get_shortened_path("/home/u/src".to_string(), Some("/home/u".to_string()));
    assert_eq!(p, "~/src");
    let p = get_shortened_path("/home/u".to_string(), Some("/home/u".to_string()));
    assert_eq!(p, "~");
}

#[test]
fn prompt_path_outside_home_is_unchanged() {
    let p = get_shortened_path("/etc".to_string(), Some("/home/u".to_string()));
    assert_eq!(p, "/etc");
    let p = get_shortened_path("/home".to_string(), Some("/home/u".to_string()));
    assert_eq!(p, "/home");
    let p = get_shortened_path("/home/u/src".to_string(), None);
    assert_eq!(p, "/home/u/src");
}
