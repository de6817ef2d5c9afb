use kebda::builtin::{Builtin, ErrorKind};
use kebda::pipeline::{handle_command, Action, Event, Execution, Phase};

fn expect_locate(a: Action, name: &str) {
    match a {
        Action::Locate(n) => assert_eq!(n, name),
        other => panic!("expected a lookup of {}, got {:?}", name, other),
    }
}

#[test]
fn builtin_line_runs_in_process() {
    let (ex, a) = handle_command("pwd");
    assert!(matches!(a, Action::RunBuiltin(Builtin::Pwd, ref args) if args.is_empty()));
    assert_eq!(ex.phase, Phase::Done);
    assert_eq!(ex.spawned, 0);
}

#[test]
fn builtin_name_in_pipeline_is_external() {
    let (mut ex, a) = handle_command("echo hi | sort");
    expect_locate(a, "echo");
    let a = ex.advance(Event::NotFound);
    match a {
        Action::Report(e) => {
            assert_eq!(e.kind, ErrorKind::UnknownCommand);
            assert_eq!(e.message(), "Unknown command: echo");
        }
        other => panic!("unexpected {:?}", other),
    }
    assert!(matches!(ex.advance(Event::Reported), Action::WaitAll(0)));
    assert!(matches!(ex.advance(Event::Waited), Action::Finish));
    assert_eq!(ex.phase, Phase::Done);
}

#[test]
fn two_stage_pipeline_wires_and_waits() {
    let (mut ex, a) = handle_command("gen 3 | take");
    expect_locate(a, "gen");
    match ex.advance(Event::Found("/bin/gen".to_string())) {
        Action::Spawn { path, args, stdin_piped, stdout_piped } => {
            assert_eq!(path, "/bin/gen");
            assert_eq!(args, vec!["3"]);
            assert!(!stdin_piped);
            assert!(stdout_piped);
        }
        other => panic!("unexpected {:?}", other),
    }
    expect_locate(ex.advance(Event::Spawned), "take");
    match ex.advance(Event::Found("/bin/take".to_string())) {
        Action::Spawn { path, args, stdin_piped, stdout_piped } => {
            assert_eq!(path, "/bin/take");
            assert!(args.is_empty());
            assert!(stdin_piped);
            assert!(!stdout_piped);
        }
        other => panic!("unexpected {:?}", other),
    }
    assert!(matches!(ex.advance(Event::Spawned), Action::WaitAll(2)));
    assert_eq!(ex.phase, Phase::Waiting);
    assert!(matches!(ex.advance(Event::Waited), Action::Finish));
    assert_eq!(ex.phase, Phase::Done);
}

#[test]
fn single_external_inherits_streams() {
    let (mut ex, a) = handle_command("ls -la");
    expect_locate(a, "ls");
    match ex.advance(Event::Found("/bin/ls".to_string())) {
        Action::Spawn { stdin_piped, stdout_piped, args, .. } => {
            assert!(!stdin_piped && !stdout_piped);
            assert_eq!(args, vec!["-la"]);
        }
        other => panic!("unexpected {:?}", other),
    }
    assert!(matches!(ex.advance(Event::Spawned), Action::WaitAll(1)));
}

#[test]
fn spawn_failure_reaps_earlier_stages() {
    let (mut ex, a) = handle_command("a | b | c");
    expect_locate(a, "a");
    ex.advance(Event::Found("/x/a".to_string()));
    expect_locate(ex.advance(Event::Spawned), "b");
    ex.advance(Event::Found("/x/b".to_string()));
    match ex.advance(Event::SpawnFailed("permission denied".to_string())) {
        Action::Report(e) => assert_eq!(e.message(), "Failed to spawn command: permission denied"),
        other => panic!("unexpected {:?}", other),
    }
    assert_eq!(ex.phase, Phase::Failed);
    assert!(matches!(ex.advance(Event::Reported), Action::WaitAll(1)));
}

#[test]
fn empty_stage_is_unknown_command() {
    let (mut ex, a) = handle_command("ls |  ");
    expect_locate(a, "ls");
    ex.advance(Event::Found("/bin/ls".to_string()));
    match ex.advance(Event::Spawned) {
        Action::Report(e) => assert_eq!(e.message(), "Unknown command: "),
        other => panic!("unexpected {:?}", other),
    }
    assert!(matches!(ex.advance(Event::Reported), Action::WaitAll(1)));
}

#[test]
fn blank_line_does_nothing() {
    let (ex, a) = handle_command("   ");
    assert!(matches!(a, Action::Finish));
    assert!(ex.stages.is_empty());
    let (_, a) = Execution::start(Vec::new());
    assert!(matches!(a, Action::Finish));
}

#[test]
fn unknown_single_command_reported() {
    let (mut ex, a) = handle_command("frobnicate now");
    expect_locate(a, "frobnicate");
    match ex.advance(Event::NotFound) {
        Action::Report(e) => assert_eq!(e.message(), "Unknown command: frobnicate"),
        other => panic!("unexpected {:?}", other),
    }
}

#[test]
fn execution_accepts_only_matching_events() {
    let (mut ex, _) = handle_command("a | b");
    assert!(ex.accepts(&Event::NotFound));
    assert!(ex.accepts(&Event::Found("/a".to_string())));
    assert!(!ex.accepts(&Event::Spawned));
    ex.advance(Event::Found("/a".to_string()));
    assert!(ex.accepts(&Event::SpawnFailed("x".to_string())));
    assert!(!ex.accepts(&Event::Waited));
    let (done, _) = handle_command("pwd");
    assert!(!done.accepts(&Event::Waited));
}
