use kebda::builtin::{
    check_read_target, echo_text, lookup_builtin, run_builtin, Builtin, BuiltinStep, ErrorKind,
    Session, ShellError,
};

fn strings(v: &[&str]) -> Vec<String> {
    v.iter().map(|s| s.to_string()).collect()
}

#[test]
fn builtin_table() {
    assert_eq!(lookup_builtin("help"), Some(Builtin::Help));
    assert_eq!(lookup_builtin("exit"), Some(Builtin::Exit));
    assert_eq!(lookup_builtin("pwd"), Some(Builtin::Pwd));
    assert_eq!(lookup_builtin("cd"), Some(Builtin::Cd));
    assert_eq!(lookup_builtin("list"), Some(Builtin::List));
    assert_eq!(lookup_builtin("echo"), Some(Builtin::Echo));
    assert_eq!(lookup_builtin("read-file"), Some(Builtin::ReadFile));
    assert_eq!(lookup_builtin("sort"), None);
    assert_eq!(lookup_builtin("PWD"), None);
    assert_eq!(lookup_builtin(""), None);
}

#[test]
fn echo_joins_with_single_spaces() {
    assert_eq!(echo_text(&strings(&["hello", "world"])), "hello world");
    assert_eq!(echo_text(&strings(&["one"])), "one");
    assert_eq!(echo_text(&Vec::new()), "");
}

#[test]
fn pwd_prints_current_dir() {
    let s = Session::new(Some("/home/user".to_string()));
    match run_builtin(Builtin::Pwd, &Vec::new(), &s) {
        BuiltinStep::Print(t) => assert_eq!(t, "/home/user"),
        other => panic!("unexpected {:?}", other),
    }
}

#[test]
fn help_lists_commands() {
    let s = Session::new(None);
    match run_builtin(Builtin::Help, &Vec::new(), &s) {
        BuiltinStep::Print(t) => {
            assert_eq!(t, "Available commands: help, exit, pwd, cd, list, echo, read-file")
        }
        other => panic!("unexpected {:?}", other),
    }
}

#[test]
fn path_builtins_default_to_dot() {
    let s = Session::new(None);
    assert!(matches!(run_builtin(Builtin::Cd, &Vec::new(), &s), BuiltinStep::ChangeDir(p) if p == "."));
    assert!(matches!(run_builtin(Builtin::List, &Vec::new(), &s), BuiltinStep::ListDir(p) if p == "."));
    let args = strings(&["/tmp", "extra"]);
    assert!(matches!(run_builtin(Builtin::Cd, &args, &s), BuiltinStep::ChangeDir(p) if p == "/tmp"));
    assert!(matches!(run_builtin(Builtin::ReadFile, &args, &s), BuiltinStep::ReadFile(p) if p == "/tmp"));
    assert!(matches!(run_builtin(Builtin::Exit, &args, &s), BuiltinStep::Exit));
    assert!(matches!(run_builtin(Builtin::Echo, &args, &s), BuiltinStep::Print(t) if t == "/tmp extra"));
}

#[test]
fn session_starts_at_root_without_cwd() {
    assert_eq!(Session::new(None).current_dir, "/");
    assert_eq!(Session::new(Some("/srv".to_string())).current_dir, "/srv");
}

#[test]
fn cd_into_directory_moves() {
    let mut s = Session::new(Some("/".to_string()));
    assert!(s.change_dir("/usr/lib".to_string(), true).is_ok());
    assert_eq!(s.current_dir, "/usr/lib");
}

#[test]
fn cd_to_regular_file_keeps_dir() {
    let mut s = Session::new(Some("/home/user".to_string()));
    let e = s.change_dir("/home/user/notes.txt".to_string(), false).unwrap_err();
    assert_eq!(s.current_dir, "/home/user");
    assert_eq!(e.kind, ErrorKind::NotADirectory);
    assert_eq!(e.message(), "/home/user/notes.txt is not a directory");
}

#[test]
fn read_file_target_checked() {
    assert_eq!(check_read_target("/etc/hosts".to_string(), true).unwrap(), "/etc/hosts");
    let e = check_read_target("/etc".to_string(), false).unwrap_err();
    assert_eq!(e.kind, ErrorKind::NotAFile);
    assert_eq!(e.message(), "/etc is not a file");
}

#[test]
fn error_messages() {
    let m = |k, s: &str| ShellError::new(k, s.to_string()).message();
    assert_eq!(m(ErrorKind::UnknownCommand, "frob"), "Unknown command: frob");
    assert_eq!(m(ErrorKind::NotADirectory, "/x"), "/x is not a directory");
    assert_eq!(m(ErrorKind::NotAFile, "/y"), "/y is not a file");
    assert_eq!(
        m(ErrorKind::DirectoryReadFailure, "permission denied"),
        "Failed to read directory: permission denied"
    );
    assert_eq!(m(ErrorKind::SpawnFailure, "no such file"), "Failed to spawn command: no such file");
}
