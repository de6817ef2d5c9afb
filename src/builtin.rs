//! The builtin operations, the session they act on, and the diagnostics the
//! shell prints.
use vstd::prelude::*;
use crate::text::views;

verus! {

/// An operation that runs inside the shell's own process.
#[derive(Clone, Copy, Debug, PartialEq, Eq, Structural)]
pub enum Builtin {
    Help,
    Exit,
    Pwd,
    Cd,
    List,
    Echo,
    ReadFile,
}

/// The builtin with the given name, if any.
pub open spec fn builtin_named(name: Seq<char>) -> Option<Builtin> {
    if name == "help"@ {
        Some(Builtin::Help)
    } else if name == "exit"@ {
        Some(Builtin::Exit)
    } else if name == "pwd"@ {
        Some(Builtin::Pwd)
    } else if name == "cd"@ {
        Some(Builtin::Cd)
    } else if name == "list"@ {
        Some(Builtin::List)
    } else if name == "echo"@ {
        Some(Builtin::Echo)
    } else if name == "read-file"@ {
        Some(Builtin::ReadFile)
    } else {
        None
    }
}

/// Character-wise equality of two strings.
pub fn text_eq(a: &str, b: &str) -> (r: bool)
    ensures
        r == (a@ == b@),
{
    let n = a.unicode_len();
    if n != b.unicode_len() {
        return false;
    }
    let mut i: usize = 0;
    while i < n
        invariant
            n == a@.len() == b@.len(),
            i <= n,
            forall|k: int| 0 <= k < i ==> a@[k] == b@[k],
        decreases n - i,
    {
        if a.get_char(i) != b.get_char(i) {
            return false;
        }
        i = i + 1;
    }
    proof {
        assert(a@ =~= b@);
    }
    true
}

/// Looks a command name up in the builtin table.
pub fn lookup_builtin(name: &str) -> (r: Option<Builtin>)
    ensures
        r == builtin_named(name@),
{
    if text_eq(name, "help") {
        Some(Builtin::Help)
    } else if text_eq(name, "exit") {
        Some(Builtin::Exit)
    } else if text_eq(name, "pwd") {
        Some(Builtin::Pwd)
    } else if text_eq(name, "cd") {
        Some(Builtin::Cd)
    } else if text_eq(name, "list") {
        Some(Builtin::List)
    } else if text_eq(name, "echo") {
        Some(Builtin::Echo)
    } else if text_eq(name, "read-file") {
        Some(Builtin::ReadFile)
    } else {
        None
    }
}

/// The kinds of failure the shell reports; none of them ends the session.
#[derive(Clone, Copy, Debug, PartialEq, Eq, Structural)]
pub enum ErrorKind {
    UnknownCommand,
    NotADirectory,
    NotAFile,
    DirectoryReadFailure,
    SpawnFailure,
}

/// A failure, with the command name, the path or the cause it concerns.
#[derive(Clone, Debug)]
pub struct ShellError {
    pub kind: ErrorKind,
    pub subject: String,
}

impl View for ShellError {
    type V = (ErrorKind, Seq<char>);

    open spec fn view(&self) -> (ErrorKind, Seq<char>) {
        (self.kind, self.subject@)
    }
}

/// The line printed for a failure.
pub open spec fn message_of(kind: ErrorKind, subject: Seq<char>) -> Seq<char> {
    match kind {
        ErrorKind::UnknownCommand => "Unknown command: "@ + subject,
        ErrorKind::NotADirectory => subject + " is not a directory"@,
        ErrorKind::NotAFile => subject + " is not a file"@,
        ErrorKind::DirectoryReadFailure => "Failed to read directory: "@ + subject,
        ErrorKind::SpawnFailure => "Failed to spawn command: "@ + subject,
    }
}

impl ShellError {
    pub fn new(kind: ErrorKind, subject: String) -> (r: ShellError)
        ensures
            r@ == (kind, subject@),
    {
        ShellError { kind, subject }
    }

    /// The diagnostic line for this failure.
    pub fn message(&self) -> (r: String)
        ensures
            r@ == message_of(self.kind, self.subject@),
    {
        let subject = self.subject.as_str();
        match self.kind {
            ErrorKind::UnknownCommand => "Unknown command: ".to_owned().concat(subject),
            ErrorKind::NotADirectory => subject.to_owned().concat(" is not a directory"),
            ErrorKind::NotAFile => subject.to_owned().concat(" is not a file"),
            ErrorKind::DirectoryReadFailure => "Failed to read directory: ".to_owned().concat(
                subject,
            ),
            ErrorKind::SpawnFailure => "Failed to spawn command: ".to_owned().concat(subject),
        }
    }
}

/// The shell's long-lived state: its logical working directory.
#[derive(Clone, Debug)]
pub struct Session {
    pub current_dir: String,
}

impl Session {
    /// A session that starts in `start`, or in `/` where the working
    /// directory could not be found.
    pub fn new(start: Option<String>) -> (r: Session)
        ensures
            r.current_dir@ == match start {
                Some(d) => d@,
                None => "/"@,
            },
    {
        match start {
            Some(d) => Session { current_dir: d },
            None => Session { current_dir: "/".to_owned() },
        }
    }

    /// Moves to `target`, the resolved path of a `cd`, where it names an
    /// existing directory (`is_dir`); otherwise leaves the session as it is
    /// and reports why.
    pub fn change_dir(&mut self, target: String, is_dir: bool) -> (r: Result<(), ShellError>)
        ensures
            is_dir ==> r is Ok && final(self).current_dir@ == target@,
            !is_dir ==> r is Err && r->Err_0@ == (ErrorKind::NotADirectory, target@)
                && final(self).current_dir == old(self).current_dir,
    {
        if is_dir {
            self.current_dir = target;
            Ok(())
        } else {
            Err(ShellError::new(ErrorKind::NotADirectory, target))
        }
    }
}

/// The list of builtin names that `help` prints.
pub open spec fn help_text() -> Seq<char> {
    "Available commands: help, exit, pwd, cd, list, echo, read-file"@
}

/// The strings of `v` with `sep` between each two neighbours.
pub open spec fn joined(v: Seq<Seq<char>>, sep: Seq<char>) -> Seq<char>
    decreases v.len(),
{
    if v.len() == 0 {
        seq![]
    } else if v.len() == 1 {
        v[0]
    } else {
        joined(v.drop_last(), sep) + sep + v.last()
    }
}

/// What `echo` prints: its arguments separated by single spaces.
pub fn echo_text(args: &Vec<String>) -> (r: String)
    ensures
        r@ == joined(views(args@), " "@),
{
    let mut out = String::new();
    let mut i: usize = 0;
    while i < args.len()
        invariant
            i <= args@.len(),
            out@ == joined(views(args@.take(i as int)), " "@),
        decreases args@.len() - i,
    {
        proof {
            assert(views(args@.take(i as int + 1)).drop_last() =~= views(args@.take(i as int)));
        }
        if i > 0 {
            out.append(" ");
        }
        out.append(args[i].as_str());
        i = i + 1;
    }
    proof {
        assert(args@.take(args@.len() as int) =~= args@);
    }
    out
}

/// The path argument of `cd`, `list` and `read-file`: the first argument,
/// or `.` when there is none.
pub open spec fn path_arg(args: Seq<Seq<char>>) -> Seq<char> {
    if args.len() > 0 {
        args[0]
    } else {
        "."@
    }
}

/// What a builtin asks of its caller.
#[derive(Clone, Debug)]
pub enum BuiltinStep {
    /// Print the line.
    Print(String),
    /// End the shell with status 0.
    Exit,
    /// Resolve the path and, if it is a directory, make it the current one.
    ChangeDir(String),
    /// Resolve the path and print the names of its entries.
    ListDir(String),
    /// Resolve the path and, if it is a regular file, print its contents.
    ReadFile(String),
}

/// A `BuiltinStep` with its strings seen as character sequences.
pub enum StepView {
    Print(Seq<char>),
    Exit,
    ChangeDir(Seq<char>),
    ListDir(Seq<char>),
    ReadFile(Seq<char>),
}

impl View for BuiltinStep {
    type V = StepView;

    open spec fn view(&self) -> StepView {
        match self {
            BuiltinStep::Print(s) => StepView::Print(s@),
            BuiltinStep::Exit => StepView::Exit,
            BuiltinStep::ChangeDir(p) => StepView::ChangeDir(p@),
            BuiltinStep::ListDir(p) => StepView::ListDir(p@),
            BuiltinStep::ReadFile(p) => StepView::ReadFile(p@),
        }
    }
}

/// What builtin `b` does with arguments `args` in working directory `cwd`.
pub open spec fn builtin_step(b: Builtin, args: Seq<Seq<char>>, cwd: Seq<char>) -> StepView {
    match b {
        Builtin::Help => StepView::Print(help_text()),
        Builtin::Exit => StepView::Exit,
        Builtin::Pwd => StepView::Print(cwd),
        Builtin::Cd => StepView::ChangeDir(path_arg(args)),
        Builtin::List => StepView::ListDir(path_arg(args)),
        Builtin::Echo => StepView::Print(joined(args, " "@)),
        Builtin::ReadFile => StepView::ReadFile(path_arg(args)),
    }
}

fn first_or_dot(args: &Vec<String>) -> (r: String)
    ensures
        r@ == path_arg(views(args@)),
{
    if args.len() > 0 {
        args[0].clone()
    } else {
        ".".to_owned()
    }
}

/// Runs builtin `b` as far as it can go without the operating system.
pub fn run_builtin(b: Builtin, args: &Vec<String>, session: &Session) -> (r: BuiltinStep)
    ensures
        r@ == builtin_step(b, views(args@), session.current_dir@),
{
    match b {
        Builtin::Help => BuiltinStep::Print(
            "Available commands: help, exit, pwd, cd, list, echo, read-file".to_owned(),
        ),
        Builtin::Exit => BuiltinStep::Exit,
        Builtin::Pwd => BuiltinStep::Print(session.current_dir.clone()),
        Builtin::Cd => BuiltinStep::ChangeDir(first_or_dot(args)),
        Builtin::List => BuiltinStep::ListDir(first_or_dot(args)),
        Builtin::Echo => BuiltinStep::Print(echo_text(args)),
        Builtin::ReadFile => BuiltinStep::ReadFile(first_or_dot(args)),
    }
}

/// Checks the target of a `read-file`: `path` is handed back where it names
/// a regular file (`is_file`), and reported otherwise.
pub fn check_read_target(path: String, is_file: bool) -> (r: Result<String, ShellError>)
    ensures
        is_file ==> r is Ok && r->Ok_0@ == path@,
        !is_file ==> r is Err && r->Err_0@ == (ErrorKind::NotAFile, path@),
{
    if is_file {
        Ok(path)
    } else {
        Err(ShellError::new(ErrorKind::NotAFile, path))
    }
}

} // verus!
