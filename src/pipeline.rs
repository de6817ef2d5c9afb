//! Turning a line into pipeline stages, and the state machine that decides,
//! stage by stage, what the caller must do to run them: look an executable
//! up, spawn it with its pipes, report a failure, or wait for the processes.
use vstd::prelude::*;
use crate::builtin::{builtin_named, lookup_builtin, Builtin, ErrorKind, ShellError};
use crate::text::{pieces, split_on, split_tokens, tokens, views};

verus! {

/// One command of a pipeline: its name and its arguments.
#[derive(Clone, Debug)]
pub struct Stage {
    pub command: String,
    pub args: Vec<String>,
}

/// A stage seen as character sequences.
pub struct StageView {
    pub command: Seq<char>,
    pub args: Seq<Seq<char>>,
}

impl View for Stage {
    type V = StageView;

    open spec fn view(&self) -> StageView {
        StageView { command: self.command@, args: views(self.args@) }
    }
}

/// The stage written as the text `s`: its first word names the command, the
/// other words are the arguments.
pub open spec fn stage_of(s: Seq<char>) -> StageView {
    let t = tokens(s);
    if t.len() > 0 {
        StageView { command: t[0], args: t.drop_first() }
    } else {
        StageView { command: seq![], args: seq![] }
    }
}

/// The stage of each text in `parts`.
pub open spec fn stages_from(parts: Seq<Seq<char>>) -> Seq<StageView> {
    parts.map_values(|p: Seq<char>| stage_of(p))
}

/// The stages of a line: none for a line of white space, else one for each
/// `|`-separated part.
pub open spec fn stages_of(line: Seq<char>) -> Seq<StageView> {
    if tokens(line).len() == 0 {
        seq![]
    } else {
        stages_from(pieces(line, '|'))
    }
}

/// The views of a sequence of stages.
pub open spec fn stage_views(v: Seq<Stage>) -> Seq<StageView> {
    v.map_values(|s: Stage| s@)
}

/// Splits one stage's text into the command name (empty where there is no
/// word) and its arguments.
pub fn parse_command(command: &str) -> (r: (String, Vec<String>))
    ensures
        r.0@ == stage_of(command@).command,
        views(r.1@) == stage_of(command@).args,
{
    let mut words = split_tokens(command);
    if words.len() == 0 {
        (String::new(), words)
    } else {
        let cmd = words.remove(0);
        proof {
            assert(views(words@) =~= tokens(command@).drop_first());
        }
        (cmd, words)
    }
}

/// Splits a line into its pipeline stages.
pub fn parse_line(line: &str) -> (r: Vec<Stage>)
    ensures
        stage_views(r@) == stages_of(line@),
{
    let words = split_tokens(line);
    if words.len() == 0 {
        proof {
            assert(stage_views(Seq::<Stage>::empty()) =~= Seq::<StageView>::empty());
        }
        return Vec::new();
    }
    let parts = split_on(line, '|');
    let mut out: Vec<Stage> = Vec::new();
    let mut i: usize = 0;
    while i < parts.len()
        invariant
            i <= parts@.len(),
            views(parts@) == pieces(line@, '|'),
            stage_views(out@) == stages_from(views(parts@.take(i as int))),
        decreases parts@.len() - i,
    {
        let (command, args) = parse_command(parts[i].as_str());
        let stage = Stage { command, args };
        proof {
            assert(views(parts@)[i as int] == parts@[i as int]@);
            assert(stage@ == stage_of(parts@[i as int]@));
            assert(views(parts@.take(i as int + 1)) =~= views(parts@.take(i as int)).push(
                parts@[i as int]@,
            ));
            assert(stage_views(out@.push(stage)) =~= stage_views(out@).push(stage@));
            assert(stages_from(views(parts@.take(i as int + 1))) =~= stages_from(
                views(parts@.take(i as int)),
            ).push(stage_of(parts@[i as int]@)));
            assert(stage_views(out@.push(stage)) =~= stages_from(views(parts@.take(i as int + 1))));
        }
        out.push(stage);
        i = i + 1;
    }
    proof {
        assert(parts@.take(parts@.len() as int) =~= parts@);
        assert(stage_views(out@) =~= stages_of(line@));
    }
    out
}

/// Where the execution of one line stands.
#[derive(Clone, Copy, Debug, PartialEq, Eq, Structural)]
pub enum Phase {
    /// Waiting for the lookup of the executable of stage `i`.
    Locating(usize),
    /// Waiting for stage `i` to be spawned.
    Spawning(usize),
    /// A stage failed; waiting for the report to be printed. The stages
    /// spawned before it are then waited on rather than left running.
    Failed,
    /// Waiting for every spawned process to be waited on.
    Waiting,
    /// Nothing more to do for this line.
    Done,
}

/// What the caller must do next.
#[derive(Debug)]
pub enum Action {
    /// The line is finished.
    Finish,
    /// Run the builtin with these arguments; the line is then finished.
    RunBuiltin(Builtin, Vec<String>),
    /// Look up the executable of this name on the search path.
    Locate(String),
    /// Spawn the executable at `path` with `args`; its standard input comes
    /// from the previous stage's pipe where `stdin_piped`, its standard output
    /// goes into a new pipe where `stdout_piped`, and is inherited otherwise.
    Spawn { path: String, args: Vec<String>, stdin_piped: bool, stdout_piped: bool },
    /// Print this failure.
    Report(ShellError),
    /// Wait on every spawned process, in spawn order; there are this many.
    WaitAll(usize),
}

/// What the caller observed when doing what was asked.
#[derive(Debug)]
pub enum Event {
    /// The executable was found at this path.
    Found(String),
    /// No executable of that name is on the search path.
    NotFound,
    /// The process was spawned.
    Spawned,
    /// The operating system refused to spawn it, for this reason.
    SpawnFailed(String),
    /// The failure was printed.
    Reported,
    /// Every spawned process was waited on.
    Waited,
}

pub enum ActionView {
    Finish,
    RunBuiltin(Builtin, Seq<Seq<char>>),
    Locate(Seq<char>),
    Spawn { path: Seq<char>, args: Seq<Seq<char>>, stdin_piped: bool, stdout_piped: bool },
    Report((ErrorKind, Seq<char>)),
    WaitAll(nat),
}

pub enum EventView {
    Found(Seq<char>),
    NotFound,
    Spawned,
    SpawnFailed(Seq<char>),
    Reported,
    Waited,
}

impl View for Action {
    type V = ActionView;

    open spec fn view(&self) -> ActionView {
        match self {
            Action::Finish => ActionView::Finish,
            Action::RunBuiltin(b, args) => ActionView::RunBuiltin(*b, views(args@)),
            Action::Locate(name) => ActionView::Locate(name@),
            Action::Spawn { path, args, stdin_piped, stdout_piped } => ActionView::Spawn {
                path: path@,
                args: views(args@),
                stdin_piped: *stdin_piped,
                stdout_piped: *stdout_piped,
            },
            Action::Report(e) => ActionView::Report(e@),
            Action::WaitAll(n) => ActionView::WaitAll(*n as nat),
        }
    }
}

impl View for Event {
    type V = EventView;

    open spec fn view(&self) -> EventView {
        match self {
            Event::Found(p) => EventView::Found(p@),
            Event::NotFound => EventView::NotFound,
            Event::Spawned => EventView::Spawned,
            Event::SpawnFailed(m) => EventView::SpawnFailed(m@),
            Event::Reported => EventView::Reported,
            Event::Waited => EventView::Waited,
        }
    }
}

/// The execution of one line's pipeline.
#[derive(Debug)]
pub struct Execution {
    pub stages: Vec<Stage>,
    pub phase: Phase,
    /// How many processes have been spawned so far.
    pub spawned: usize,
}

pub struct ExecView {
    pub stages: Seq<StageView>,
    pub phase: Phase,
    pub spawned: nat,
}

impl View for Execution {
    type V = ExecView;

    open spec fn view(&self) -> ExecView {
        ExecView { stages: stage_views(self.stages@), phase: self.phase, spawned: self.spawned as nat }
    }
}

/// The stage indices in the phase agree with the stages and with the number
/// of processes spawned, which is that of the stages before the current one.
pub open spec fn well_formed(st: ExecView) -> bool {
    &&& st.spawned <= st.stages.len()
    &&& match st.phase {
        Phase::Locating(i) => i < st.stages.len() && st.spawned == i,
        Phase::Spawning(i) => i < st.stages.len() && st.spawned == i,
        _ => true,
    }
}

/// Whether `e` answers what the execution in `st` last asked for.
pub open spec fn expects(st: ExecView, e: EventView) -> bool {
    match st.phase {
        Phase::Locating(_) => e is Found || e is NotFound,
        Phase::Spawning(_) => e is Spawned || e is SpawnFailed,
        Phase::Failed => e is Reported,
        Phase::Waiting => e is Waited,
        Phase::Done => false,
    }
}

/// Moves on to stage `i`: a stage without a command name is an unknown
/// command; any other is looked up as an external executable.
pub open spec fn locate_stage(st: ExecView, i: nat) -> (ExecView, ActionView) {
    let cmd = st.stages[i as int].command;
    if cmd.len() == 0 {
        (ExecView { phase: Phase::Failed, ..st }, ActionView::Report((ErrorKind::UnknownCommand, cmd)))
    } else {
        (ExecView { phase: Phase::Locating(i as usize), ..st }, ActionView::Locate(cmd))
    }
}

/// The first step for a line with these stages: nothing for no stage; the
/// builtin for a single stage that names one; otherwise the lookup of the
/// first stage as an external executable, builtin name or not.
pub open spec fn begin_spec(stages: Seq<StageView>) -> (ExecView, ActionView) {
    let st = ExecView { stages, phase: Phase::Done, spawned: 0 };
    if stages.len() == 0 {
        (st, ActionView::Finish)
    } else if stages.len() == 1 && builtin_named(stages[0].command) is Some {
        (st, ActionView::RunBuiltin(builtin_named(stages[0].command)->Some_0, stages[0].args))
    } else {
        locate_stage(st, 0)
    }
}

/// One step of the execution in `st` on the event `e`.
pub open spec fn advance_spec(st: ExecView, e: EventView) -> (ExecView, ActionView) {
    match st.phase {
        Phase::Locating(i) => match e {
            EventView::Found(path) => (
                ExecView { phase: Phase::Spawning(i), ..st },
                ActionView::Spawn {
                    path,
                    args: st.stages[i as int].args,
                    stdin_piped: i > 0,
                    stdout_piped: i + 1 < st.stages.len(),
                },
            ),
            _ => (
                ExecView { phase: Phase::Failed, ..st },
                ActionView::Report((ErrorKind::UnknownCommand, st.stages[i as int].command)),
            ),
        },
        Phase::Spawning(i) => match e {
            EventView::SpawnFailed(cause) => (
                ExecView { phase: Phase::Failed, ..st },
                ActionView::Report((ErrorKind::SpawnFailure, cause)),
            ),
            _ => {
                let next = ExecView { spawned: (i + 1) as nat, ..st };
                if i + 1 < st.stages.len() {
                    locate_stage(next, (i + 1) as nat)
                } else {
                    (ExecView { phase: Phase::Waiting, ..next }, ActionView::WaitAll((i + 1) as nat))
                }
            },
        },
        Phase::Failed => (ExecView { phase: Phase::Waiting, ..st }, ActionView::WaitAll(st.spawned)),
        _ => (ExecView { phase: Phase::Done, ..st }, ActionView::Finish),
    }
}

fn clone_strings(v: &Vec<String>) -> (r: Vec<String>)
    ensures
        r@ == v@,
{
    let mut out: Vec<String> = Vec::new();
    let mut i: usize = 0;
    while i < v.len()
        invariant
            i <= v@.len(),
            out@ == v@.take(i as int),
        decreases v@.len() - i,
    {
        out.push(v[i].clone());
        i = i + 1;
        proof {
            assert(out@ =~= v@.take(i as int));
        }
    }
    proof {
        assert(v@.take(v@.len() as int) =~= v@);
    }
    out
}

impl Execution {
    pub open spec fn wf(&self) -> bool {
        well_formed(self@)
    }

    fn locate(&mut self, i: usize) -> (r: Action)
        requires
            i < old(self).stages@.len(),
        ensures
            final(self).stages == old(self).stages,
            (final(self)@, r@) == locate_stage(old(self)@, i as nat),
    {
        let cmd = self.stages[i].command.clone();
        if cmd.unicode_len() == 0 {
            self.phase = Phase::Failed;
            Action::Report(ShellError::new(ErrorKind::UnknownCommand, cmd))
        } else {
            self.phase = Phase::Locating(i);
            Action::Locate(cmd)
        }
    }

    /// Starts the execution of a line's stages and says what to do first.
    pub fn start(stages: Vec<Stage>) -> (r: (Execution, Action))
        ensures
            r.0.wf(),
            (r.0@, r.1@) == begin_spec(stage_views(stages@)),
    {
        let mut ex = Execution { stages, phase: Phase::Done, spawned: 0 };
        if ex.stages.len() == 0 {
            return (ex, Action::Finish);
        }
        if ex.stages.len() == 1 {
            match lookup_builtin(ex.stages[0].command.as_str()) {
                Some(b) => {
                    let args = clone_strings(&ex.stages[0].args);
                    return (ex, Action::RunBuiltin(b, args));
                },
                None => {},
            }
        }
        let a = ex.locate(0);
        (ex, a)
    }

    /// Whether `e` answers what this execution last asked for.
    pub fn accepts(&self, e: &Event) -> (r: bool)
        ensures
            r == expects(self@, e@),
    {
        match self.phase {
            Phase::Locating(_) => matches!(e, Event::Found(_) | Event::NotFound),
            Phase::Spawning(_) => matches!(e, Event::Spawned | Event::SpawnFailed(_)),
            Phase::Failed => matches!(e, Event::Reported),
            Phase::Waiting => matches!(e, Event::Waited),
            Phase::Done => false,
        }
    }

    /// Takes in what the caller observed and says what to do next.
    pub fn advance(&mut self, e: Event) -> (r: Action)
        requires
            old(self).wf(),
            expects(old(self)@, e@),
        ensures
            final(self).wf(),
            (final(self)@, r@) == advance_spec(old(self)@, e@),
    {
        match self.phase {
            Phase::Locating(i) => match e {
                Event::Found(path) => {
                    self.phase = Phase::Spawning(i);
                    let args = clone_strings(&self.stages[i].args);
                    let n = self.stages.len();
                    Action::Spawn { path, args, stdin_piped: i > 0, stdout_piped: i + 1 < n }
                },
                _ => {
                    self.phase = Phase::Failed;
                    let cmd = self.stages[i].command.clone();
                    Action::Report(ShellError::new(ErrorKind::UnknownCommand, cmd))
                },
            },
            Phase::Spawning(i) => match e {
                Event::SpawnFailed(cause) => {
                    self.phase = Phase::Failed;
                    Action::Report(ShellError::new(ErrorKind::SpawnFailure, cause))
                },
                _ => {
                    let n = self.stages.len();
                    assert(i < n);
                    self.spawned = i + 1;
                    if i + 1 < n {
                        self.locate(i + 1)
                    } else {
                        self.phase = Phase::Waiting;
                        Action::WaitAll(i + 1)
                    }
                },
            },
            Phase::Failed => {
                self.phase = Phase::Waiting;
                Action::WaitAll(self.spawned)
            },
            _ => {
                self.phase = Phase::Done;
                Action::Finish
            },
        }
    }
}

/// Parses a line and starts its execution.
pub fn handle_command(command: &str) -> (r: (Execution, Action))
    ensures
        r.0.wf(),
        (r.0@, r.1@) == begin_spec(stages_of(command@)),
{
    Execution::start(parse_line(command))
}

} // verus!
