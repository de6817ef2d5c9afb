//! Properties of path resolution and of pipeline execution, proved from the
//! same spec functions that the executable contracts use.
use vstd::prelude::*;
use crate::builtin::builtin_named;
use crate::path::{expanded, join_path, settled, tilde_path};
use crate::pipeline::{
    advance_spec, begin_spec, stages_of, ActionView, EventView, ExecView, Phase,
};

verus! {

/// A path that starts with `~` expands to the home directory followed by
/// the rest of the path, whatever the working directory.
pub proof fn lemma_tilde_ignores_cwd(p: Seq<char>, cwd1: Seq<char>, cwd2: Seq<char>, home: Seq<char>)
    requires
        p.len() > 0,
        p[0] == '~',
    ensures
        expanded(p, cwd1, home) == expanded(p, cwd2, home),
        expanded(p, cwd1, home) == tilde_path(home, p.drop_first()),
        !(home.len() > 0 && home.last() == '/') ==> expanded(p, cwd1, home) == home
            + p.drop_first(),
{
}

/// A relative path, neither absolute nor starting with `~`, resolves to the
/// working directory joined with it, canonicalized where the file system
/// can; the home directory plays no part.
pub proof fn lemma_relative_joins_cwd(
    p: Seq<char>,
    cwd: Seq<char>,
    home: Seq<char>,
    canonical: Option<Seq<char>>,
)
    requires
        !(p.len() > 0 && (p[0] == '~' || p[0] == '/')),
    ensures
        expanded(p, cwd, home) == join_path(cwd, p),
        settled(expanded(p, cwd, home), canonical) == settled(join_path(cwd, p), canonical),
        cwd.len() > 0 && cwd.last() != '/' ==> expanded(p, cwd, home) == cwd + seq!['/'] + p,
{
}

/// Resolution always yields a path: the canonical one where there is one,
/// and otherwise the expanded path as it stands.
pub proof fn lemma_resolution_falls_back(raw: Seq<char>, cwd: Seq<char>, home: Seq<char>, canonical: Option<Seq<char>>)
    ensures
        canonical is None ==> settled(expanded(raw, cwd, home), canonical) == expanded(raw, cwd, home),
        canonical is Some ==> settled(expanded(raw, cwd, home), canonical) == canonical->Some_0,
{
}

/// The execution in `st` driven by `events`, in order: where it ends, and
/// what it asked for at each step.
pub open spec fn run(st: ExecView, events: Seq<EventView>) -> (ExecView, Seq<ActionView>)
    decreases events.len(),
{
    if events.len() == 0 {
        (st, seq![])
    } else {
        let (next, a) = advance_spec(st, events[0]);
        let (last, rest) = run(next, events.drop_first());
        (last, seq![a] + rest)
    }
}

proof fn lemma_done_stays_done(st: ExecView, events: Seq<EventView>)
    requires
        st.phase == Phase::Done,
    ensures
        run(st, events).0.phase == Phase::Done,
        forall|k: int| 0 <= k < run(st, events).1.len() ==> run(st, events).1[k] is Finish,
    decreases events.len(),
{
    if events.len() > 0 {
        let next = advance_spec(st, events[0]).0;
        lemma_done_stays_done(next, events.drop_first());
        let acts = run(st, events).1;
        assert forall|k: int| 0 <= k < acts.len() implies acts[k] is Finish by {
            if k > 0 {
                assert(acts[k] == run(next, events.drop_first()).1[k - 1]);
            }
        }
    }
}

/// A line of one stage that names a builtin runs the builtin and is then
/// finished: no event makes it look up or spawn any process.
pub proof fn lemma_single_builtin_never_spawns(line: Seq<char>, events: Seq<EventView>)
    requires
        stages_of(line).len() == 1,
        builtin_named(stages_of(line)[0].command) is Some,
    ensures
        begin_spec(stages_of(line)).1 == ActionView::RunBuiltin(
            builtin_named(stages_of(line)[0].command)->Some_0,
            stages_of(line)[0].args,
        ),
        begin_spec(stages_of(line)).0.phase == Phase::Done,
        forall|k: int|
            0 <= k < run(begin_spec(stages_of(line)).0, events).1.len() ==> !(run(
                begin_spec(stages_of(line)).0,
                events,
            ).1[k] is Spawn),
{
    lemma_done_stays_done(begin_spec(stages_of(line)).0, events);
}

/// In a line of two or more stages every stage is looked up as an external
/// executable, even one whose name is a builtin's: the first step is the
/// lookup of the first stage, and no step ever runs a builtin.
pub proof fn lemma_pipeline_stages_are_external(line: Seq<char>, st: ExecView, e: EventView)
    requires
        stages_of(line).len() >= 2,
        stages_of(line)[0].command.len() > 0,
    ensures
        begin_spec(stages_of(line)).1 == ActionView::Locate(stages_of(line)[0].command),
        begin_spec(stages_of(line)).0.phase == Phase::Locating(0),
        !(advance_spec(st, e).1 is RunBuiltin),
{
}

/// A line ends only after the processes it spawned are waited on: the
/// execution finishes only from waiting, and it starts waiting by asking to
/// wait on as many processes as were spawned.
pub proof fn lemma_finishes_after_waiting(st: ExecView, e: EventView)
    ensures
        st.phase != Phase::Done && advance_spec(st, e).0.phase == Phase::Done ==> st.phase
            == Phase::Waiting,
        st.phase != Phase::Waiting && advance_spec(st, e).0.phase == Phase::Waiting
            ==> advance_spec(st, e).1 == ActionView::WaitAll(advance_spec(st, e).0.spawned),
{
}

/// In a two-stage line whose stages are both found and spawned, the first
/// stage's output goes into a pipe, the second reads from it and writes to
/// the inherited output, and the line finishes only after both processes
/// are waited on.
pub proof fn lemma_two_stage_pipeline(line: Seq<char>, p0: Seq<char>, p1: Seq<char>)
    requires
        stages_of(line).len() == 2,
        stages_of(line)[0].command.len() > 0,
        stages_of(line)[1].command.len() > 0,
    ensures
        ({
            let s = stages_of(line);
            let (st, first) = begin_spec(s);
            let (end, acts) = run(
                st,
                seq![
                    EventView::Found(p0),
                    EventView::Spawned,
                    EventView::Found(p1),
                    EventView::Spawned,
                    EventView::Waited,
                ],
            );
            &&& first == ActionView::Locate(s[0].command)
            &&& acts == seq![
                ActionView::Spawn {
                    path: p0,
                    args: s[0].args,
                    stdin_piped: false,
                    stdout_piped: true,
                },
                ActionView::Locate(s[1].command),
                ActionView::Spawn {
                    path: p1,
                    args: s[1].args,
                    stdin_piped: true,
                    stdout_piped: false,
                },
                ActionView::WaitAll(2),
                ActionView::Finish,
            ]
            &&& end.phase == Phase::Done
            &&& end.spawned == 2
        }),
{
    reveal_with_fuel(run, 6);
    let s = stages_of(line);
    let (st, first) = begin_spec(s);
    let evs = seq![
        EventView::Found(p0),
        EventView::Spawned,
        EventView::Found(p1),
        EventView::Spawned,
        EventView::Waited,
    ];
    let (s1, a1) = advance_spec(st, evs[0]);
    let (s2, a2) = advance_spec(s1, evs[1]);
    let (s3, a3) = advance_spec(s2, evs[2]);
    let (s4, a4) = advance_spec(s3, evs[3]);
    let (s5, a5) = advance_spec(s4, evs[4]);
    assert(evs.drop_first() =~= seq![evs[1], evs[2], evs[3], evs[4]]);
    assert(evs.drop_first().drop_first() =~= seq![evs[2], evs[3], evs[4]]);
    assert(evs.drop_first().drop_first().drop_first() =~= seq![evs[3], evs[4]]);
    assert(evs.drop_first().drop_first().drop_first().drop_first() =~= seq![evs[4]]);
    assert(evs.drop_first().drop_first().drop_first().drop_first().drop_first() =~= Seq::<
        EventView,
    >::empty());
    assert(run(st, evs).1 =~= seq![a1, a2, a3, a4, a5]);
}

} // verus!
