use vstd::prelude::*;

use crate::launch::plan_spec;
use crate::message::{decimal_spec, failed_text, started_text};
use crate::mode::{DeploymentMode, log_filter_spec};
use crate::setup::{ActionView, EventView, Phase, directive, error, info, step_spec};

verus! {

/// The phase after a series of events, and the action answered to each.
pub open spec fn run_spec(mode: DeploymentMode, phase: Phase, events: Seq<EventView>) -> (Phase, Seq<ActionView>)
    decreases events.len(),
{
    if events.len() == 0 {
        (phase, seq![])
    } else {
        let first = step_spec(mode, phase, events[0]);
        let rest = run_spec(mode, first.0, events.drop_first());
        (rest.0, seq![first.1.action] + rest.1)
    }
}

/// How many of the actions spawn a process.
pub open spec fn spawn_count(actions: Seq<ActionView>) -> nat
    decreases actions.len(),
{
    if actions.len() == 0 {
        0
    } else {
        (if actions[0] is Spawn { 1nat } else { 0nat }) + spawn_count(actions.drop_first())
    }
}

/// The events of a start-up that goes well up to the spawn, with `dir` as the
/// working directory.
pub open spec fn launch_events(mode: DeploymentMode, dir: Seq<char>) -> Seq<EventView> {
    match log_filter_spec(mode) {
        Some(_) => seq![EventView::Begin, EventView::LoggingAttached, EventView::WorkingDir(dir)],
        None => seq![EventView::Begin, EventView::WorkingDir(dir)],
    }
}

/// A spawn that succeeds logs the process identifier, in decimal, at
/// informational level, and start-up goes on.
pub proof fn lemma_spawn_success_logs_pid(mode: DeploymentMode, pid: u32)
    ensures
        step_spec(mode, Phase::Spawning, EventView::Spawned(pid)) == (
            Phase::Ready,
            directive(seq![info(started_text(pid))], ActionView::Proceed),
        ),
        started_text(pid) == "Web server started with PID: "@ + decimal_spec(pid as nat),
        decimal_spec(pid as nat).len() > 0,
{
    reveal_with_fuel(decimal_spec, 1);
}

/// A spawn that fails logs one error line that ends with the error's text, and
/// start-up fails with that error.
pub proof fn lemma_spawn_failure_logs_error(mode: DeploymentMode, e: Seq<char>)
    ensures
        step_spec(mode, Phase::Spawning, EventView::SpawnFailed(e)) == (
            Phase::Failed,
            directive(seq![error(failed_text(e))], ActionView::Abort(e)),
        ),
        failed_text(e).subrange(failed_text(e).len() - e.len(), failed_text(e).len() as int) == e,
{
    let t = failed_text(e);
    assert(t.subrange(t.len() - e.len(), t.len() as int) =~= e);
}

proof fn lemma_failed_stays_idle(mode: DeploymentMode, events: Seq<EventView>)
    ensures
        run_spec(mode, Phase::Failed, events).0 == Phase::Failed,
        spawn_count(run_spec(mode, Phase::Failed, events).1) == 0,
    decreases events.len(),
{
    if events.len() > 0 {
        lemma_failed_stays_idle(mode, events.drop_first());
        let acts = run_spec(mode, Phase::Failed, events).1;
        assert(acts.drop_first() =~= run_spec(mode, Phase::Failed, events.drop_first()).1);
    }
}

/// Where the working directory cannot be determined, start-up fails before any
/// process is spawned: whatever events follow, nothing is spawned.
pub proof fn lemma_unresolved_dir_spawns_nothing(mode: DeploymentMode, e: Seq<char>, later: Seq<EventView>)
    ensures
        run_spec(mode, Phase::ResolvingDir, seq![EventView::WorkingDirFailed(e)] + later).0 == Phase::Failed,
        spawn_count(run_spec(mode, Phase::ResolvingDir, seq![EventView::WorkingDirFailed(e)] + later).1) == 0,
{
    let events = seq![EventView::WorkingDirFailed(e)] + later;
    assert(events.drop_first() =~= later);
    lemma_failed_stays_idle(mode, later);
    let acts = run_spec(mode, Phase::ResolvingDir, events).1;
    assert(acts.drop_first() =~= run_spec(mode, Phase::Failed, later).1);
}

/// Start-up keeps no record of earlier launches: every fresh start-up that is
/// handed the same events spawns the server once more, with the same plan, so
/// launching twice starts two servers.
pub proof fn lemma_each_launch_spawns(mode: DeploymentMode, dir: Seq<char>)
    ensures
        run_spec(mode, Phase::Idle, launch_events(mode, dir)).0 == Phase::Spawning,
        run_spec(mode, Phase::Idle, launch_events(mode, dir)).1.last() == ActionView::Spawn(
            plan_spec(dir, mode),
        ),
        spawn_count(run_spec(mode, Phase::Idle, launch_events(mode, dir)).1) == 1,
        spawn_count(run_spec(mode, Phase::Idle, launch_events(mode, dir)).1) + spawn_count(
            run_spec(mode, Phase::Idle, launch_events(mode, dir)).1,
        ) == 2,
{
    let events = launch_events(mode, dir);
    reveal_with_fuel(run_spec, 4);
    reveal_with_fuel(spawn_count, 4);
    let acts = run_spec(mode, Phase::Idle, events).1;
    match mode {
        DeploymentMode::Debug => {
            assert(events.drop_first() =~= seq![EventView::LoggingAttached, EventView::WorkingDir(dir)]);
            assert(events.drop_first().drop_first() =~= seq![EventView::WorkingDir(dir)]);
            assert(events.drop_first().drop_first().drop_first() =~= seq![]);
            assert(acts.drop_first() =~= run_spec(mode, Phase::AttachingLogging, events.drop_first()).1);
            assert(acts.drop_first().drop_first() =~= run_spec(mode, Phase::ResolvingDir, events.drop_first().drop_first()).1);
            assert(acts.drop_first().drop_first().drop_first() =~= seq![]);
        },
        DeploymentMode::Release => {
            assert(events.drop_first() =~= seq![EventView::WorkingDir(dir)]);
            assert(events.drop_first().drop_first() =~= seq![]);
            assert(acts.drop_first() =~= run_spec(mode, Phase::ResolvingDir, events.drop_first()).1);
            assert(acts.drop_first().drop_first() =~= seq![]);
        },
    }
}

} // verus!
