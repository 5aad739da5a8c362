use vstd::prelude::*;

use crate::launch::{LaunchPlan, LaunchPlanView, plan_launch, plan_spec, server_dir, server_dir_spec};
use crate::message::{
    LogLevel, LogLine, LogLineView, failed_line, failed_text, show_path, shown_path, started_line,
    started_text, starting_line, starting_text,
};
use crate::mode::{DeploymentMode, log_filter, log_filter_spec};

verus! {

/// Where the start-up of the application stands.
#[derive(Clone, Copy, Debug, PartialEq, Eq, Structural)]
pub enum Phase {
    /// Nothing has been done yet.
    Idle,
    /// The log sink is being attached.
    AttachingLogging,
    /// The working directory is being looked up.
    ResolvingDir,
    /// The server process is being spawned.
    Spawning,
    /// The server was spawned and left to run; the shell may start.
    Ready,
    /// A step failed; the application does not start.
    Failed,
}

/// What the outside world reports back to the start-up.
#[derive(Clone, Debug)]
pub enum Event {
    /// Start-up begins.
    Begin,
    /// The log sink was attached.
    LoggingAttached,
    /// The log sink could not be attached, for the reason given.
    LoggingFailed(String),
    /// The working directory is the one given.
    WorkingDir(String),
    /// The working directory could not be determined, for the reason given.
    WorkingDirFailed(String),
    /// The server process was spawned with the given process identifier.
    Spawned(u32),
    /// The server process could not be spawned, for the reason given.
    SpawnFailed(String),
}

pub enum EventView {
    Begin,
    LoggingAttached,
    LoggingFailed(Seq<char>),
    WorkingDir(Seq<char>),
    WorkingDirFailed(Seq<char>),
    Spawned(u32),
    SpawnFailed(Seq<char>),
}

impl View for Event {
    type V = EventView;

    open spec fn view(&self) -> EventView {
        match self {
            Event::Begin => EventView::Begin,
            Event::LoggingAttached => EventView::LoggingAttached,
            Event::LoggingFailed(e) => EventView::LoggingFailed(e@),
            Event::WorkingDir(d) => EventView::WorkingDir(d@),
            Event::WorkingDirFailed(e) => EventView::WorkingDirFailed(e@),
            Event::Spawned(pid) => EventView::Spawned(*pid),
            Event::SpawnFailed(e) => EventView::SpawnFailed(e@),
        }
    }
}

/// What the start-up asks of the outside world next.
#[derive(Clone, Debug)]
pub enum Action {
    /// Attach a log sink that records lines of the given level and above.
    AttachLogging(LogLevel),
    /// Look up the working directory.
    ResolveWorkingDir,
    /// Spawn the server as planned, without waiting for it.
    Spawn(LaunchPlan),
    /// Give up all control of the spawned server and let the shell run.
    Proceed,
    /// Abandon start-up with the given reason.
    Abort(String),
    /// The event did not fit the phase: nothing to do.
    Nothing,
}

pub enum ActionView {
    AttachLogging(LogLevel),
    ResolveWorkingDir,
    Spawn(LaunchPlanView),
    Proceed,
    Abort(Seq<char>),
    Nothing,
}

impl View for Action {
    type V = ActionView;

    open spec fn view(&self) -> ActionView {
        match self {
            Action::AttachLogging(l) => ActionView::AttachLogging(*l),
            Action::ResolveWorkingDir => ActionView::ResolveWorkingDir,
            Action::Spawn(p) => ActionView::Spawn(p@),
            Action::Proceed => ActionView::Proceed,
            Action::Abort(e) => ActionView::Abort(e@),
            Action::Nothing => ActionView::Nothing,
        }
    }
}

/// The answer to one event: lines to log, in order, then one action.
#[derive(Clone, Debug)]
pub struct Directive {
    pub logs: Vec<LogLine>,
    pub action: Action,
}

pub struct DirectiveView {
    pub logs: Seq<LogLineView>,
    pub action: ActionView,
}

impl View for Directive {
    type V = DirectiveView;

    open spec fn view(&self) -> DirectiveView {
        DirectiveView { logs: self.logs@.map_values(|l: LogLine| l@), action: self.action@ }
    }
}

pub open spec fn directive(logs: Seq<LogLineView>, action: ActionView) -> DirectiveView {
    DirectiveView { logs, action }
}

pub open spec fn info(text: Seq<char>) -> LogLineView {
    LogLineView { level: LogLevel::Info, text }
}

pub open spec fn error(text: Seq<char>) -> LogLineView {
    LogLineView { level: LogLevel::Error, text }
}

/// The phase after an event, and what is to be logged and done.
pub open spec fn step_spec(mode: DeploymentMode, phase: Phase, ev: EventView) -> (Phase, DirectiveView) {
    match (phase, ev) {
        (Phase::Idle, EventView::Begin) => match log_filter_spec(mode) {
            Some(level) => (Phase::AttachingLogging, directive(seq![], ActionView::AttachLogging(level))),
            None => (Phase::ResolvingDir, directive(seq![], ActionView::ResolveWorkingDir)),
        },
        (Phase::AttachingLogging, EventView::LoggingAttached) =>
            (Phase::ResolvingDir, directive(seq![], ActionView::ResolveWorkingDir)),
        (Phase::AttachingLogging, EventView::LoggingFailed(e)) =>
            (Phase::Failed, directive(seq![], ActionView::Abort(e))),
        (Phase::ResolvingDir, EventView::WorkingDir(d)) => (
            Phase::Spawning,
            directive(
                seq![info(starting_text(shown_path(server_dir_spec(d))))],
                ActionView::Spawn(plan_spec(d, mode)),
            ),
        ),
        (Phase::ResolvingDir, EventView::WorkingDirFailed(e)) =>
            (Phase::Failed, directive(seq![], ActionView::Abort(e))),
        (Phase::Spawning, EventView::Spawned(pid)) =>
            (Phase::Ready, directive(seq![info(started_text(pid))], ActionView::Proceed)),
        (Phase::Spawning, EventView::SpawnFailed(e)) =>
            (Phase::Failed, directive(seq![error(failed_text(e))], ActionView::Abort(e))),
        _ => (phase, directive(seq![], ActionView::Nothing)),
    }
}

/// The start-up of the application: attach logging in debug builds, look up
/// the working directory, spawn the web server there and leave it running.
/// Any failure ends the start-up; nothing is retried.
#[derive(Clone, Copy, Debug)]
pub struct Setup {
    pub mode: DeploymentMode,
    pub phase: Phase,
}

impl Setup {
    /// A start-up that has done nothing yet.
    pub fn new(mode: DeploymentMode) -> (r: Setup)
        ensures
            r.mode == mode,
            r.phase == Phase::Idle,
    {
        Setup { mode, phase: Phase::Idle }
    }

    /// Takes one event, moves to the next phase, and says what to log and do.
    pub fn step(&mut self, ev: Event) -> (r: Directive)
        ensures
            final(self).mode == old(self).mode,
            final(self).phase == step_spec(old(self).mode, old(self).phase, ev@).0,
            r@ == step_spec(old(self).mode, old(self).phase, ev@).1,
    {
        let mut logs: Vec<LogLine> = Vec::new();
        let action = match (self.phase, ev) {
            (Phase::Idle, Event::Begin) => match log_filter(self.mode) {
                Some(level) => {
                    self.phase = Phase::AttachingLogging;
                    Action::AttachLogging(level)
                },
                None => {
                    self.phase = Phase::ResolvingDir;
                    Action::ResolveWorkingDir
                },
            },
            (Phase::AttachingLogging, Event::LoggingAttached) => {
                self.phase = Phase::ResolvingDir;
                Action::ResolveWorkingDir
            },
            (Phase::AttachingLogging, Event::LoggingFailed(e)) => {
                self.phase = Phase::Failed;
                Action::Abort(e)
            },
            (Phase::ResolvingDir, Event::WorkingDir(d)) => {
                let target = server_dir(d.as_str());
                let shown = show_path(target.as_str());
                logs.push(starting_line(shown.as_str()));
                self.phase = Phase::Spawning;
                Action::Spawn(plan_launch(d.as_str(), self.mode))
            },
            (Phase::ResolvingDir, Event::WorkingDirFailed(e)) => {
                self.phase = Phase::Failed;
                Action::Abort(e)
            },
            (Phase::Spawning, Event::Spawned(pid)) => {
                logs.push(started_line(pid));
                self.phase = Phase::Ready;
                Action::Proceed
            },
            (Phase::Spawning, Event::SpawnFailed(e)) => {
                logs.push(failed_line(e.as_str()));
                self.phase = Phase::Failed;
                Action::Abort(e)
            },
            _ => Action::Nothing,
        };
        let r = Directive { logs, action };
        assert(r@.logs =~= step_spec(old(self).mode, old(self).phase, ev@).1.logs);
        r
    }
}

} // verus!
