//! The supervisor's decisions: when to build, when to (re)start the server,
//! how to treat a server that exits, and when to stop. The event loop that
//! performs the actions feeds the outcomes back as events.
use vstd::prelude::*;

use crate::error::Error;

verus! {

/// Where the supervisor stands.
#[derive(Debug, Clone, Copy, PartialEq, Eq, Structural)]
pub enum SupervisorPhase {
    /// The initial build is running.
    Starting,
    /// The initial build failed under `--eager-start`; a previously-built
    /// binary is being looked for.
    LocatingStale,
    /// A server is being started; `initial` tells that it is the first one,
    /// whose failure to start is fatal.
    Launching { initial: bool },
    /// Waiting for a file change or a server exit.
    Watching,
    /// A rebuild is running.
    Building,
    /// Shut down or aborted; nothing more happens.
    Stopped,
}

/// The supervisor's state: its phase, the id of the server it runs (if any),
/// and whether an initial build failure may fall back to a stale binary.
#[derive(Debug, Clone, Copy, PartialEq, Eq, Structural)]
pub struct Supervisor {
    pub phase: SupervisorPhase,
    pub current: Option<u64>,
    pub eager_start: bool,
}

/// What the event loop reports.
#[derive(Debug)]
pub enum SupervisorEvent {
    BuildSucceeded { binary: String },
    BuildFailed { error: Error },
    /// The outcome of looking for a previously-built binary.
    StaleBinary { found: Option<String> },
    FileChanged,
    ServerStarted { id: u64 },
    ServerStartFailed { error: Error },
    /// The server with this id exited, on its own or after being stopped.
    ServerExited { id: u64 },
    ShutdownRequested,
}

/// What the supervisor asks the event loop to do.
#[derive(Debug)]
pub enum SupervisorAction {
    /// Start a build.
    Build,
    /// Cancel the running build and start a fresh one.
    RestartBuild,
    /// Stop the server `replacing` (if any), then start `binary`.
    StartServer { binary: String, replacing: Option<u64> },
    /// The build failed: report it and keep the current server running.
    KeepServer { error: Error },
    /// Look for a previously-built binary to serve.
    LocateStaleBinary { error: Error },
    /// No binary to serve yet: wait for the first good build.
    WaitForBuild,
    /// The running server exited on its own.
    ReportCrash { id: u64 },
    /// A server that was already replaced or stopped exited: expected.
    IgnoreExit { id: u64 },
    /// A restart failed; keep watching so the next good build retries.
    ReportStartFailure { error: Error },
    /// Stop the server `stop` (if any) and end.
    Shutdown { stop: Option<u64> },
    /// A fatal startup error: end with it.
    Abort { error: Error },
    Nothing,
}

/// The state before anything happened: the initial build is running.
pub open spec fn spec_initial(eager_start: bool) -> Supervisor {
    Supervisor { phase: SupervisorPhase::Starting, current: None, eager_start }
}

/// Phases in which a rebuild may start: the watch loop is running.
pub open spec fn is_watching(phase: SupervisorPhase) -> bool {
    phase == SupervisorPhase::Watching || phase == SupervisorPhase::Building
}

/// How a server exit is treated while watching: the running server's own
/// exit is a crash and leaves no server; any other id is an old server.
pub open spec fn spec_exit(s: Supervisor, id: u64) -> (Supervisor, SupervisorAction) {
    if s.current == Some(id) {
        (Supervisor { current: None, ..s }, SupervisorAction::ReportCrash { id })
    } else {
        (s, SupervisorAction::IgnoreExit { id })
    }
}

/// One step of the supervisor.
pub open spec fn spec_step(s: Supervisor, e: SupervisorEvent) -> (Supervisor, SupervisorAction) {
    match s.phase {
        SupervisorPhase::Stopped => (s, SupervisorAction::Nothing),
        SupervisorPhase::Starting => match e {
            SupervisorEvent::BuildSucceeded { binary } => (
                Supervisor { phase: SupervisorPhase::Launching { initial: true }, ..s },
                SupervisorAction::StartServer { binary, replacing: None },
            ),
            SupervisorEvent::BuildFailed { error } => if s.eager_start {
                (
                    Supervisor { phase: SupervisorPhase::LocatingStale, ..s },
                    SupervisorAction::LocateStaleBinary { error },
                )
            } else {
                (
                    Supervisor { phase: SupervisorPhase::Stopped, ..s },
                    SupervisorAction::Abort { error },
                )
            },
            SupervisorEvent::ShutdownRequested => (
                Supervisor { phase: SupervisorPhase::Stopped, ..s },
                SupervisorAction::Shutdown { stop: None },
            ),
            _ => (s, SupervisorAction::Nothing),
        },
        SupervisorPhase::LocatingStale => match e {
            SupervisorEvent::StaleBinary { found } => match found {
                Some(b) => (
                    Supervisor { phase: SupervisorPhase::Launching { initial: true }, ..s },
                    SupervisorAction::StartServer { binary: b, replacing: None },
                ),
                None => (
                    Supervisor { phase: SupervisorPhase::Watching, ..s },
                    SupervisorAction::WaitForBuild,
                ),
            },
            SupervisorEvent::ShutdownRequested => (
                Supervisor { phase: SupervisorPhase::Stopped, ..s },
                SupervisorAction::Shutdown { stop: None },
            ),
            _ => (s, SupervisorAction::Nothing),
        },
        SupervisorPhase::Launching { initial } => match e {
            SupervisorEvent::ServerStarted { id } => (
                Supervisor { phase: SupervisorPhase::Watching, current: Some(id), ..s },
                SupervisorAction::Nothing,
            ),
            SupervisorEvent::ServerStartFailed { error } => if initial {
                (
                    Supervisor { phase: SupervisorPhase::Stopped, current: None, ..s },
                    SupervisorAction::Abort { error },
                )
            } else {
                (
                    Supervisor { phase: SupervisorPhase::Watching, current: None, ..s },
                    SupervisorAction::ReportStartFailure { error },
                )
            },
            SupervisorEvent::ServerExited { id } => (s, SupervisorAction::IgnoreExit { id }),
            SupervisorEvent::ShutdownRequested => (
                Supervisor { phase: SupervisorPhase::Stopped, current: None, ..s },
                SupervisorAction::Shutdown { stop: None },
            ),
            _ => (s, SupervisorAction::Nothing),
        },
        SupervisorPhase::Watching => match e {
            SupervisorEvent::FileChanged => (
                Supervisor { phase: SupervisorPhase::Building, ..s },
                SupervisorAction::Build,
            ),
            SupervisorEvent::ServerExited { id } => spec_exit(s, id),
            SupervisorEvent::ShutdownRequested => (
                Supervisor { phase: SupervisorPhase::Stopped, current: None, ..s },
                SupervisorAction::Shutdown { stop: s.current },
            ),
            _ => (s, SupervisorAction::Nothing),
        },
        SupervisorPhase::Building => match e {
            SupervisorEvent::FileChanged => (s, SupervisorAction::RestartBuild),
            SupervisorEvent::BuildSucceeded { binary } => (
                Supervisor {
                    phase: SupervisorPhase::Launching { initial: false },
                    current: None,
                    ..s
                },
                SupervisorAction::StartServer { binary, replacing: s.current },
            ),
            SupervisorEvent::BuildFailed { error } => (
                Supervisor { phase: SupervisorPhase::Watching, ..s },
                SupervisorAction::KeepServer { error },
            ),
            SupervisorEvent::ServerExited { id } => spec_exit(s, id),
            SupervisorEvent::ShutdownRequested => (
                Supervisor { phase: SupervisorPhase::Stopped, current: None, ..s },
                SupervisorAction::Shutdown { stop: s.current },
            ),
            _ => (s, SupervisorAction::Nothing),
        },
    }
}

/// The supervisor's invariant: a server is tracked only while watching, and
/// never once stopped.
pub open spec fn well_formed(s: Supervisor) -> bool {
    s.current is Some ==> is_watching(s.phase)
}

impl Supervisor {
    /// The supervisor at startup, while the initial build runs.
    pub fn new(eager_start: bool) -> (r: Supervisor)
        ensures
            r == spec_initial(eager_start),
            well_formed(r),
    {
        Supervisor { phase: SupervisorPhase::Starting, current: None, eager_start }
    }

    /// Whether the supervisor has ended.
    pub fn is_stopped(&self) -> (r: bool)
        ensures
            r == (self.phase == SupervisorPhase::Stopped),
    {
        match self.phase {
            SupervisorPhase::Stopped => true,
            _ => false,
        }
    }

    /// Advances the supervisor by one event and returns the action to
    /// perform.
    pub fn step(&mut self, event: SupervisorEvent) -> (action: SupervisorAction)
        ensures
            (*final(self), action) == spec_step(*old(self), event),
    {
        let s = *self;
        match s.phase {
            SupervisorPhase::Stopped => SupervisorAction::Nothing,
            SupervisorPhase::Starting => match event {
                SupervisorEvent::BuildSucceeded { binary } => {
                    self.phase = SupervisorPhase::Launching { initial: true };
                    SupervisorAction::StartServer { binary, replacing: None }
                },
                SupervisorEvent::BuildFailed { error } => {
                    if s.eager_start {
                        self.phase = SupervisorPhase::LocatingStale;
                        SupervisorAction::LocateStaleBinary { error }
                    } else {
                        self.phase = SupervisorPhase::Stopped;
                        SupervisorAction::Abort { error }
                    }
                },
                SupervisorEvent::ShutdownRequested => {
                    self.phase = SupervisorPhase::Stopped;
                    SupervisorAction::Shutdown { stop: None }
                },
                _ => SupervisorAction::Nothing,
            },
            SupervisorPhase::LocatingStale => match event {
                SupervisorEvent::StaleBinary { found } => match found {
                    Some(b) => {
                        self.phase = SupervisorPhase::Launching { initial: true };
                        SupervisorAction::StartServer { binary: b, replacing: None }
                    },
                    None => {
                        self.phase = SupervisorPhase::Watching;
                        SupervisorAction::WaitForBuild
                    },
                },
                SupervisorEvent::ShutdownRequested => {
                    self.phase = SupervisorPhase::Stopped;
                    SupervisorAction::Shutdown { stop: None }
                },
                _ => SupervisorAction::Nothing,
            },
            SupervisorPhase::Launching { initial } => match event {
                SupervisorEvent::ServerStarted { id } => {
                    self.phase = SupervisorPhase::Watching;
                    self.current = Some(id);
                    SupervisorAction::Nothing
                },
                SupervisorEvent::ServerStartFailed { error } => {
                    self.current = None;
                    if initial {
                        self.phase = SupervisorPhase::Stopped;
                        SupervisorAction::Abort { error }
                    } else {
                        self.phase = SupervisorPhase::Watching;
                        SupervisorAction::ReportStartFailure { error }
                    }
                },
                SupervisorEvent::ServerExited { id } => SupervisorAction::IgnoreExit { id },
                SupervisorEvent::ShutdownRequested => {
                    self.phase = SupervisorPhase::Stopped;
                    self.current = None;
                    SupervisorAction::Shutdown { stop: None }
                },
                _ => SupervisorAction::Nothing,
            },
            SupervisorPhase::Watching => match event {
                SupervisorEvent::FileChanged => {
                    self.phase = SupervisorPhase::Building;
                    SupervisorAction::Build
                },
                SupervisorEvent::ServerExited { id } => self.server_exited(id),
                SupervisorEvent::ShutdownRequested => {
                    self.phase = SupervisorPhase::Stopped;
                    self.current = None;
                    SupervisorAction::Shutdown { stop: s.current }
                },
                _ => SupervisorAction::Nothing,
            },
            SupervisorPhase::Building => match event {
                SupervisorEvent::FileChanged => SupervisorAction::RestartBuild,
                SupervisorEvent::BuildSucceeded { binary } => {
                    self.phase = SupervisorPhase::Launching { initial: false };
                    self.current = None;
                    SupervisorAction::StartServer { binary, replacing: s.current }
                },
                SupervisorEvent::BuildFailed { error } => {
                    self.phase = SupervisorPhase::Watching;
                    SupervisorAction::KeepServer { error }
                },
                SupervisorEvent::ServerExited { id } => self.server_exited(id),
                SupervisorEvent::ShutdownRequested => {
                    self.phase = SupervisorPhase::Stopped;
                    self.current = None;
                    SupervisorAction::Shutdown { stop: s.current }
                },
                _ => SupervisorAction::Nothing,
            },
        }
    }

    fn server_exited(&mut self, id: u64) -> (action: SupervisorAction)
        ensures
            (*final(self), action) == spec_exit(*old(self), id),
    {
        match self.current {
            Some(c) => {
                if c == id {
                    self.current = None;
                    return SupervisorAction::ReportCrash { id };
                }
            },
            None => {},
        }
        SupervisorAction::IgnoreExit { id }
    }
}

/// The state after feeding `events` in order.
pub open spec fn run(s: Supervisor, events: Seq<SupervisorEvent>) -> Supervisor
    decreases events.len(),
{
    if events.len() == 0 {
        s
    } else {
        run(spec_step(s, events[0]).0, events.drop_first())
    }
}

/// Every step keeps the invariant: a tracked server implies a running watch
/// loop.
pub proof fn step_keeps_well_formed(s: Supervisor, e: SupervisorEvent)
    requires
        well_formed(s),
    ensures
        well_formed(spec_step(s, e).0),
{
}

/// A failed rebuild never takes the running server down: the supervisor
/// keeps the same server, returns to watching, and only reports the failure.
pub proof fn failed_build_keeps_server(s: Supervisor, error: Error)
    requires
        s.phase == SupervisorPhase::Building,
    ensures
        ({
            let (next, action) = spec_step(s, SupervisorEvent::BuildFailed { error });
            &&& next.current == s.current
            &&& next.phase == SupervisorPhase::Watching
            &&& action == SupervisorAction::KeepServer { error }
        }),
{
}

/// Edits that do not build never take the running server down: from a
/// watching supervisor, any run of file changes and failed builds keeps the
/// same server and stays in the watch loop.
pub proof fn broken_builds_keep_server(s: Supervisor, events: Seq<SupervisorEvent>)
    requires
        is_watching(s.phase),
        forall|i: int|
            0 <= i < events.len() ==> (#[trigger] events[i] is FileChanged || events[i] is BuildFailed),
    ensures
        run(s, events).current == s.current,
        is_watching(run(s, events).phase),
    decreases events.len(),
{
    if events.len() > 0 {
        let next = spec_step(s, events[0]).0;
        assert(next.current == s.current && is_watching(next.phase));
        assert forall|i: int| 0 <= i < events.drop_first().len() implies (
        #[trigger] events.drop_first()[i] is FileChanged || events.drop_first()[i] is BuildFailed) by {
            assert(events.drop_first()[i] == events[i + 1]);
        }
        broken_builds_keep_server(next, events.drop_first());
    }
}

/// The running server exiting on its own is reported and leaves no server,
/// while an old server's exit leaves the current one alone; the phase is
/// unchanged either way.
pub proof fn exit_detection(s: Supervisor, id: u64)
    requires
        is_watching(s.phase),
    ensures
        ({
            let (next, action) = spec_step(s, SupervisorEvent::ServerExited { id });
            &&& next.phase == s.phase
            &&& s.current == Some(id) ==> next.current is None
                && action == SupervisorAction::ReportCrash { id }
            &&& s.current != Some(id) ==> next == s && action == SupervisorAction::IgnoreExit { id }
        }),
{
}

/// A failed restart does not stop the supervisor: it keeps watching with no
/// server, and the next change starts a build that can bring one back.
pub proof fn failed_restart_keeps_watching(s: Supervisor, error: Error)
    requires
        (s.phase == SupervisorPhase::Launching { initial: false }),
    ensures
        ({
            let next = spec_step(s, SupervisorEvent::ServerStartFailed { error }).0;
            &&& next.phase == SupervisorPhase::Watching
            &&& next.current is None
            &&& spec_step(next, SupervisorEvent::FileChanged).1 == SupervisorAction::Build
        }),
{
}

/// A change during a build cancels it and starts a fresh one, without
/// touching the running server.
pub proof fn change_during_build_restarts_it(s: Supervisor)
    requires
        s.phase == SupervisorPhase::Building,
    ensures
        spec_step(s, SupervisorEvent::FileChanged).0 == s,
        spec_step(s, SupervisorEvent::FileChanged).1 == SupervisorAction::RestartBuild,
{
}

/// A successful rebuild replaces exactly the server that was running with the
/// new binary.
pub proof fn successful_build_restarts_server(s: Supervisor, binary: String)
    requires
        s.phase == SupervisorPhase::Building,
    ensures
        ({
            let (next, action) = spec_step(s, SupervisorEvent::BuildSucceeded { binary });
            &&& action == SupervisorAction::StartServer { binary, replacing: s.current }
            &&& next.phase == SupervisorPhase::Launching { initial: false }
        }),
{
}

/// Without `--eager-start` a failing initial build is fatal; with it, a
/// previously-built binary is looked for instead.
pub proof fn initial_build_failure(eager_start: bool, error: Error)
    ensures
        ({
            let (next, action) = spec_step(
                spec_initial(eager_start),
                SupervisorEvent::BuildFailed { error },
            );
            &&& !eager_start ==> next.phase == SupervisorPhase::Stopped
                && action == SupervisorAction::Abort { error }
            &&& eager_start ==> next.phase == SupervisorPhase::LocatingStale
                && action == SupervisorAction::LocateStaleBinary { error }
        }),
{
}

/// Under `--eager-start`, when no previously-built binary exists the
/// supervisor watches with no server, and the first successful build starts
/// one without anything to replace.
pub proof fn eager_start_waits_for_first_build(error: Error, binary: String)
    ensures
        ({
            let located = spec_step(spec_initial(true), SupervisorEvent::BuildFailed { error }).0;
            let waiting = spec_step(located, SupervisorEvent::StaleBinary { found: None });
            let building = spec_step(waiting.0, SupervisorEvent::FileChanged);
            let started = spec_step(building.0, SupervisorEvent::BuildSucceeded { binary });
            &&& waiting.0.phase == SupervisorPhase::Watching
            &&& waiting.0.current is None
            &&& waiting.1 == SupervisorAction::WaitForBuild
            &&& building.1 == SupervisorAction::Build
            &&& started.1 == SupervisorAction::StartServer { binary, replacing: None }
        }),
{
}

/// Shutting down stops the running server and is final: afterwards every
/// event leaves the supervisor as it is and asks for nothing.
pub proof fn shutdown_is_final(s: Supervisor, events: Seq<SupervisorEvent>)
    requires
        is_watching(s.phase),
    ensures
        ({
            let (next, action) = spec_step(s, SupervisorEvent::ShutdownRequested);
            &&& action == SupervisorAction::Shutdown { stop: s.current }
            &&& next.phase == SupervisorPhase::Stopped
            &&& run(next, events) == next
        }),
{
    stopped_stays_stopped(spec_step(s, SupervisorEvent::ShutdownRequested).0, events);
}

proof fn stopped_stays_stopped(s: Supervisor, events: Seq<SupervisorEvent>)
    requires
        s.phase == SupervisorPhase::Stopped,
    ensures
        run(s, events) == s,
    decreases events.len(),
{
    if events.len() > 0 {
        stopped_stays_stopped(spec_step(s, events[0]).0, events.drop_first());
    }
}

} // verus!
