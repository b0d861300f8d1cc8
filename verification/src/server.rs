//! Stopping the server: the graceful SIGTERM → SIGKILL sequence and the
//! reading of a `kill` result.
use vstd::prelude::*;

use crate::error::Error;

verus! {

/// The signals the server's process group receives.
#[derive(Debug, Clone, Copy, PartialEq, Eq, Structural)]
pub enum Signal {
    Term,
    Kill,
}

/// The process id that `kill` is given to address the process group led by
/// `pid`: its negation, as `-(pid as i32)` computes it.
pub open spec fn spec_kill_target(pid: u32) -> int {
    if pid <= 0x7fff_ffff {
        -(pid as int)
    } else {
        0x1_0000_0000 - pid
    }
}

/// The `kill` target addressing the server's whole process group. The one
/// pid whose negation overflows, `2^31`, is left out.
pub fn kill_target(pid: u32) -> (r: i32)
    requires
        pid != 0x8000_0000,
    ensures
        r as int == spec_kill_target(pid),
{
    if pid <= 0x7fff_ffff {
        let p: i32 = pid as i32;
        -p
    } else {
        let rest: u32 = 0xffff_ffff - pid + 1;
        rest as i32
    }
}

/// How a `kill` call came out: `status` is its return value, and
/// `no_such_process` tells whether it failed with `ESRCH`. A group that is
/// already gone is the outcome stopping wanted, so only other failures are
/// errors.
pub fn signal_outcome(status: i32, no_such_process: bool, cause: String) -> (r: Result<(), Error>)
    ensures
        (status == 0 || no_such_process) ==> r is Ok,
        !(status == 0 || no_such_process) ==> r == Err::<(), Error>(Error::StopFailed(cause)),
{
    if status == 0 || no_such_process {
        Ok(())
    } else {
        Err(Error::StopFailed(cause))
    }
}

/// Where a graceful stop stands.
#[derive(Debug, Clone, Copy, PartialEq, Eq, Structural)]
pub enum StopPhase {
    Begin,
    /// SIGTERM is being sent.
    Terminating,
    /// Waiting, with a timeout, for the server to exit after SIGTERM.
    AwaitingExit,
    /// SIGKILL is being sent.
    Killing,
    /// Waiting, with a timeout, for the server to go after SIGKILL.
    AwaitingKill,
    Done,
}

#[derive(Debug)]
pub enum StopEvent {
    /// The stop begins; `already_exited` tells that the server has exited and
    /// been reaped.
    Begin { already_exited: bool },
    /// The result of sending a signal.
    Signalled { result: Result<(), Error> },
    /// A bounded wait ended; `exited` tells whether the server exited in time.
    Waited { exited: bool },
}

/// How long, in seconds, a stop waits for the server after each signal
/// before escalating from SIGTERM to SIGKILL or giving up.
pub const SHUTDOWN_TIMEOUT_SECS: u64 = 5;

#[derive(Debug)]
pub enum StopAction {
    Send(Signal),
    /// Wait for the server's exit, for at most `seconds`.
    WaitForExit { seconds: u64 },
    Finish(Result<(), Error>),
    Nothing,
}

pub open spec fn spec_stop_step(p: StopPhase, e: StopEvent) -> (StopPhase, StopAction) {
    match (p, e) {
        (StopPhase::Begin, StopEvent::Begin { already_exited }) => if already_exited {
            (StopPhase::Done, StopAction::Finish(Ok(())))
        } else {
            (StopPhase::Terminating, StopAction::Send(Signal::Term))
        },
        (StopPhase::Terminating, StopEvent::Signalled { result }) => match result {
            Ok(_) => (StopPhase::AwaitingExit, StopAction::WaitForExit { seconds: SHUTDOWN_TIMEOUT_SECS }),
            Err(e) => (StopPhase::Done, StopAction::Finish(Err(e))),
        },
        (StopPhase::AwaitingExit, StopEvent::Waited { exited }) => if exited {
            (StopPhase::Done, StopAction::Finish(Ok(())))
        } else {
            (StopPhase::Killing, StopAction::Send(Signal::Kill))
        },
        (StopPhase::Killing, StopEvent::Signalled { result }) => match result {
            Ok(_) => (StopPhase::AwaitingKill, StopAction::WaitForExit { seconds: SHUTDOWN_TIMEOUT_SECS }),
            Err(e) => (StopPhase::Done, StopAction::Finish(Err(e))),
        },
        (StopPhase::AwaitingKill, StopEvent::Waited { .. }) => (
            StopPhase::Done,
            StopAction::Finish(Ok(())),
        ),
        (p, _) => (p, StopAction::Nothing),
    }
}

impl StopPhase {
    /// Advances a graceful stop: an exited server is left alone; otherwise
    /// SIGTERM, a bounded wait, and SIGKILL only when that wait times out,
    /// followed by one more bounded wait.
    pub fn step(self, event: StopEvent) -> (r: (StopPhase, StopAction))
        ensures
            r == spec_stop_step(self, event),
    {
        match (self, event) {
            (StopPhase::Begin, StopEvent::Begin { already_exited }) => {
                if already_exited {
                    (StopPhase::Done, StopAction::Finish(Ok(())))
                } else {
                    (StopPhase::Terminating, StopAction::Send(Signal::Term))
                }
            },
            (StopPhase::Terminating, StopEvent::Signalled { result }) => match result {
                Ok(_) => (StopPhase::AwaitingExit, StopAction::WaitForExit { seconds: SHUTDOWN_TIMEOUT_SECS }),
                Err(e) => (StopPhase::Done, StopAction::Finish(Err(e))),
            },
            (StopPhase::AwaitingExit, StopEvent::Waited { exited }) => {
                if exited {
                    (StopPhase::Done, StopAction::Finish(Ok(())))
                } else {
                    (StopPhase::Killing, StopAction::Send(Signal::Kill))
                }
            },
            (StopPhase::Killing, StopEvent::Signalled { result }) => match result {
                Ok(_) => (StopPhase::AwaitingKill, StopAction::WaitForExit { seconds: SHUTDOWN_TIMEOUT_SECS }),
                Err(e) => (StopPhase::Done, StopAction::Finish(Err(e))),
            },
            (StopPhase::AwaitingKill, StopEvent::Waited { .. }) => (
                StopPhase::Done,
                StopAction::Finish(Ok(())),
            ),
            (p, _) => (p, StopAction::Nothing),
        }
    }
}

/// How far a stop is from done; every step that acts brings it closer.
pub open spec fn stop_rank(p: StopPhase) -> nat {
    match p {
        StopPhase::Begin => 5,
        StopPhase::Terminating => 4,
        StopPhase::AwaitingExit => 3,
        StopPhase::Killing => 2,
        StopPhase::AwaitingKill => 1,
        StopPhase::Done => 0,
    }
}

/// SIGKILL is sent only when the wait after SIGTERM timed out, and a server
/// that has already exited is never signalled.
pub proof fn kill_only_after_term_times_out(p: StopPhase, e: StopEvent)
    ensures
        (spec_stop_step(p, e).1 == StopAction::Send(Signal::Kill) ==> p == StopPhase::AwaitingExit
            && e == StopEvent::Waited { exited: false }),
        (e == StopEvent::Begin { already_exited: true } ==> !(spec_stop_step(p, e).1 is Send)),
{
}

/// A stop never goes backwards: every step that asks for something moves
/// strictly towards `Done`, so a stop sends at most two signals, waits at
/// most twice, and always finishes.
pub proof fn stop_progresses(p: StopPhase, e: StopEvent)
    ensures
        (!(spec_stop_step(p, e).1 is Nothing) ==> stop_rank(spec_stop_step(p, e).0) < stop_rank(p)),
        (spec_stop_step(p, e).1 is Nothing ==> spec_stop_step(p, e).0 == p),
        ((spec_stop_step(p, e).1 is Finish) == (spec_stop_step(p, e).0 == StopPhase::Done && p
            != StopPhase::Done)),
{
}

/// The seconds of waiting that a step asks for.
pub open spec fn wait_seconds(a: StopAction) -> nat {
    match a {
        StopAction::WaitForExit { seconds } => seconds as nat,
        _ => 0,
    }
}

/// The waiting a stop may still ask for from phase `p`: a wait after
/// SIGTERM and one after SIGKILL before either is sent, only the latter once
/// the first wait is under way, none once SIGKILL's wait is.
pub open spec fn wait_budget(p: StopPhase) -> nat {
    match p {
        StopPhase::Begin | StopPhase::Terminating => (2 * SHUTDOWN_TIMEOUT_SECS) as nat,
        StopPhase::AwaitingExit | StopPhase::Killing => SHUTDOWN_TIMEOUT_SECS as nat,
        StopPhase::AwaitingKill | StopPhase::Done => 0,
    }
}

/// Every wait of a stop lasts the shutdown timeout, five seconds, so SIGKILL
/// follows SIGTERM only after five seconds without an exit; and a whole stop
/// waits no longer than twice that, since no step asks for more waiting than
/// its phase has left.
pub proof fn stop_waits_are_bounded(p: StopPhase, e: StopEvent)
    ensures
        (spec_stop_step(p, e).1 matches StopAction::WaitForExit { seconds } ==> seconds
            == SHUTDOWN_TIMEOUT_SECS),
        SHUTDOWN_TIMEOUT_SECS == 5,
        wait_seconds(spec_stop_step(p, e).1) + wait_budget(spec_stop_step(p, e).0) <= wait_budget(p),
        wait_budget(StopPhase::Begin) == 10,
{
}

} // verus!
