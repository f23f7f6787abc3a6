//! The one shared record of the supervisor: the handle of the managed process,
//! if one runs, and the round-trip time that was measured last. Every operation
//! here is one step under the lock that guards the record; starting, killing and
//! polling the process happen outside, between such steps.

use crate::errors::StartError;
use vstd::prelude::*;

verus! {

/// The seconds between two polls of the exit detector.
pub const EXIT_POLL_SECS: u64 = 2;

/// The shared record. `H` is the handle of a live process; at most one is held.
pub struct SupervisorState<H> {
    pub child: Option<H>,
    pub last_latency_ms: u64,
}

/// What the record shows to the user interface.
#[derive(Clone, Copy, Debug, PartialEq, Eq, Structural)]
pub struct Status {
    pub running: bool,
    pub latency_ms: u64,
}

/// What a request to start comes to.
#[derive(Clone, Copy, Debug, PartialEq, Eq, Structural)]
pub enum StartPlan {
    /// A process runs already: nothing is to be done.
    AlreadyRunning,
    /// No process runs: one is to be spawned and then adopted.
    Spawn,
}

/// What a request to stop comes to.
pub enum StopAction<H> {
    /// No process ran: nothing is to be done, and nothing to be logged.
    Nothing,
    /// This process ran and is no longer in the record: it is to be killed and
    /// waited for, and its end to be logged.
    Terminate(H),
}

/// What polling the managed process gave.
pub enum PollOutcome {
    /// The process has exited; the text describes its exit status.
    Exited(String),
    /// The process still runs.
    StillRunning,
    /// The system could not tell; the text is its error.
    Failed(String),
}

/// What the exit detector has to log after a poll.
pub enum ExitReport {
    /// Nothing.
    Nothing,
    /// The process ended by itself, with this exit status.
    Exited(String),
    /// The poll failed with this error; the process is taken to run on.
    PollFailed(String),
}

impl<H> SupervisorState<H> {
    /// A process is held.
    pub open spec fn running(self) -> bool {
        self.child is Some
    }

    /// What a request to start comes to: a process is spawned only if none is
    /// held.
    pub open spec fn start_plan(self) -> StartPlan {
        if self.running() {
            StartPlan::AlreadyRunning
        } else {
            StartPlan::Spawn
        }
    }

    /// The record after a request to start for which `spawned` would be the new
    /// process: unchanged if a process is held already.
    pub open spec fn after_start(self, spawned: H) -> SupervisorState<H> {
        if self.running() {
            self
        } else {
            SupervisorState { child: Some(spawned), last_latency_ms: self.last_latency_ms }
        }
    }

    /// The record after a request to stop.
    pub open spec fn after_stop(self) -> SupervisorState<H> {
        SupervisorState { child: None, last_latency_ms: self.last_latency_ms }
    }

    /// What a request to stop has to do.
    pub open spec fn stop_action(self) -> StopAction<H> {
        match self.child {
            Some(h) => StopAction::Terminate(h),
            None => StopAction::Nothing,
        }
    }

    /// The record after the exit detector has polled the held process with the
    /// given outcome. Without a process there is nothing to poll, and the record
    /// stays as it is.
    pub open spec fn after_poll(self, outcome: PollOutcome) -> SupervisorState<H> {
        if self.running() && outcome is Exited {
            SupervisorState { child: None, last_latency_ms: self.last_latency_ms }
        } else {
            self
        }
    }

    /// What the exit detector has to log after such a poll.
    pub open spec fn poll_report(self, outcome: PollOutcome) -> ExitReport {
        if self.running() {
            match outcome {
                PollOutcome::Exited(status) => ExitReport::Exited(status),
                PollOutcome::StillRunning => ExitReport::Nothing,
                PollOutcome::Failed(error) => ExitReport::PollFailed(error),
            }
        } else {
            ExitReport::Nothing
        }
    }

    /// The record at start-up: no process, no measurement.
    pub fn new() -> (s: SupervisorState<H>)
        ensures
            s.child is None,
            s.last_latency_ms == 0,
    {
        SupervisorState { child: None, last_latency_ms: 0 }
    }

    /// Tells whether a process is held.
    pub fn is_running(&self) -> (r: bool)
        ensures
            r == self.running(),
    {
        self.child.is_some()
    }

    /// What the user interface is shown.
    pub fn status(&self) -> (s: Status)
        ensures
            s.running == self.running(),
            s.latency_ms == self.last_latency_ms,
    {
        Status { running: self.child.is_some(), latency_ms: self.last_latency_ms }
    }

    /// Decides a request to start: a process is spawned only if none is held.
    pub fn plan_start(&self) -> (plan: StartPlan)
        ensures
            plan == self.start_plan(),
    {
        if self.child.is_some() {
            StartPlan::AlreadyRunning
        } else {
            StartPlan::Spawn
        }
    }

    /// Puts the newly spawned process into the record and hands back the one
    /// that it displaces, if any, so that no handle is lost alive.
    pub fn adopt(&mut self, spawned: H) -> (displaced: Option<H>)
        ensures
            final(self).child == Some(spawned),
            final(self).last_latency_ms == old(self).last_latency_ms,
            displaced == old(self).child,
            !old(self).running() ==> *final(self) == old(self).after_start(spawned),
    {
        let displaced = self.child.take();
        self.child = Some(spawned);
        displaced
    }

    /// Ends a request to start with what spawning gave: a new process gets into
    /// the record as by `adopt`; a failure leaves the record as it was, with no
    /// handle in it that was not there before.
    pub fn finish_start(&mut self, spawned: Result<H, StartError>) -> (r: Result<
        Option<H>,
        StartError,
    >)
        ensures
            match spawned {
                Ok(h) => final(self).child == Some(h) && final(self).last_latency_ms == old(
                    self,
                ).last_latency_ms && r == Ok::<Option<H>, StartError>(old(self).child),
                Err(e) => *final(self) == *old(self) && r == Err::<Option<H>, StartError>(e),
            },
            spawned is Ok && !old(self).running() ==> *final(self) == old(self).after_start(
                spawned->Ok_0,
            ),
    {
        match spawned {
            Ok(h) => Ok(self.adopt(h)),
            Err(e) => Err(e),
        }
    }

    /// Takes the process out of the record for a request to stop. The record is
    /// empty afterwards, whoever looks next.
    pub fn take_for_stop(&mut self) -> (action: StopAction<H>)
        ensures
            *final(self) == old(self).after_stop(),
            action == old(self).stop_action(),
            !old(self).running() ==> *final(self) == *old(self),
    {
        match self.child.take() {
            Some(h) => StopAction::Terminate(h),
            None => StopAction::Nothing,
        }
    }

    /// Takes note of what polling the held process gave: a process that has
    /// exited leaves the record, and its exit is reported once.
    pub fn observe_poll(&mut self, outcome: PollOutcome) -> (report: ExitReport)
        ensures
            *final(self) == old(self).after_poll(outcome),
            report == old(self).poll_report(outcome),
    {
        if self.child.is_none() {
            return ExitReport::Nothing;
        }
        match outcome {
            PollOutcome::Exited(status) => {
                self.child = None;
                ExitReport::Exited(status)
            },
            PollOutcome::StillRunning => ExitReport::Nothing,
            PollOutcome::Failed(error) => ExitReport::PollFailed(error),
        }
    }

    /// Stores the round-trip time that was measured last.
    pub fn record_latency(&mut self, latency_ms: u64)
        ensures
            final(self).last_latency_ms == latency_ms,
            final(self).child == old(self).child,
    {
        self.last_latency_ms = latency_ms;
    }
}

impl<H> StopAction<H> {
    /// This request to stop ends a process, and logs that.
    pub open spec fn ends_process(self) -> bool {
        self is Terminate
    }
}

impl ExitReport {
    /// The exit detector logs that the process has ended.
    pub open spec fn ends_process(self) -> bool {
        self is Exited
    }
}

/// A second request to start, with no request to stop in between, spawns
/// nothing and leaves the record as the first left it: the process that the
/// second would have spawned never gets into the record.
pub proof fn law_start_is_idempotent<H>(s: SupervisorState<H>, first: H, second: H)
    ensures
        s.after_start(first).running(),
        s.after_start(first).start_plan() == StartPlan::AlreadyRunning,
        s.after_start(first).after_start(second) == s.after_start(first),
        s.running() ==> s.after_start(first) == s,
{
}

/// A request to stop when no process is held changes nothing and ends nothing.
pub proof fn law_stop_when_stopped_is_noop<H>(s: SupervisorState<H>)
    requires
        !s.running(),
    ensures
        s.after_stop() == s,
        !s.stop_action().ends_process(),
{
}

/// When the held process has exited and a request to stop meets the exit
/// detector, exactly one of the two ends the process in the record and logs it,
/// whichever takes its step first; the record is empty afterwards.
pub proof fn law_exit_and_stop_are_exclusive<H>(s: SupervisorState<H>, status: String)
    requires
        s.running(),
    ensures
        ({
            let exited = PollOutcome::Exited(status);
            &&& s.stop_action().ends_process()
            &&& !s.after_stop().poll_report(exited).ends_process()
            &&& !s.after_stop().after_poll(exited).running()
            &&& s.poll_report(exited).ends_process()
            &&& !s.after_poll(exited).stop_action().ends_process()
            &&& !s.after_poll(exited).after_stop().running()
        }),
{
}

} // verus!
