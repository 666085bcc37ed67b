//! The orchestration of one driver run.
//!
//! A run is a single linear flow: start the driver process, open a session
//! against it, close the session, stop the process. The decisions of that
//! flow live here as a state machine: the orchestrator says which step is
//! due, the runner performs the outside work (the spawn, the wire-protocol
//! round trips, the termination signal) and reports whether it succeeded.
//! The machine guarantees that the driver process is stopped on every exit
//! path on which it was started, a close attempt always precedes the stop,
//! and a failed start ends the run before any session work.

use vstd::prelude::*;

verus! {

/// One step of outside work the runner performs on the orchestrator's behalf.
#[derive(Clone, Copy, PartialEq, Eq, Structural, Debug)]
pub enum Action {
    /// Spawn the driver process on its fixed port.
    StartDriver,
    /// Open a session against the driver over the wire protocol.
    OpenSession,
    /// End the open session.
    CloseSession,
    /// Send the driver process its termination signal.
    StopDriver,
}

/// One attempted step together with its outcome.
#[derive(Clone, Copy, PartialEq, Eq, Structural, Debug)]
pub struct StepRecord {
    /// The step that was attempted.
    pub action: Action,
    /// Whether the outside work succeeded.
    pub ok: bool,
}

/// How the session work ended while the driver process is still to be stopped.
#[derive(Clone, Copy, PartialEq, Eq, Structural, Debug)]
pub enum SessionEnd {
    /// The session was opened and closed.
    Closed,
    /// The session could not be opened: the driver was unreachable or
    /// rejected the capability descriptor.
    NeverOpened,
    /// The session was opened but ending it failed.
    CloseFailed,
}

/// The terminal outcome of a run. Stopping the driver is best effort: its
/// failure is recorded in `driver_stopped` but does not change which
/// outcome the run has.
#[derive(Clone, Copy, PartialEq, Eq, Structural, Debug)]
pub enum RunOutcome {
    /// The driver process could not be spawned; nothing else was attempted.
    StartFailed,
    /// The session could not be opened.
    ConnectFailed { driver_stopped: bool },
    /// The session was opened but could not be closed.
    CloseFailed { driver_stopped: bool },
    /// Every session step succeeded.
    Completed { driver_stopped: bool },
}

/// Where a run stands.
#[derive(Clone, Copy, PartialEq, Eq, Structural, Debug)]
pub enum Phase {
    /// Nothing has been attempted.
    Idle,
    /// The driver process is running; no session is open.
    DriverUp,
    /// The driver process is running and a session is open.
    SessionUp,
    /// The session work is over; the driver process still has to be stopped.
    Cleanup { end: SessionEnd },
    /// The run is over.
    Done { outcome: RunOutcome },
}

/// Shorthand for one history entry.
pub open spec fn step(action: Action, ok: bool) -> StepRecord {
    StepRecord { action, ok }
}

/// The phase after applying the outcome of the step that was due.
pub open spec fn spec_step_phase(p: Phase, ok: bool) -> Phase
    recommends
        !(p is Done),
{
    match p {
        Phase::Idle => if ok {
            Phase::DriverUp
        } else {
            Phase::Done { outcome: RunOutcome::StartFailed }
        },
        Phase::DriverUp => if ok {
            Phase::SessionUp
        } else {
            Phase::Cleanup { end: SessionEnd::NeverOpened }
        },
        Phase::SessionUp => if ok {
            Phase::Cleanup { end: SessionEnd::Closed }
        } else {
            Phase::Cleanup { end: SessionEnd::CloseFailed }
        },
        Phase::Cleanup { end } => Phase::Done {
            outcome: match end {
                SessionEnd::Closed => RunOutcome::Completed { driver_stopped: ok },
                SessionEnd::NeverOpened => RunOutcome::ConnectFailed { driver_stopped: ok },
                SessionEnd::CloseFailed => RunOutcome::CloseFailed { driver_stopped: ok },
            },
        },
        Phase::Done { outcome } => Phase::Done { outcome },
    }
}

/// The orchestrator of one run. It never performs outside work itself: it
/// hands the runner the step that is due and records the reported outcome.
pub struct Orchestrator {
    /// Where the run stands.
    pub phase: Phase,
    /// Every step attempted so far, in order, with its outcome.
    pub history: Vec<StepRecord>,
}

impl Orchestrator {
    /// The step due in each phase; `None` once the run is over.
    pub open spec fn spec_next_action(self) -> Option<Action> {
        match self.phase {
            Phase::Idle => Some(Action::StartDriver),
            Phase::DriverUp => Some(Action::OpenSession),
            Phase::SessionUp => Some(Action::CloseSession),
            Phase::Cleanup { .. } => Some(Action::StopDriver),
            Phase::Done { .. } => None,
        }
    }

    /// The terminal outcome, once there is one.
    pub open spec fn spec_outcome(self) -> Option<RunOutcome> {
        match self.phase {
            Phase::Done { outcome } => Some(outcome),
            _ => None,
        }
    }

    /// Well-formedness: each reachable phase pins the history of attempted
    /// steps exactly.
    pub open spec fn wf(self) -> bool {
        match self.phase {
            Phase::Idle => self.history@ == Seq::<StepRecord>::empty(),
            Phase::DriverUp => self.history@ == seq![step(Action::StartDriver, true)],
            Phase::SessionUp => self.history@ == seq![
                step(Action::StartDriver, true),
                step(Action::OpenSession, true),
            ],
            Phase::Cleanup { end } => match end {
                SessionEnd::NeverOpened => self.history@ == seq![
                    step(Action::StartDriver, true),
                    step(Action::OpenSession, false),
                ],
                SessionEnd::Closed => self.history@ == seq![
                    step(Action::StartDriver, true),
                    step(Action::OpenSession, true),
                    step(Action::CloseSession, true),
                ],
                SessionEnd::CloseFailed => self.history@ == seq![
                    step(Action::StartDriver, true),
                    step(Action::OpenSession, true),
                    step(Action::CloseSession, false),
                ],
            },
            Phase::Done { outcome } => match outcome {
                RunOutcome::StartFailed => self.history@ == seq![step(Action::StartDriver, false)],
                RunOutcome::ConnectFailed { driver_stopped } => self.history@ == seq![
                    step(Action::StartDriver, true),
                    step(Action::OpenSession, false),
                    step(Action::StopDriver, driver_stopped),
                ],
                RunOutcome::CloseFailed { driver_stopped } => self.history@ == seq![
                    step(Action::StartDriver, true),
                    step(Action::OpenSession, true),
                    step(Action::CloseSession, false),
                    step(Action::StopDriver, driver_stopped),
                ],
                RunOutcome::Completed { driver_stopped } => self.history@ == seq![
                    step(Action::StartDriver, true),
                    step(Action::OpenSession, true),
                    step(Action::CloseSession, true),
                    step(Action::StopDriver, driver_stopped),
                ],
            },
        }
    }

    /// A fresh orchestrator: nothing attempted, the start is due first.
    pub fn new() -> (r: Orchestrator)
        ensures
            r.wf(),
            r.phase == Phase::Idle,
            r.history@ == Seq::<StepRecord>::empty(),
    {
        let r = Orchestrator { phase: Phase::Idle, history: Vec::new() };
        proof {
            assert(r.history@ =~= Seq::<StepRecord>::empty());
        }
        r
    }

    /// The step the runner must perform next; `None` once the run is over.
    pub fn next_action(&self) -> (r: Option<Action>)
        ensures
            r == self.spec_next_action(),
    {
        match self.phase {
            Phase::Idle => Some(Action::StartDriver),
            Phase::DriverUp => Some(Action::OpenSession),
            Phase::SessionUp => Some(Action::CloseSession),
            Phase::Cleanup { .. } => Some(Action::StopDriver),
            Phase::Done { .. } => None,
        }
    }

    /// Whether the run is over.
    pub fn is_finished(&self) -> (r: bool)
        ensures
            r == (self.phase is Done),
    {
        match self.phase {
            Phase::Done { .. } => true,
            _ => false,
        }
    }

    /// The terminal outcome, once there is one.
    pub fn outcome(&self) -> (r: Option<RunOutcome>)
        ensures
            r == self.spec_outcome(),
    {
        match self.phase {
            Phase::Done { outcome } => Some(outcome),
            _ => None,
        }
    }

    /// Records the outcome of the step that was due and moves to the next
    /// phase. The step is appended to the history; the new phase follows
    /// the transition table `spec_step_phase`.
    pub fn advance(&mut self, ok: bool)
        requires
            old(self).wf(),
            !(old(self).phase is Done),
        ensures
            final(self).wf(),
            final(self).phase == spec_step_phase(old(self).phase, ok),
            final(self).history@ == old(self).history@.push(
                step(old(self).spec_next_action().unwrap(), ok),
            ),
    {
        let due = match self.phase {
            Phase::Idle => Action::StartDriver,
            Phase::DriverUp => Action::OpenSession,
            Phase::SessionUp => Action::CloseSession,
            Phase::Cleanup { .. } => Action::StopDriver,
            Phase::Done { .. } => {
                proof {
                    assert(false);
                }
                Action::StopDriver
            },
        };
        self.history.push(StepRecord { action: due, ok });
        let next = match self.phase {
            Phase::Idle => if ok {
                Phase::DriverUp
            } else {
                Phase::Done { outcome: RunOutcome::StartFailed }
            },
            Phase::DriverUp => if ok {
                Phase::SessionUp
            } else {
                Phase::Cleanup { end: SessionEnd::NeverOpened }
            },
            Phase::SessionUp => if ok {
                Phase::Cleanup { end: SessionEnd::Closed }
            } else {
                Phase::Cleanup { end: SessionEnd::CloseFailed }
            },
            Phase::Cleanup { end } => Phase::Done {
                outcome: match end {
                    SessionEnd::Closed => RunOutcome::Completed { driver_stopped: ok },
                    SessionEnd::NeverOpened => RunOutcome::ConnectFailed { driver_stopped: ok },
                    SessionEnd::CloseFailed => RunOutcome::CloseFailed { driver_stopped: ok },
                },
            },
            Phase::Done { outcome } => Phase::Done { outcome },
        };
        self.phase = next;
        proof {
            let s = step(Action::StartDriver, true);
            let o = step(Action::OpenSession, true);
            let c = step(Action::CloseSession, true);
            match old(self).phase {
                Phase::Idle => {
                    if ok {
                        assert(final(self).history@ =~= seq![s]);
                    } else {
                        assert(final(self).history@ =~= seq![step(Action::StartDriver, false)]);
                    }
                },
                Phase::DriverUp => {
                    if ok {
                        assert(final(self).history@ =~= seq![s, o]);
                    } else {
                        assert(final(self).history@ =~= seq![s, step(Action::OpenSession, false)]);
                    }
                },
                Phase::SessionUp => {
                    if ok {
                        assert(final(self).history@ =~= seq![s, o, c]);
                    } else {
                        assert(final(self).history@ =~= seq![s, o, step(Action::CloseSession, false)]);
                    }
                },
                Phase::Cleanup { end } => {
                    let k = step(Action::StopDriver, ok);
                    match end {
                        SessionEnd::Closed => {
                            assert(final(self).history@ =~= seq![s, o, c, k]);
                        },
                        SessionEnd::NeverOpened => {
                            assert(final(self).history@ =~= seq![
                                s,
                                step(Action::OpenSession, false),
                                k,
                            ]);
                        },
                        SessionEnd::CloseFailed => {
                            assert(final(self).history@ =~= seq![
                                s,
                                o,
                                step(Action::CloseSession, false),
                                k,
                            ]);
                        },
                    }
                },
                Phase::Done { .. } => {},
            }
        }
    }
}

/// Whether some step of the history attempted the given action.
pub open spec fn history_attempts(h: Seq<StepRecord>, action: Action) -> bool {
    exists|i: int| 0 <= i < h.len() && h[i].action == action
}

/// If starting the driver failed, the run attempted nothing else: in
/// particular, no session open was ever attempted.
pub proof fn lemma_start_failure_no_session_attempt(o: Orchestrator)
    requires
        o.wf(),
        o.history@.contains(step(Action::StartDriver, false)),
    ensures
        o.history@ == seq![step(Action::StartDriver, false)],
        !history_attempts(o.history@, Action::OpenSession),
{
    let h = o.history@;
    let i = choose|i: int| 0 <= i < h.len() && h[i] == step(Action::StartDriver, false);
    assert(h[i] == step(Action::StartDriver, false));
    assert(forall|j: int| 0 <= j < h.len() ==> h[j].action != Action::OpenSession);
}

/// In a run whose session was opened, every stop attempt comes after a
/// close attempt: the session is ended before the driver process is
/// stopped, and a finished such run did attempt the close.
pub proof fn lemma_close_attempted_before_stop(o: Orchestrator)
    requires
        o.wf(),
        o.history@.contains(step(Action::OpenSession, true)),
    ensures
        forall|j: int|
            0 <= j < o.history@.len() && o.history@[j].action == Action::StopDriver
                ==> exists|k: int|
                0 <= k < j && o.history@[k].action == Action::CloseSession,
        o.phase is Done ==> history_attempts(o.history@, Action::CloseSession),
{
    let h = o.history@;
    let i = choose|i: int| 0 <= i < h.len() && h[i] == step(Action::OpenSession, true);
    assert(h[i] == step(Action::OpenSession, true));
    assert forall|j: int|
        0 <= j < h.len() && h[j].action == Action::StopDriver implies exists|k: int|
        0 <= k < j && h[k].action == Action::CloseSession by {
        assert(h[2].action == Action::CloseSession);
    }
    if o.phase is Done {
        assert(h[2].action == Action::CloseSession);
    }
}

/// Even when closing the session fails, stopping the driver is still
/// attempted before the run ends.
pub proof fn lemma_stop_attempted_after_close_failure(o: Orchestrator)
    requires
        o.wf(),
        o.phase is Done,
        o.history@.contains(step(Action::CloseSession, false)),
    ensures
        history_attempts(o.history@, Action::StopDriver),
{
    let h = o.history@;
    let i = choose|i: int| 0 <= i < h.len() && h[i] == step(Action::CloseSession, false);
    assert(h[i] == step(Action::CloseSession, false));
    assert(h[h.len() - 1].action == Action::StopDriver);
}

/// No exit path leaks the driver process: every finished run that started
/// the driver attempted to stop it, whatever failed in between.
pub proof fn lemma_finished_run_stops_driver(o: Orchestrator)
    requires
        o.wf(),
        o.phase is Done,
        o.history@.contains(step(Action::StartDriver, true)),
    ensures
        history_attempts(o.history@, Action::StopDriver),
{
    let h = o.history@;
    let i = choose|i: int| 0 <= i < h.len() && h[i] == step(Action::StartDriver, true);
    assert(h[i] == step(Action::StartDriver, true));
    assert(h[h.len() - 1].action == Action::StopDriver);
}

} // verus!
