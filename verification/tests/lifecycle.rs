use driver_lifecycle::lifecycle::{Action, Orchestrator, Phase, RunOutcome, StepRecord};

fn run_with(outcomes: &[bool]) -> Orchestrator {
    let mut o = Orchestrator::new();
    let mut i: usize = 0;
    while o.next_action().is_some() {
        assert!(i < outcomes.len(), "more steps were due than outcomes given");
        o.advance(outcomes[i]);
        i += 1;
    }
    assert_eq!(i, outcomes.len(), "fewer steps were due than outcomes given");
    o
}

fn actions_of(o: &Orchestrator) -> Vec<Action> {
    o.history.iter().map(|r| r.action).collect()
}

#[test]
fn full_run_steps_in_order() {
    let mut o = Orchestrator::new();
    assert_eq!(o.next_action(), Some(Action::StartDriver));
    o.advance(true);
    assert_eq!(o.next_action(), Some(Action::OpenSession));
    o.advance(true);
    assert_eq!(o.next_action(), Some(Action::CloseSession));
    o.advance(true);
    assert_eq!(o.next_action(), Some(Action::StopDriver));
    o.advance(true);
    assert_eq!(o.next_action(), None);
    assert!(o.is_finished());
    assert_eq!(o.outcome(), Some(RunOutcome::Completed { driver_stopped: true }));
    assert_eq!(
        o.history,
        vec![
            StepRecord { action: Action::StartDriver, ok: true },
            StepRecord { action: Action::OpenSession, ok: true },
            StepRecord { action: Action::CloseSession, ok: true },
            StepRecord { action: Action::StopDriver, ok: true },
        ]
    );
}

#[test]
fn start_failure_attempts_nothing_else() {
    let mut o = Orchestrator::new();
    o.advance(false);
    assert!(o.is_finished());
    assert_eq!(o.outcome(), Some(RunOutcome::StartFailed));
    assert_eq!(o.history, vec![StepRecord { action: Action::StartDriver, ok: false }]);
    assert!(!actions_of(&o).contains(&Action::OpenSession));
    assert!(!actions_of(&o).contains(&Action::StopDriver));
}

#[test]
fn connect_failure_still_stops_driver() {
    let mut o = Orchestrator::new();
    o.advance(true);
    o.advance(false);
    assert_eq!(o.next_action(), Some(Action::StopDriver));
    o.advance(true);
    assert_eq!(o.outcome(), Some(RunOutcome::ConnectFailed { driver_stopped: true }));
    assert!(actions_of(&o).contains(&Action::StopDriver));
    assert!(!actions_of(&o).contains(&Action::CloseSession));
}

#[test]
fn close_failure_still_stops_driver() {
    let mut o = Orchestrator::new();
    o.advance(true);
    o.advance(true);
    o.advance(false);
    assert_eq!(o.next_action(), Some(Action::StopDriver));
    o.advance(true);
    assert_eq!(o.outcome(), Some(RunOutcome::CloseFailed { driver_stopped: true }));
    assert!(actions_of(&o).contains(&Action::StopDriver));
}

#[test]
fn stop_failure_is_recorded_not_escalated() {
    let o = run_with(&[true, true, true, false]);
    assert_eq!(o.outcome(), Some(RunOutcome::Completed { driver_stopped: false }));
}

#[test]
fn close_attempt_precedes_stop_attempt() {
    for outcomes in [[true, true, true, true], [true, true, false, true]] {
        let o = run_with(&outcomes);
        let acts = actions_of(&o);
        let close_at = acts.iter().position(|a| *a == Action::CloseSession);
        let stop_at = acts.iter().position(|a| *a == Action::StopDriver);
        assert!(close_at.is_some());
        assert!(stop_at.is_some());
        assert!(close_at.unwrap() < stop_at.unwrap());
    }
}

#[test]
fn unreachable_driver_run_ends_with_stop() {
    let o = run_with(&[true, false, true]);
    assert_eq!(o.outcome(), Some(RunOutcome::ConnectFailed { driver_stopped: true }));
    assert_eq!(o.history.last().map(|r| r.action), Some(Action::StopDriver));
    assert!(matches!(o.phase, Phase::Done { .. }));
}
