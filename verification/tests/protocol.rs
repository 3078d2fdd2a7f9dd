//! Tests of the setup-completion protocol: parsing, report interleavings,
//! the transition plan, and the bounded-time envelope.

use setup_coordinator::coordinator::SetupState;
use setup_coordinator::envelope::BACKEND_SETUP_CEILING_MS;
use setup_coordinator::envelope::absorb_backend_outcome;
use setup_coordinator::envelope::resolve_envelope;
use setup_coordinator::task::SetupError;
use setup_coordinator::task::TaskId;
use setup_coordinator::task::parse_task_id;
use setup_coordinator::transition::SPLASH_FADE_OUT_DELAY_MS;
use setup_coordinator::transition::SPLASH_REVEAL_DELAY_MS;
use setup_coordinator::transition::TransitionStep;
use setup_coordinator::transition::transition_plan;

#[test]
fn parse_frontend() {
    assert_eq!(parse_task_id("frontend"), Ok(TaskId::Frontend));
}

#[test]
fn parse_backend() {
    assert_eq!(parse_task_id("backend"), Ok(TaskId::Backend));
}

#[test]
fn parse_invalid_rejected() {
    assert_eq!(parse_task_id("invalid"), Err(SetupError::InvalidTask));
    assert_eq!(parse_task_id("Frontend"), Err(SetupError::InvalidTask));
    assert_eq!(parse_task_id(""), Err(SetupError::InvalidTask));
}

#[test]
fn new_state_has_nothing_done() {
    let s = SetupState::new();
    assert!(!s.frontend_done);
    assert!(!s.backend_done);
    assert!(!s.both_done());
}

#[test]
fn frontend_then_backend_fires_once() {
    let mut s = SetupState::new();
    assert_eq!(s.report_task_complete("frontend"), Ok(false));
    assert!(!s.both_done());
    assert_eq!(s.report_task_complete("backend"), Ok(true));
    assert!(s.both_done());
}

#[test]
fn backend_then_frontend_fires_once() {
    let mut s = SetupState::new();
    assert_eq!(s.report_task_complete("backend"), Ok(false));
    assert!(!s.both_done());
    assert_eq!(s.report_task_complete("frontend"), Ok(true));
    assert!(s.both_done());
}

#[test]
fn repeated_backend_never_refires() {
    let mut s = SetupState::new();
    assert_eq!(s.report(TaskId::Backend), false);
    let after_first = s;
    assert_eq!(s.report(TaskId::Backend), false);
    assert_eq!(s, after_first);
    assert!(!s.frontend_done);
    assert!(s.backend_done);
}

#[test]
fn refire_suppressed_after_transition() {
    let mut s = SetupState::new();
    s.report(TaskId::Frontend);
    assert!(s.report(TaskId::Backend));
    assert_eq!(s.report(TaskId::Backend), false);
    assert_eq!(s.report(TaskId::Frontend), false);
    assert!(s.both_done());
}

#[test]
fn invalid_report_leaves_flags_unchanged() {
    let mut s = SetupState::new();
    s.report(TaskId::Frontend);
    let before = s;
    assert_eq!(
        s.report_task_complete("not-a-task"),
        Err(SetupError::InvalidTask)
    );
    assert_eq!(s, before);
    assert!(s.frontend_done);
    assert!(!s.backend_done);
}

#[test]
fn only_frontend_never_fires() {
    let mut s = SetupState::new();
    for _ in 0..50 {
        assert_eq!(s.report_task_complete("frontend"), Ok(false));
        assert!(!s.both_done());
    }
    assert!(s.frontend_done);
    assert!(!s.backend_done);
}

#[test]
fn racing_backend_reports_fire_at_most_once() {
    // The coordinator's lock serializes racing reports; each serialized
    // order is a sequence of report calls, simulated here.
    let mut s = SetupState::new();
    s.report(TaskId::Frontend);
    let mut fires = 0;
    for _ in 0..100 {
        if s.report(TaskId::Backend) {
            fires += 1;
        }
    }
    assert_eq!(fires, 1);
    assert!(s.both_done());

    let mut without_frontend = SetupState::new();
    let mut fires2 = 0;
    for _ in 0..100 {
        if without_frontend.report(TaskId::Backend) {
            fires2 += 1;
        }
    }
    assert_eq!(fires2, 0);
    assert!(!without_frontend.both_done());
}

#[test]
fn transition_plan_full_order() {
    let steps = transition_plan(true, true);
    assert_eq!(
        steps,
        vec![
            TransitionStep::SignalSplashFadeOut,
            TransitionStep::Pause(1000),
            TransitionStep::SignalSplashReveal,
            TransitionStep::Pause(1200),
            TransitionStep::CloseSplash,
            TransitionStep::ShowMain,
            TransitionStep::FocusMain,
        ]
    );
}

#[test]
fn transition_plan_without_splash() {
    let steps = transition_plan(false, true);
    assert_eq!(
        steps,
        vec![TransitionStep::ShowMain, TransitionStep::FocusMain]
    );
}

#[test]
fn transition_plan_missing_main_warns() {
    let steps = transition_plan(true, false);
    assert_eq!(
        steps,
        vec![
            TransitionStep::SignalSplashFadeOut,
            TransitionStep::Pause(1000),
            TransitionStep::SignalSplashReveal,
            TransitionStep::Pause(1200),
            TransitionStep::CloseSplash,
            TransitionStep::WarnMissingMain,
        ]
    );
    assert_eq!(
        transition_plan(false, false),
        vec![TransitionStep::WarnMissingMain]
    );
}

#[test]
fn pacing_constants() {
    assert_eq!(SPLASH_FADE_OUT_DELAY_MS, 1000);
    assert_eq!(SPLASH_REVEAL_DELAY_MS, 1200);
    assert_eq!(BACKEND_SETUP_CEILING_MS, 30000);
}

#[test]
fn envelope_within_ceiling_succeeds() {
    assert_eq!(resolve_envelope(10000, BACKEND_SETUP_CEILING_MS), Ok(()));
    assert_eq!(resolve_envelope(30000, 30000), Ok(()));
}

#[test]
fn envelope_timeout_resolves_to_setup_timeout() {
    assert_eq!(
        resolve_envelope(40000, BACKEND_SETUP_CEILING_MS),
        Err(SetupError::SetupTimeout)
    );
    assert_eq!(resolve_envelope(30001, 30000), Err(SetupError::SetupTimeout));
}

#[test]
fn timed_out_backend_never_reports() {
    // Frontend already reported; the backend work overruns the ceiling.
    let mut s = SetupState::new();
    s.report(TaskId::Frontend);
    let outcome = resolve_envelope(40000, BACKEND_SETUP_CEILING_MS);
    assert_eq!(outcome, Err(SetupError::SetupTimeout));
    let fired = absorb_backend_outcome(&mut s, outcome);
    assert!(!fired);
    // The coordinator stays permanently one report short of the transition.
    assert!(s.frontend_done);
    assert!(!s.backend_done);
    assert!(!s.both_done());
}

#[test]
fn completed_backend_reports_and_fires() {
    let mut s = SetupState::new();
    s.report(TaskId::Frontend);
    let outcome = resolve_envelope(10000, BACKEND_SETUP_CEILING_MS);
    let fired = absorb_backend_outcome(&mut s, outcome);
    assert!(fired);
    assert!(s.both_done());

    // Without the frontend report the completion is recorded but nothing fires.
    let mut alone = SetupState::new();
    let fired_alone = absorb_backend_outcome(&mut alone, resolve_envelope(1, 2));
    assert!(!fired_alone);
    assert!(alone.backend_done);
    assert!(!alone.frontend_done);
}
