//! The one-shot splash-to-main transition sequence, as a plan of steps.
//!
//! The transition itself is window and timer work that the host performs;
//! what is verified here is the plan: exactly which steps run, in which
//! order, given which surfaces exist. Signalling steps are best-effort — the
//! host logs and ignores their failures and always continues with the next
//! step — and a missing main surface is a logged warning, never a crash.

use vstd::prelude::*;

verus! {

/// Milliseconds of the first cosmetic pacing window, after the fade-out
/// signal to the splash surface.
pub const SPLASH_FADE_OUT_DELAY_MS: u64 = 1000;

/// Milliseconds of the second cosmetic pacing window, after the reveal
/// signal to the splash surface.
pub const SPLASH_REVEAL_DELAY_MS: u64 = 1200;

/// One step of the transition sequence, for the host to perform in order.
#[derive(Clone, Copy, PartialEq, Eq, Debug, Structural)]
pub enum TransitionStep {
    /// Signal the splash surface to begin its exit animation (best-effort).
    SignalSplashFadeOut,
    /// Signal the splash surface's second animation stage (best-effort).
    SignalSplashReveal,
    /// Wait cooperatively for the given number of milliseconds.
    Pause(u64),
    /// Close and destroy the splash surface.
    CloseSplash,
    /// Make the main surface visible.
    ShowMain,
    /// Give the main surface input focus.
    FocusMain,
    /// The main surface is absent: log a host-misconfiguration warning and
    /// keep the process running.
    WarnMissingMain,
}

/// The exact transition sequence: if a splash surface exists, two animation
/// signals with a pacing pause after each, then the close; then the main
/// surface is shown and focused, or its absence is warned about.
pub open spec fn transition_plan_spec(splash_exists: bool, main_exists: bool) -> Seq<
    TransitionStep,
> {
    (if splash_exists {
        seq![
            TransitionStep::SignalSplashFadeOut,
            TransitionStep::Pause(SPLASH_FADE_OUT_DELAY_MS),
            TransitionStep::SignalSplashReveal,
            TransitionStep::Pause(SPLASH_REVEAL_DELAY_MS),
            TransitionStep::CloseSplash,
        ]
    } else {
        Seq::<TransitionStep>::empty()
    }) + (if main_exists {
        seq![TransitionStep::ShowMain, TransitionStep::FocusMain]
    } else {
        seq![TransitionStep::WarnMissingMain]
    })
}

/// Builds the transition plan for the surfaces the host found. The host runs
/// the returned steps in order, exactly once, after the report that made
/// both setup tasks done.
pub fn transition_plan(splash_exists: bool, main_exists: bool) -> (steps: Vec<TransitionStep>)
    ensures
        steps@ == transition_plan_spec(splash_exists, main_exists),
{
    let mut steps: Vec<TransitionStep> = Vec::new();
    if splash_exists {
        steps.push(TransitionStep::SignalSplashFadeOut);
        steps.push(TransitionStep::Pause(SPLASH_FADE_OUT_DELAY_MS));
        steps.push(TransitionStep::SignalSplashReveal);
        steps.push(TransitionStep::Pause(SPLASH_REVEAL_DELAY_MS));
        steps.push(TransitionStep::CloseSplash);
    }
    if main_exists {
        steps.push(TransitionStep::ShowMain);
        steps.push(TransitionStep::FocusMain);
    } else {
        steps.push(TransitionStep::WarnMissingMain);
    }
    proof {
        assert(steps@ =~= transition_plan_spec(splash_exists, main_exists));
    }
    steps
}

} // verus!
