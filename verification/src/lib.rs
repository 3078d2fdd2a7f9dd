//! Setup-completion coordination for a two-phase application start.
//!
//! A splash surface is shown while two independent setup tasks (a frontend
//! readiness signal and a backend warm-up task) complete. This library holds
//! the verified core of that protocol: the state machine that gates the
//! splash-to-main transition on both completion reports, the plan for the
//! one-shot transition sequence, and the decision logic of the bounded-time
//! envelope around the backend task. The host performs the actual window and
//! timer operations, calling into this crate for every decision.

pub mod coordinator;
pub mod envelope;
pub mod laws;
pub mod task;
pub mod transition;
