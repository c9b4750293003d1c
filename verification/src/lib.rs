//! Control core of a screen-driven gardening automaton.
//!
//! The crate verifies the decision logic of a background worker that runs
//! timed rounds of actuation against an external target, guided by a noisy
//! text classification of what the target currently shows: the classifier
//! itself, the shared control state and its session transitions, the
//! round-scheduling state machine with its interruptible waits, and the
//! bitmap framing used to hand captured pixels to the recognizer.

pub mod bmp;
pub mod classify;
pub mod control;
pub mod scheduler;
pub mod scheduler_laws;
pub mod screenshot;
