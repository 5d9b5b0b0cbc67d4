//! Inactivity-triggered audio mute/restore engine.
//!
//! A background monitor samples system-wide input idle time, compares it
//! against an adjustable threshold, and drives the default audio output
//! between a NORMAL and a LOWERED state, restoring the prior volume and
//! mute flag exactly when input activity resumes.
//!
//! This crate holds the verified core: the threshold cell and its update
//! rules, the idle-time computation, and the two-state engine that decides
//! which platform actions each poll tick performs.  The host shell owns the
//! platform calls (idle query, endpoint volume/mute, session setup) and the
//! poll loop itself; it feeds plain values in and carries the decided
//! actions out.

pub mod engine;
pub mod errors;
pub mod idle;
pub mod threshold;
