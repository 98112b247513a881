//! Object model for reference-counted callable values.
//!
//! A callable pairs a dispatch table of four operation variants with an
//! opaque captured-state token, and carries two independent counts: a
//! strong (ownership) count that drives teardown, and an alias (observer)
//! count that drives the copy-on-write policy.  Count changes are forwarded
//! into caller-supplied hooks so that state embedded in the capture ages in
//! lockstep with the callable.

pub mod dispatch;
pub mod runtime;
pub mod tables;
