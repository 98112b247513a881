//! Caller-supplied callback tables.
//!
//! The callbacks a callable routes to are external collaborators: the code
//! that populated the tables defines what they do, and this model only
//! promises which callback it runs and with which arguments.  They are
//! therefore plain trait methods without contracts, implemented by the
//! caller; capture, argument and result blocks are carried as opaque `u64`
//! tokens whose meaning belongs entirely to the caller.

use vstd::prelude::*;

use crate::dispatch::DispatchVariant;

verus! {

/// One dispatch callback: the body of one operation variant.  It receives
/// the capture token of the callable it was invoked through, followed by
/// the argument and result tokens of the invocation.
pub trait DispatchCallback {
    fn call(&self, capture: u64, args: u64, result: u64);
}

/// One count-forwarding callback: notified with the capture token and the
/// signed delta of a count change, so that counted state inside the capture
/// can age in lockstep with the callable.
pub trait CountCallback {
    fn on_delta(&self, capture: u64, delta: i32);
}

/// A function table: exactly four callbacks, one per dispatch variant.
/// Several callables may designate the same registered table; a table is
/// never deep-copied.
pub struct FunctionTable<F> {
    pub base: F,
    pub adjoint: F,
    pub controlled: F,
    pub controlled_adjoint: F,
}

/// A capture-count table: up to two forwarding hooks, one for strong
/// (reference) count changes and one for alias count changes.  Either slot
/// may be empty, in which case the corresponding changes are simply not
/// forwarded.
pub struct CaptureCountTable<H> {
    pub on_reference_delta: Option<H>,
    pub on_alias_delta: Option<H>,
}

/// One outbound call the runtime made into caller-supplied code.  The
/// runtime keeps a ghost trace of these, which is how its contracts pin
/// down which callbacks run, with which arguments, and in which order
/// relative to count changes.
pub enum TraceEvent {
    /// A dispatch callback ran: the variant whose slot was selected and the
    /// three tokens it was passed.
    Dispatched { variant: DispatchVariant, capture: u64, args: u64, result: u64 },
    /// A reference-delta hook ran with this capture token and delta.
    ReferenceDelta { capture: u64, delta: i32 },
    /// An alias-delta hook ran with this capture token and delta.
    AliasDelta { capture: u64, delta: i32 },
}

} // verus!
