//! The callable runtime: an arena of reference-counted callable records
//! together with the registered callback tables they route to.
//!
//! Every operation is caller-driven and exact: counts move only by the
//! deltas the caller passes in, teardown happens at the moment the strong
//! count reaches zero, and each count change is forwarded into the capture
//! hooks at most once.  The runtime keeps a ghost trace of every outbound
//! callback invocation; the contracts below state forwarding behaviour as
//! exact extensions of that trace.

use vstd::prelude::*;

use crate::dispatch::DispatchVariant;
use crate::dispatch::selected_variant;
use crate::dispatch::spec_selected_variant;
use crate::tables::CaptureCountTable;
use crate::tables::CountCallback;
use crate::tables::DispatchCallback;
use crate::tables::FunctionTable;
use crate::tables::TraceEvent;

verus! {

/// One callable record: which registered tables it routes to, its opaque
/// capture token, its accumulated transform state, and its two counts.
///
/// The table designations and the capture token are shared freely between
/// records produced by copying; the transform state and the counts are
/// per-record and never shared.
#[derive(Clone, Copy)]
pub struct Callable {
    /// Index of this callable's function table in the runtime.
    pub table: usize,
    /// Index of this callable's capture-count table in the runtime, if it
    /// has one at all.
    pub capture_table: Option<usize>,
    /// Opaque token for the captured-state block; routed to callbacks,
    /// never interpreted.
    pub capture: u64,
    /// Adjoint parity accumulated by adjoint transforms.
    pub is_adjoint: bool,
    /// Number of controlled transforms applied; never lowered.
    pub controlled_depth: u32,
    /// Ownership count; reaching zero tears the callable down.
    pub strong_count: u32,
    /// Non-owning observer count; only consulted by the copy policy.
    pub alias_count: u32,
}

/// The copy-depth threshold: a copy must be deep exactly when the caller
/// forces it or when at least one alias observer is present — an observer
/// that could witness a later divergence of transform state without
/// holding a strong reference.  The threshold stands here on its own so
/// that the policy is explicit rather than buried in `copy`.
pub open spec fn spec_must_deep_copy(force: bool, alias_count: u32) -> bool {
    force || alias_count > 0
}

/// Executable copy-depth decision, equal to `spec_must_deep_copy`.
pub fn must_deep_copy(force: bool, alias_count: u32) -> (b: bool)
    ensures
        b == spec_must_deep_copy(force, alias_count),
{
    force || alias_count > 0
}

/// The runtime: registered function tables and capture-count tables, the
/// arena of callable records (`None` marks a torn-down slot), and the
/// ghost trace of outbound callback invocations.
pub struct Runtime<F, H> {
    pub tables: Vec<FunctionTable<F>>,
    pub capture_tables: Vec<CaptureCountTable<H>>,
    pub callables: Vec<Option<Callable>>,
    pub trace: Ghost<Seq<TraceEvent>>,
}

impl<F: DispatchCallback, H: CountCallback> Runtime<F, H> {
    /// A handle designates a live callable: one that has been created and
    /// whose strong count has not yet reached zero.
    pub open spec fn live(self, h: usize) -> bool {
        h < self.callables@.len() && self.callables@[h as int] is Some
    }

    /// The record a live handle designates.
    pub open spec fn callable(self, h: usize) -> Callable
        recommends
            self.live(h),
    {
        self.callables@[h as int]->Some_0
    }

    /// A record is well formed when its table designations are in range.
    pub open spec fn callable_wf(self, c: Callable) -> bool {
        &&& c.table < self.tables@.len()
        &&& (c.capture_table matches Some(k) ==> k < self.capture_tables@.len())
    }

    /// Every live record designates registered tables.
    pub open spec fn wf(self) -> bool {
        forall|i: int|
            0 <= i < self.callables@.len() && (#[trigger] self.callables@[i]) is Some
                ==> self.callable_wf(self.callables@[i]->Some_0)
    }

    /// Whether `h`'s callable has a reference-delta hook registered: a
    /// capture-count table is designated and its reference slot is filled.
    pub open spec fn ref_hook_registered(self, h: usize) -> bool
        recommends
            self.live(h),
    {
        self.callable(h).capture_table matches Some(k) && k < self.capture_tables@.len()
            && self.capture_tables@[k as int].on_reference_delta is Some
    }

    /// Whether `h`'s callable has an alias-delta hook registered.
    pub open spec fn alias_hook_registered(self, h: usize) -> bool
        recommends
            self.live(h),
    {
        self.callable(h).capture_table matches Some(k) && k < self.capture_tables@.len()
            && self.capture_tables@[k as int].on_alias_delta is Some
    }

    /// An empty runtime: nothing registered, nothing created, and an empty
    /// trace.
    pub fn new() -> (rt: Self)
        ensures
            rt.wf(),
            rt.tables@.len() == 0,
            rt.capture_tables@.len() == 0,
            rt.callables@.len() == 0,
            rt.trace@ == Seq::<TraceEvent>::empty(),
    {
        Runtime {
            tables: Vec::new(),
            capture_tables: Vec::new(),
            callables: Vec::new(),
            trace: Ghost(Seq::empty()),
        }
    }

    /// Registers a function table and returns its index.  Tables are never
    /// removed or altered by the runtime, so any number of callables may
    /// share one.
    pub fn register_function_table(&mut self, t: FunctionTable<F>) -> (i: usize)
        requires
            old(self).wf(),
        ensures
            final(self).wf(),
            i == old(self).tables@.len(),
            final(self).tables@ == old(self).tables@.push(t),
            final(self).capture_tables@ == old(self).capture_tables@,
            final(self).callables@ == old(self).callables@,
            final(self).trace@ == old(self).trace@,
    {
        let i: usize = self.tables.len();
        self.tables.push(t);
        i
    }

    /// Registers a capture-count table and returns its index.
    pub fn register_capture_table(&mut self, t: CaptureCountTable<H>) -> (i: usize)
        requires
            old(self).wf(),
        ensures
            final(self).wf(),
            i == old(self).capture_tables@.len(),
            final(self).capture_tables@ == old(self).capture_tables@.push(t),
            final(self).tables@ == old(self).tables@,
            final(self).callables@ == old(self).callables@,
            final(self).trace@ == old(self).trace@,
    {
        let i: usize = self.capture_tables.len();
        self.capture_tables.push(t);
        i
    }

    /// Creates a callable over registered tables and a capture token.  The
    /// new record starts with a strong count of one, an alias count of
    /// zero, and zeroed transform state; nothing is forwarded.
    pub fn create(&mut self, table: usize, capture_table: Option<usize>, capture: u64) -> (h:
        usize)
        requires
            old(self).wf(),
            table < old(self).tables@.len(),
            capture_table matches Some(k) ==> k < old(self).capture_tables@.len(),
        ensures
            final(self).wf(),
            final(self).live(h),
            h == old(self).callables@.len(),
            final(self).callables@ == old(self).callables@.push(
                Some(
                    (Callable {
                        table,
                        capture_table,
                        capture,
                        is_adjoint: false,
                        controlled_depth: 0,
                        strong_count: 1,
                        alias_count: 0,
                    }),
                ),
            ),
            final(self).tables@ == old(self).tables@,
            final(self).capture_tables@ == old(self).capture_tables@,
            final(self).trace@ == old(self).trace@,
    {
        let h: usize = self.callables.len();
        self.callables.push(
            Some(
                Callable {
                    table,
                    capture_table,
                    capture,
                    is_adjoint: false,
                    controlled_depth: 0,
                    strong_count: 1,
                    alias_count: 0,
                },
            ),
        );
        h
    }

    /// Runs the callback the callable's current transform state selects,
    /// passing it the capture token and the caller's argument and result
    /// tokens, and returns the selected variant.  The selection is exactly
    /// `spec_selected_variant`: adjoint parity picks the odd slots, a
    /// positive controlled depth the upper pair.  No record changes; the
    /// trace is extended by exactly this one dispatch.
    pub fn invoke(&mut self, h: usize, args: u64, result: u64) -> (v: DispatchVariant)
        requires
            old(self).wf(),
            old(self).live(h),
        ensures
            final(self).wf(),
            v == spec_selected_variant(
                old(self).callable(h).is_adjoint,
                old(self).callable(h).controlled_depth,
            ),
            final(self).tables@ == old(self).tables@,
            final(self).capture_tables@ == old(self).capture_tables@,
            final(self).callables@ == old(self).callables@,
            final(self).trace@ == old(self).trace@.push(
                (TraceEvent::Dispatched {
                    variant: v,
                    capture: old(self).callable(h).capture,
                    args,
                    result,
                }),
            ),
    {
        let rec: Callable = self.callables[h].unwrap();
        let v: DispatchVariant = selected_variant(rec.is_adjoint, rec.controlled_depth);
        let tab: &FunctionTable<F> = &self.tables[rec.table];
        match v {
            DispatchVariant::Base => tab.base.call(rec.capture, args, result),
            DispatchVariant::Adjoint => tab.adjoint.call(rec.capture, args, result),
            DispatchVariant::Controlled => tab.controlled.call(rec.capture, args, result),
            DispatchVariant::ControlledAdjoint => tab.controlled_adjoint.call(
                rec.capture,
                args,
                result,
            ),
        }
        self.trace = Ghost(
            self.trace@.push(
                TraceEvent::Dispatched { variant: v, capture: rec.capture, args, result },
            ),
        );
        v
    }

    /// Flips the callable's adjoint parity.  Pure per-record mutation: no
    /// allocation, no forwarding, and no other record is touched.
    pub fn make_adjoint(&mut self, h: usize)
        requires
            old(self).wf(),
            old(self).live(h),
        ensures
            final(self).wf(),
            final(self).callables@ == old(self).callables@.update(
                h as int,
                Some(
                    (Callable {
                        is_adjoint: !old(self).callable(h).is_adjoint,
                        ..old(self).callable(h)
                    }),
                ),
            ),
            final(self).tables@ == old(self).tables@,
            final(self).capture_tables@ == old(self).capture_tables@,
            final(self).trace@ == old(self).trace@,
    {
        if let Some(rec) = &mut self.callables[h] {
            rec.is_adjoint = !rec.is_adjoint;
        }
    }

    /// Raises the callable's controlled depth by one.  Pure per-record
    /// mutation; no operation of this runtime ever lowers the depth.
    pub fn make_controlled(&mut self, h: usize)
        requires
            old(self).wf(),
            old(self).live(h),
            old(self).callable(h).controlled_depth < u32::MAX,
        ensures
            final(self).wf(),
            final(self).callables@ == old(self).callables@.update(
                h as int,
                Some(
                    (Callable {
                        controlled_depth: (old(self).callable(h).controlled_depth + 1) as u32,
                        ..old(self).callable(h)
                    }),
                ),
            ),
            final(self).tables@ == old(self).tables@,
            final(self).capture_tables@ == old(self).capture_tables@,
            final(self).trace@ == old(self).trace@,
    {
        if let Some(rec) = &mut self.callables[h] {
            rec.controlled_depth = rec.controlled_depth + 1;
        }
    }

    /// Copy-on-write copy.  When `spec_must_deep_copy` holds — the caller
    /// forces it, or any alias observer is present — the result is a fresh
    /// record: distinct handle, shared table designations and capture
    /// token, its own transform state, a strong count of one and an alias
    /// count of zero.  Otherwise the same handle is returned with its
    /// strong count raised by one.  Nothing is forwarded either way.
    pub fn copy(&mut self, h: usize, force: bool) -> (r: usize)
        requires
            old(self).wf(),
            old(self).live(h),
            !spec_must_deep_copy(force, old(self).callable(h).alias_count) ==> old(self).callable(
                h,
            ).strong_count < u32::MAX,
        ensures
            final(self).wf(),
            final(self).live(r),
            final(self).tables@ == old(self).tables@,
            final(self).capture_tables@ == old(self).capture_tables@,
            final(self).trace@ == old(self).trace@,
            spec_must_deep_copy(force, old(self).callable(h).alias_count)
                ==> r == old(self).callables@.len() && r != h
                && final(self).callables@ == old(self).callables@.push(
                Some(
                    (Callable {
                        strong_count: 1,
                        alias_count: 0,
                        ..old(self).callable(h)
                    }),
                ),
            ),
            !spec_must_deep_copy(force, old(self).callable(h).alias_count) ==> r == h
                && final(self).callables@ == old(self).callables@.update(
                h as int,
                Some(
                    (Callable {
                        strong_count: (old(self).callable(h).strong_count + 1) as u32,
                        ..old(self).callable(h)
                    }),
                ),
            ),
    {
        let rec: Callable = self.callables[h].unwrap();
        if must_deep_copy(force, rec.alias_count) {
            let r: usize = self.callables.len();
            self.callables.push(Some(Callable { strong_count: 1, alias_count: 0, ..rec }));
            r
        } else {
            if let Some(p) = &mut self.callables[h] {
                p.strong_count = p.strong_count + 1;
            }
            h
        }
    }

    /// Runs the reference-delta hook a record designates, if any, and
    /// extends the trace by exactly that call; otherwise leaves everything
    /// as it is.
    fn forward_reference_delta(&mut self, capture_table: Option<usize>, capture: u64, delta: i32)
        requires
            old(self).wf(),
            capture_table matches Some(k) ==> k < old(self).capture_tables@.len(),
        ensures
            final(self).wf(),
            final(self).tables@ == old(self).tables@,
            final(self).capture_tables@ == old(self).capture_tables@,
            final(self).callables@ == old(self).callables@,
            final(self).trace@ == old(self).trace@ + (if capture_table matches Some(k)
                && old(self).capture_tables@[k as int].on_reference_delta is Some {
                seq![(TraceEvent::ReferenceDelta { capture, delta })]
            } else {
                Seq::<TraceEvent>::empty()
            }),
    {
        if let Some(k) = capture_table {
            let ct: &CaptureCountTable<H> = &self.capture_tables[k];
            if let Some(hook) = &ct.on_reference_delta {
                hook.on_delta(capture, delta);
                self.trace = Ghost(
                    self.trace@.push(TraceEvent::ReferenceDelta { capture, delta }),
                );
            }
        }
        proof {
            assert(final(self).trace@ =~= old(self).trace@ + (if capture_table matches Some(k)
                && old(self).capture_tables@[k as int].on_reference_delta is Some {
                seq![(TraceEvent::ReferenceDelta { capture, delta })]
            } else {
                Seq::<TraceEvent>::empty()
            }));
        }
    }

    /// Runs the alias-delta hook a record designates, if any; the mirror
    /// image of `forward_reference_delta`.
    fn forward_alias_delta(&mut self, capture_table: Option<usize>, capture: u64, delta: i32)
        requires
            old(self).wf(),
            capture_table matches Some(k) ==> k < old(self).capture_tables@.len(),
        ensures
            final(self).wf(),
            final(self).tables@ == old(self).tables@,
            final(self).capture_tables@ == old(self).capture_tables@,
            final(self).callables@ == old(self).callables@,
            final(self).trace@ == old(self).trace@ + (if capture_table matches Some(k)
                && old(self).capture_tables@[k as int].on_alias_delta is Some {
                seq![(TraceEvent::AliasDelta { capture, delta })]
            } else {
                Seq::<TraceEvent>::empty()
            }),
    {
        if let Some(k) = capture_table {
            let ct: &CaptureCountTable<H> = &self.capture_tables[k];
            if let Some(hook) = &ct.on_alias_delta {
                hook.on_delta(capture, delta);
                self.trace = Ghost(self.trace@.push(TraceEvent::AliasDelta { capture, delta }));
            }
        }
        proof {
            assert(final(self).trace@ =~= old(self).trace@ + (if capture_table matches Some(k)
                && old(self).capture_tables@[k as int].on_alias_delta is Some {
                seq![(TraceEvent::AliasDelta { capture, delta })]
            } else {
                Seq::<TraceEvent>::empty()
            }));
        }
    }

    /// Adjusts the callable's strong count by `delta`.  A result of zero
    /// tears the callable down: its slot is released and the handle is
    /// dead from then on.  In every case — teardown included — the
    /// reference-delta hook, when registered, is run exactly once with the
    /// capture token and this delta, after the count change; when no hook
    /// is registered nothing is forwarded and nothing faults.
    pub fn update_reference_count(&mut self, h: usize, delta: i32)
        requires
            old(self).wf(),
            old(self).live(h),
            0 <= old(self).callable(h).strong_count + delta <= u32::MAX,
        ensures
            final(self).wf(),
            final(self).callables@.len() == old(self).callables@.len(),
            old(self).callable(h).strong_count + delta == 0 ==> final(self).callables@
                == old(self).callables@.update(h as int, None),
            old(self).callable(h).strong_count + delta != 0 ==> final(self).callables@
                == old(self).callables@.update(
                h as int,
                Some(
                    (Callable {
                        strong_count: (old(self).callable(h).strong_count + delta) as u32,
                        ..old(self).callable(h)
                    }),
                ),
            ),
            final(self).tables@ == old(self).tables@,
            final(self).capture_tables@ == old(self).capture_tables@,
            final(self).trace@ == old(self).trace@ + (if old(self).ref_hook_registered(h) {
                seq![
                    (TraceEvent::ReferenceDelta {
                        capture: old(self).callable(h).capture,
                        delta,
                    }),
                ]
            } else {
                Seq::<TraceEvent>::empty()
            }),
    {
        let rec: Callable = self.callables[h].unwrap();
        let widened: i64 = rec.strong_count as i64 + delta as i64;
        let new_strong: u32 = widened as u32;
        if new_strong == 0 {
            self.callables.set(h, None);
        } else {
            self.callables.set(h, Some(Callable { strong_count: new_strong, ..rec }));
        }
        self.forward_reference_delta(rec.capture_table, rec.capture, delta);
    }

    /// Adjusts the callable's alias count by `delta`; the count feeds only
    /// the copy policy and never triggers teardown.  Symmetrically to the
    /// strong count, the alias-delta hook, when registered, is run exactly
    /// once with the capture token and this delta.
    pub fn update_alias_count(&mut self, h: usize, delta: i32)
        requires
            old(self).wf(),
            old(self).live(h),
            0 <= old(self).callable(h).alias_count + delta <= u32::MAX,
        ensures
            final(self).wf(),
            final(self).callables@ == old(self).callables@.update(
                h as int,
                Some(
                    (Callable {
                        alias_count: (old(self).callable(h).alias_count + delta) as u32,
                        ..old(self).callable(h)
                    }),
                ),
            ),
            final(self).tables@ == old(self).tables@,
            final(self).capture_tables@ == old(self).capture_tables@,
            final(self).trace@ == old(self).trace@ + (if old(self).alias_hook_registered(h) {
                seq![
                    (TraceEvent::AliasDelta { capture: old(self).callable(h).capture, delta }),
                ]
            } else {
                Seq::<TraceEvent>::empty()
            }),
    {
        let rec: Callable = self.callables[h].unwrap();
        let widened: i64 = rec.alias_count as i64 + delta as i64;
        let new_alias: u32 = widened as u32;
        self.callables.set(h, Some(Callable { alias_count: new_alias, ..rec }));
        self.forward_alias_delta(rec.capture_table, rec.capture, delta);
    }

    /// Forwards a reference delta to the capture hooks alone, bypassing
    /// the callable's own counts entirely: used to age the capture without
    /// implying the callable itself changed ownership.  No record changes;
    /// the trace is extended by exactly one call when the hook is
    /// registered, by nothing otherwise.
    pub fn capture_update_reference_count(&mut self, h: usize, delta: i32)
        requires
            old(self).wf(),
            old(self).live(h),
        ensures
            final(self).wf(),
            final(self).callables@ == old(self).callables@,
            final(self).tables@ == old(self).tables@,
            final(self).capture_tables@ == old(self).capture_tables@,
            final(self).trace@ == old(self).trace@ + (if old(self).ref_hook_registered(h) {
                seq![
                    (TraceEvent::ReferenceDelta {
                        capture: old(self).callable(h).capture,
                        delta,
                    }),
                ]
            } else {
                Seq::<TraceEvent>::empty()
            }),
    {
        let rec: Callable = self.callables[h].unwrap();
        self.forward_reference_delta(rec.capture_table, rec.capture, delta);
    }

    /// Forwards an alias delta to the capture hooks alone; the mirror
    /// image of `capture_update_reference_count`.
    pub fn capture_update_alias_count(&mut self, h: usize, delta: i32)
        requires
            old(self).wf(),
            old(self).live(h),
        ensures
            final(self).wf(),
            final(self).callables@ == old(self).callables@,
            final(self).tables@ == old(self).tables@,
            final(self).capture_tables@ == old(self).capture_tables@,
            final(self).trace@ == old(self).trace@ + (if old(self).alias_hook_registered(h) {
                seq![
                    (TraceEvent::AliasDelta { capture: old(self).callable(h).capture, delta }),
                ]
            } else {
                Seq::<TraceEvent>::empty()
            }),
    {
        let rec: Callable = self.callables[h].unwrap();
        self.forward_alias_delta(rec.capture_table, rec.capture, delta);
    }

    /// Whether `h` designates a live callable.
    pub fn is_live(&self, h: usize) -> (b: bool)
        ensures
            b == self.live(h),
    {
        h < self.callables.len() && self.callables[h].is_some()
    }

    /// The strong count of a live callable.
    pub fn strong_count(&self, h: usize) -> (n: u32)
        requires
            self.live(h),
        ensures
            n == self.callable(h).strong_count,
    {
        self.callables[h].unwrap().strong_count
    }

    /// The alias count of a live callable.
    pub fn alias_count(&self, h: usize) -> (n: u32)
        requires
            self.live(h),
        ensures
            n == self.callable(h).alias_count,
    {
        self.callables[h].unwrap().alias_count
    }

    /// The adjoint parity of a live callable.
    pub fn is_adjoint(&self, h: usize) -> (b: bool)
        requires
            self.live(h),
        ensures
            b == self.callable(h).is_adjoint,
    {
        self.callables[h].unwrap().is_adjoint
    }

    /// The controlled depth of a live callable.
    pub fn controlled_depth(&self, h: usize) -> (n: u32)
        requires
            self.live(h),
        ensures
            n == self.callable(h).controlled_depth,
    {
        self.callables[h].unwrap().controlled_depth
    }
}

} // verus!
