//! The four dispatch variants of a callable and the rule that selects one
//! from the callable's accumulated transform state.

use vstd::prelude::*;

verus! {

/// One of the four operation variants a callable can dispatch to.
///
/// A callable's function table holds one callback per variant; an
/// invocation runs exactly one of them, selected from the adjoint parity
/// and the controlled depth accumulated so far.
#[derive(Clone, Copy, PartialEq, Eq, Structural, Debug)]
pub enum DispatchVariant {
    Base,
    Adjoint,
    Controlled,
    ControlledAdjoint,
}

impl DispatchVariant {
    /// Position of this variant's slot in a function table: 0 through 3.
    pub open spec fn index(self) -> int {
        match self {
            DispatchVariant::Base => 0,
            DispatchVariant::Adjoint => 1,
            DispatchVariant::Controlled => 2,
            DispatchVariant::ControlledAdjoint => 3,
        }
    }

    /// Executable slot position, equal to the specification-level `index`.
    pub fn slot_index(self) -> (i: usize)
        ensures
            i == self.index(),
    {
        match self {
            DispatchVariant::Base => 0,
            DispatchVariant::Adjoint => 1,
            DispatchVariant::Controlled => 2,
            DispatchVariant::ControlledAdjoint => 3,
        }
    }
}

/// The selection rule: the adjoint flag picks between a plain and an
/// adjoint slot, and a positive controlled depth moves to the controlled
/// pair.  Only the *presence* of controlled wrappers matters for slot
/// selection, not how many there are.
pub open spec fn spec_selected_variant(is_adjoint: bool, controlled_depth: u32) -> DispatchVariant {
    if controlled_depth > 0 {
        if is_adjoint {
            DispatchVariant::ControlledAdjoint
        } else {
            DispatchVariant::Controlled
        }
    } else {
        if is_adjoint {
            DispatchVariant::Adjoint
        } else {
            DispatchVariant::Base
        }
    }
}

/// Executable variant selection, equal to `spec_selected_variant`.
pub fn selected_variant(is_adjoint: bool, controlled_depth: u32) -> (v: DispatchVariant)
    ensures
        v == spec_selected_variant(is_adjoint, controlled_depth),
{
    if controlled_depth > 0 {
        if is_adjoint {
            DispatchVariant::ControlledAdjoint
        } else {
            DispatchVariant::Controlled
        }
    } else {
        if is_adjoint {
            DispatchVariant::Adjoint
        } else {
            DispatchVariant::Base
        }
    }
}

/// The selected slot position is exactly the adjoint parity plus twice the
/// controlled-depth presence: (false, 0) -> 0, (true, 0) -> 1,
/// (false, d > 0) -> 2, (true, d > 0) -> 3.
pub proof fn lemma_selected_slot(is_adjoint: bool, controlled_depth: u32)
    ensures
        spec_selected_variant(is_adjoint, controlled_depth).index() == (if is_adjoint {
            1int
        } else {
            0int
        }) + (if controlled_depth > 0 {
            2int
        } else {
            0int
        }),
{
}

/// The adjoint flag after `n` adjoint transforms of a freshly created
/// callable, whose flag starts out false and is negated by each transform.
pub open spec fn adjoint_after(n: nat) -> bool
    decreases n,
{
    if n == 0 {
        false
    } else {
        !adjoint_after((n - 1) as nat)
    }
}

/// Adjoint transforms have parity semantics: after any sequence of `n` of
/// them the flag is set exactly when `n` is odd, so applying one twice is
/// the same as not applying it at all.
pub proof fn lemma_adjoint_parity(n: nat)
    ensures
        adjoint_after(n) == (n % 2 == 1),
    decreases n,
{
    if n > 0 {
        lemma_adjoint_parity((n - 1) as nat);
    }
}

/// The controlled depth after `n` controlled transforms of a freshly
/// created callable, whose depth starts out zero and is raised by one by
/// each transform.
pub open spec fn depth_after(n: nat) -> nat
    decreases n,
{
    if n == 0 {
        0
    } else {
        depth_after((n - 1) as nat) + 1
    }
}

/// Controlled transforms accumulate: after any sequence of `n` of them the
/// depth is exactly `n`; no operation of this model ever lowers it.
pub proof fn lemma_controlled_depth(n: nat)
    ensures
        depth_after(n) == n,
    decreases n,
{
    if n > 0 {
        lemma_controlled_depth((n - 1) as nat);
    }
}

} // verus!
