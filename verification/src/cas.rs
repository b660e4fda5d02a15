use vstd::prelude::*;

use crate::contention::{Contention, ContentionMeasure};

verus! {

/// Where one compare-and-set of a commit descriptor stands.
#[derive(PartialEq, Eq, Structural, Clone, Copy, Debug)]
pub enum CasState {
    Success,
    Failure,
    Pending,
}

/// One compare-and-set of a commit descriptor, as an algorithm that is run by
/// the simulator provides it. Its state and its "modified" bit live inside
/// the object and change through shared references.
pub trait VersionedCas {
    /// Tries to perform the compare-and-set.
    fn execute(&self, contention: &mut ContentionMeasure) -> Result<bool, Contention>;

    /// Whether the compare-and-set has left its mark on the target.
    fn has_modified_bit(&self) -> bool;

    /// Removes the mark that the compare-and-set left on the target.
    fn clear_bit(&self) -> bool;

    /// The current state of the compare-and-set.
    fn state(&self) -> CasState;

    /// Records a new state for the compare-and-set.
    fn set_state(&self, new: CasState);
}

/// Whether `state` is an answer that `cas.state()` can give.
pub open spec fn reported_state<C: VersionedCas>(cas: C, state: CasState) -> bool {
    call_ensures(C::state, (&cas,), state)
}

/// Whether `cas.execute(..)` can come back reporting contention.
pub open spec fn execute_may_contend<C: VersionedCas>(cas: C) -> bool {
    exists|contention: &mut ContentionMeasure, outcome: Result<bool, Contention>|
        outcome is Err && #[trigger] call_ensures(C::execute, (&cas, contention), outcome)
}

/// Whether `cas.execute(..)` can come back without reporting contention.
pub open spec fn execute_may_succeed<C: VersionedCas>(cas: C) -> bool {
    exists|contention: &mut ContentionMeasure, outcome: Result<bool, Contention>|
        outcome is Ok && #[trigger] call_ensures(C::execute, (&cas, contention), outcome)
}

/// Whether `cas.set_state(state)` was called.
pub open spec fn marked<C: VersionedCas>(cas: C, state: CasState) -> bool {
    call_ensures(C::set_state, (&cas, state), ())
}

/// Whether `cas.clear_bit()` was called.
pub open spec fn cleared<C: VersionedCas>(cas: C) -> bool {
    exists|was: bool| #[trigger] call_ensures(C::clear_bit, (&cas,), was)
}

/// Whether `modified` is an answer that `cas.has_modified_bit()` can give.
pub open spec fn reported_modified<C: VersionedCas>(cas: C, modified: bool) -> bool {
    call_ensures(C::has_modified_bit, (&cas,), modified)
}

/// Reads the state of `cas` for an executor; `after_execution` tells whether
/// the executor has executed `cas` since it first read its state.
pub fn read_state<C: VersionedCas>(cas: &C, after_execution: bool) -> (state: CasState)
    ensures
        reported_state(*cas, state),
{
    cas.state()
}

/// Whether the executor's read of the state of `cas`, made before (`false`)
/// or after (`true`) executing it, can answer `state`.
pub open spec fn read_as<C: VersionedCas>(cas: C, after_execution: bool, state: CasState) -> bool {
    call_ensures(read_state::<C>, (&cas, after_execution), state)
}

} // verus!
