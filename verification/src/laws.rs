//! Properties that relate several operations of the library.
use vstd::laws_eq::obeys_concrete_eq;
use vstd::prelude::*;
use vstd::std_specs::cmp::PartialEqSpec;

use crate::atomic::{
    cas_state, contends, stored, versioned_cas_answer, versioned_cas_state, Versioned,
};
use crate::cas::{read_as, CasState, VersionedCas};
use crate::contention::{below_threshold, over_threshold, Contention, CONTENTION_THRESHOLD, RETRY_THRESHOLD};
use crate::simulator::{
    advances, attempted, executor_result, fast_path_answer, fast_path_may_give, succeeded,
    FastPathStep, NormalizedLockFree, OperationState, WaitFreeSimulator,
};

verus! {

/// Once `detected` has reported contention, every later call reports it too.
pub proof fn lemma_contention_persists(count: nat)
    requires
        !below_threshold(count),
    ensures
        !below_threshold(count + 1),
{
}

/// A measure that calls for the slow path has already made `detected`
/// report contention.
pub proof fn lemma_slow_path_after_contention(count: nat)
    requires
        over_threshold(count),
    ensures
        !below_threshold(count),
{
}

/// After a store of `v`, the register reads `v`.
pub proof fn lemma_read_after_set<T: PartialEq>(s: Versioned<T>, v: T)
    requires
        obeys_concrete_eq::<T>(),
    ensures
        stored(s, v).value == v,
{
    reveal(obeys_concrete_eq);
}

/// A store never lowers the version; it raises it by exactly one when, and
/// only when, the stored value differs from the current one.
pub proof fn lemma_set_version<T: PartialEq>(s: Versioned<T>, v: T)
    requires
        s.version < u64::MAX,
    ensures
        stored(s, v).version == s.version || stored(s, v).version == s.version + 1,
        stored(s, v).version == s.version <==> s.value.eq_spec(&v),
{
}

/// Storing the same value a second time changes nothing.
pub proof fn lemma_set_idempotent<T: PartialEq>(s: Versioned<T>, v: T)
    requires
        obeys_concrete_eq::<T>(),
    ensures
        stored(stored(s, v), v) == stored(s, v),
{
    reveal(obeys_concrete_eq);
}

/// A compare-and-set that does not find `expected` changes nothing.
pub proof fn lemma_cas_mismatch_keeps_state<T: PartialEq>(s: Versioned<T>, expected: T, value: T)
    requires
        !s.value.eq_spec(&expected),
    ensures
        cas_state(s, expected, value) == s,
{
}

/// A compare-and-set that finds `expected` acts as a store of `value`.
pub proof fn lemma_cas_match_is_set<T: PartialEq>(s: Versioned<T>, expected: T, value: T)
    requires
        obeys_concrete_eq::<T>(),
        s.value.eq_spec(&expected),
    ensures
        cas_state(s, expected, value) == stored(s, value),
{
    reveal(obeys_concrete_eq);
}

/// A versioned compare-and-set without a version is a plain compare-and-set:
/// same new state, no contention, and `Ok` of the same answer.
pub proof fn lemma_unversioned_cas_is_cas<T: PartialEq>(
    s: Versioned<T>,
    expected: T,
    value: T,
    count: nat,
)
    ensures
        versioned_cas_state(s, expected, value, None) == cas_state(s, expected, value),
        !contends(s, expected, None),
        versioned_cas_answer(s, expected, None, count) == Ok::<bool, Contention>(
            s.value.eq_spec(&expected),
        ),
{
}

/// A versioned compare-and-set with a stale version never changes the
/// register and never answers `Ok(true)`.
pub proof fn lemma_stale_version_keeps_state<T: PartialEq>(
    s: Versioned<T>,
    expected: T,
    value: T,
    version: u64,
    count: nat,
)
    requires
        version != s.version,
    ensures
        versioned_cas_state(s, expected, value, Some(version)) == s,
        versioned_cas_answer(s, expected, Some(version), count) != Ok::<bool, Contention>(true),
{
}

/// A completed operation never moves to another phase.
pub proof fn lemma_completed_is_final<LF: NormalizedLockFree>(
    output: LF::Output,
    to: OperationState<LF>,
)
    ensures
        !advances(OperationState::<LF>::Completed(output), to),
{
}

/// Once a measure calls for the slow path, it keeps calling for it after any
/// further contention.
pub proof fn lemma_slow_path_persists(count: nat)
    requires
        over_threshold(count),
    ensures
        over_threshold(count + 1),
{
}

/// A measure that has seen no more contention than the threshold does not
/// call for the slow path; one event more and it does.
pub proof fn lemma_slow_path_boundary(count: nat)
    ensures
        count <= CONTENTION_THRESHOLD ==> !over_threshold(count),
        over_threshold((CONTENTION_THRESHOLD + 1) as nat),
{
}

/// A versioned compare-and-set that finds a value other than `expected`
/// answers `Ok(false)`, leaves the register as it was and records no
/// contention, whatever version it is given.
pub proof fn lemma_versioned_cas_mismatch<T: PartialEq>(
    s: Versioned<T>,
    expected: T,
    value: T,
    version: Option<u64>,
    count: nat,
)
    requires
        !s.value.eq_spec(&expected),
    ensures
        versioned_cas_answer(s, expected, version, count) == Ok::<bool, Contention>(false),
        versioned_cas_state(s, expected, value, version) == s,
        !contends(s, expected, version),
{
}

/// When the executor answers that descriptor `i` failed, and every read of
/// that descriptor's state after an execution answers `Success`, the
/// descriptor must already have been read as `Failure` when the executor
/// reached it: a descriptor that reads `Success` after its execution is
/// never reported as failed by that execution.
pub proof fn lemma_success_after_execution_is_not_failure<C: VersionedCas>(
    list: Seq<C>,
    i: usize,
)
    requires
        executor_result(list, Ok(Err(i))),
        forall|s: CasState| #[trigger] read_as(list[i as int], true, s) ==> s == CasState::Success,
    ensures
        read_as(list[i as int], false, CasState::Failure),
{
}

/// A descriptor that reads `Pending` when the executor reaches it and
/// `Success` after its execution is never the index of a failure answer.
pub proof fn lemma_landed_pending_is_not_failure<C: VersionedCas>(list: Seq<C>, i: usize)
    requires
        i < list.len(),
        forall|s: CasState| #[trigger] read_as(list[i as int], false, s) ==> s == CasState::Pending,
        forall|s: CasState| #[trigger] read_as(list[i as int], true, s) ==> s == CasState::Success,
    ensures
        !executor_result(list, Ok(Err(i))),
{
    if executor_result(list, Ok(Err(i))) {
        lemma_success_after_execution_is_not_failure(list, i);
    }
}

/// A descriptor that reads `Failure` when the executor reaches it is never
/// counted as succeeded: the execution ends in contention, or reports a
/// failure at that descriptor or at an earlier one.
pub proof fn lemma_failed_descriptor_stops<C: VersionedCas>(
    list: Seq<C>,
    r: Result<Result<(), usize>, Contention>,
    i: int,
)
    requires
        executor_result(list, r),
        0 <= i < list.len(),
        forall|s: CasState| #[trigger] read_as(list[i], false, s) ==> s == CasState::Failure,
    ensures
        !succeeded(list[i]),
        r is Err || (r matches Ok(Err(k)) && k <= i),
{
    assert(!succeeded(list[i])) by {
        if read_as(list[i], false, CasState::Success) {
        }
        if read_as(list[i], false, CasState::Pending) {
        }
    }
}

/// Each fast-path attempt that is followed by a retry or by the slow path is
/// one where the algorithm's fast path, handed a fresh contention measure,
/// came back without a result, whether with `Ok(None)` or with contention;
/// an attempt followed by `Done(result)` is one where it came back with
/// `result`. Retries happen only within the budget, and the slow path only
/// after it.
pub proof fn lemma_attempt_outcome<LF: NormalizedLockFree>(
    simulator: WaitFreeSimulator<LF>,
    op: LF::Input,
    retry: usize,
    step: FastPathStep<LF::Output>,
)
    requires
        attempted(simulator, op, retry, step),
    ensures
        step is Retry ==> retry <= RETRY_THRESHOLD && exists|
            outcome: Result<Option<LF::Output>, Contention>,
        |
            !(outcome matches Ok(Some(_))) && #[trigger] fast_path_may_give(
                simulator.algorithm(),
                op,
                outcome,
            ),
        step is SlowPath ==> retry > RETRY_THRESHOLD && exists|
            outcome: Result<Option<LF::Output>, Contention>,
        |
            !(outcome matches Ok(Some(_))) && #[trigger] fast_path_may_give(
                simulator.algorithm(),
                op,
                outcome,
            ),
        step matches FastPathStep::Done(result) ==> fast_path_may_give(
            simulator.algorithm(),
            op,
            Ok(Some(result)),
        ),
{
}

/// The bounded fast path sends an operation to the slow path only after
/// `RETRY_THRESHOLD + 2` attempts, numbered `0` to `RETRY_THRESHOLD + 1`,
/// none of which gave a result.
pub proof fn lemma_slow_path_after_all_attempts<LF: NormalizedLockFree>(
    simulator: WaitFreeSimulator<LF>,
    op: LF::Input,
    k: usize,
)
    requires
        fast_path_answer(simulator, op, None),
        k < RETRY_THRESHOLD + 2,
    ensures
        exists|step: FastPathStep<LF::Output>|
            !(step is Done) && #[trigger] attempted(simulator, op, k, step),
{
    if k <= RETRY_THRESHOLD {
        assert(attempted(simulator, op, k, FastPathStep::Retry));
    } else {
        assert(attempted(simulator, op, k, FastPathStep::SlowPath));
    }
}

/// When the bounded fast path answers `Some(result)`, one of its first
/// `RETRY_THRESHOLD + 2` attempts gave `result`, and every attempt before it
/// was followed by a retry.
pub proof fn lemma_fast_path_result_is_first_result<LF: NormalizedLockFree>(
    simulator: WaitFreeSimulator<LF>,
    op: LF::Input,
    result: LF::Output,
)
    requires
        fast_path_answer(simulator, op, Some(result)),
    ensures
        exists|k: usize|
            k < RETRY_THRESHOLD + 2 && #[trigger] attempted(
                simulator,
                op,
                k,
                FastPathStep::Done(result),
            ),
        fast_path_may_give(simulator.algorithm(), op, Ok(Some(result))),
{
    let k = choose|k: usize|
        k <= RETRY_THRESHOLD + 1 && #[trigger] attempted(
            simulator,
            op,
            k,
            FastPathStep::Done(result),
        ) && forall|j: usize| j < k ==> #[trigger] attempted(simulator, op, j, FastPathStep::Retry);
    lemma_attempt_outcome(simulator, op, k, FastPathStep::Done(result));
}

} // verus!
