use vstd::prelude::*;

use crate::cas::{
    cleared, execute_may_contend, execute_may_succeed, marked, read_as, read_state, reported_modified,
    CasState, VersionedCas,
};
use crate::contention::{Contention, ContentionMeasure, RETRY_THRESHOLD};

verus! {

/// A lock-free algorithm in normalized form: a fast path, and a slow path made
/// of a generator of compare-and-set descriptors and a wrap-up that reads
/// what their execution did.
pub trait NormalizedLockFree {
    type Input: Clone;
    type Output: Clone;
    /// One compare-and-set of a commit descriptor.
    type Cas: VersionedCas + Clone;

    /// Produces the list of compare-and-sets that carry out `op`.
    fn generate(&self, op: &Self::Input, contention: &mut ContentionMeasure) -> Result<
        Vec<Self::Cas>,
        Contention,
    >;

    /// Decides, from the outcome of executing `performed`, whether the
    /// operation is done (`Some`) or must start over (`None`).
    fn wrap_up(
        &self,
        executed: Result<(), usize>,
        performed: &Vec<Self::Cas>,
        contention: &mut ContentionMeasure,
    ) -> Result<Option<Self::Output>, Contention>;

    /// Tries to carry out `op` the lock-free way.
    fn fast_path(&self, op: &Self::Input, contention: &mut ContentionMeasure) -> Result<
        Option<Self::Output>,
        Contention,
    >;
}

/// The phase an operation on the slow path is in.
pub enum OperationState<LF: NormalizedLockFree> {
    PreCas,
    ExecuteCas(Vec<LF::Cas>),
    PostCas(Vec<LF::Cas>, Result<(), usize>),
    Completed(LF::Output),
}

impl<LF: NormalizedLockFree> OperationState<LF> {
    /// Whether the operation has its result.
    pub fn is_completed(&self) -> (r: bool)
        ensures
            r == self is Completed,
    {
        matches!(self, OperationState::Completed(..))
    }
}

/// Whether `b` is, element by element, a clone of `a`.
pub open spec fn cloned_list<C: Clone>(a: Seq<C>, b: Seq<C>) -> bool {
    &&& a.len() == b.len()
    &&& forall|i: int| 0 <= i < a.len() ==> #[trigger] cloned(a[i], b[i])
}

/// Whether `b` is a clone of `a`: the same phase, with cloned contents.
pub open spec fn state_cloned<LF: NormalizedLockFree>(
    a: OperationState<LF>,
    b: OperationState<LF>,
) -> bool {
    match a {
        OperationState::PreCas => b is PreCas,
        OperationState::ExecuteCas(list) => b matches OperationState::ExecuteCas(copy)
            && cloned_list(list@, copy@),
        OperationState::PostCas(list, outcome) => b matches OperationState::PostCas(copy, o)
            && cloned_list(list@, copy@) && o == outcome,
        OperationState::Completed(result) => b matches OperationState::Completed(copy) && cloned(
            result,
            copy,
        ),
    }
}

impl<LF: NormalizedLockFree> Clone for OperationState<LF> {
    fn clone(&self) -> (r: Self)
        ensures
            state_cloned(*self, r),
    {
        match self {
            OperationState::PreCas => OperationState::PreCas,
            OperationState::ExecuteCas(list) => OperationState::ExecuteCas(list.clone()),
            OperationState::PostCas(list, outcome) => OperationState::PostCas(list.clone(), *outcome),
            OperationState::Completed(result) => OperationState::Completed(result.clone()),
        }
    }
}

/// The phases an operation may move to from `from` in one helping step:
/// descriptors are generated, then executed, then wrapped up, which either
/// completes the operation or sends it back to the start. A completed
/// operation never moves.
pub open spec fn advances<LF: NormalizedLockFree>(
    from: OperationState<LF>,
    to: OperationState<LF>,
) -> bool {
    match from {
        OperationState::PreCas => to is ExecuteCas,
        OperationState::ExecuteCas(list) => to matches OperationState::PostCas(performed, _)
            && cloned_list(list@, performed@),
        OperationState::PostCas(_, _) => to is Completed || to is PreCas,
        OperationState::Completed(_) => false,
    }
}

/// An operation on the slow path: its input and its phase.
pub struct OperationRecord<LF: NormalizedLockFree> {
    pub input: LF::Input,
    pub state: OperationState<LF>,
}

impl<LF: NormalizedLockFree> Clone for OperationRecord<LF> {
    fn clone(&self) -> (r: Self)
        ensures
            cloned(self.input, r.input),
            state_cloned(self.state, r.state),
    {
        OperationRecord { input: self.input.clone(), state: self.state.clone() }
    }
}

/// What one helping step asks of the one who holds the operation record.
pub enum HelpStep<LF: NormalizedLockFree> {
    /// The operation is complete: stop helping it.
    Finished,
    /// The step ran into contention: look at the record again.
    Retry,
    /// Put this record in place of the one that was looked at.
    Install(OperationRecord<LF>),
}

impl<LF: NormalizedLockFree> OperationRecord<LF> {
    /// A record for `input` that has not generated its descriptors yet.
    pub fn new(input: LF::Input) -> (r: Self)
        ensures
            r.input == input,
            r.state is PreCas,
    {
        OperationRecord { input, state: OperationState::PreCas }
    }

    /// The same operation in phase `state`.
    fn moved_to(&self, state: OperationState<LF>) -> (r: HelpStep<LF>)
        ensures
            r matches HelpStep::Install(n) && cloned(self.input, n.input) && n.state == state,
    {
        HelpStep::Install(OperationRecord { input: self.input.clone(), state })
    }

    /// The step that follows the generation of descriptors.
    pub fn after_generate(&self, generated: Result<Vec<LF::Cas>, Contention>) -> (r: HelpStep<LF>)
        ensures
            match generated {
                Ok(list) => r matches HelpStep::Install(n) && cloned(self.input, n.input)
                    && n.state == OperationState::<LF>::ExecuteCas(list),
                Err(_) => r is Retry,
            },
    {
        match generated {
            Ok(list) => self.moved_to(OperationState::ExecuteCas(list)),
            Err(_) => HelpStep::Retry,
        }
    }

    /// The step that follows the execution of `list`.
    pub fn after_execute(
        &self,
        list: &Vec<LF::Cas>,
        executed: Result<Result<(), usize>, Contention>,
    ) -> (r: HelpStep<LF>)
        ensures
            match executed {
                Ok(outcome) => r matches HelpStep::Install(n) && cloned(self.input, n.input)
                    && (n.state matches OperationState::PostCas(performed, o) && cloned_list(
                    list@,
                    performed@,
                ) && o == outcome),
                Err(_) => r is Retry,
            },
    {
        match executed {
            Ok(outcome) => {
                let performed = list.clone();
                self.moved_to(OperationState::PostCas(performed, outcome))
            },
            Err(_) => HelpStep::Retry,
        }
    }

    /// The step that follows the wrap-up.
    pub fn after_wrap_up(&self, wrapped: Result<Option<LF::Output>, Contention>) -> (r: HelpStep<
        LF,
    >)
        ensures
            match wrapped {
                Ok(Some(result)) => r matches HelpStep::Install(n) && cloned(self.input, n.input)
                    && n.state == OperationState::<LF>::Completed(result),
                Ok(None) => r matches HelpStep::Install(n) && cloned(self.input, n.input)
                    && n.state is PreCas,
                Err(_) => r is Retry,
            },
    {
        match wrapped {
            Ok(Some(result)) => self.moved_to(OperationState::Completed(result)),
            Ok(None) => self.moved_to(OperationState::PreCas),
            Err(_) => HelpStep::Retry,
        }
    }
}

/// Whether every descriptor of `list` before index `i` reported `Success`.
pub open spec fn succeeded_before<C: VersionedCas>(list: Seq<C>, i: int) -> bool {
    forall|j: int| 0 <= j < i ==> #[trigger] succeeded(list[j])
}

/// Whether, after executing a descriptor, the executor dealt with its mark:
/// it found none, or it found one, marked the descriptor `Success` and
/// cleared the mark.
pub open spec fn settled_mark<C: VersionedCas>(cas: C) -> bool {
    reported_modified(cas, false) || (reported_modified(cas, true) && marked(cas, CasState::Success)
        && cleared(cas))
}

/// Whether a descriptor ended in `Success`: it was first read as `Success`
/// and had its mark cleared, or it was first read as `Pending`, executed
/// without contention, had its mark dealt with, and was read as `Success`
/// after the execution.
pub open spec fn succeeded<C: VersionedCas>(cas: C) -> bool {
    ||| read_as(cas, false, CasState::Success) && cleared(cas)
    ||| read_as(cas, false, CasState::Pending) && execute_may_succeed(cas) && settled_mark(cas)
        && read_as(cas, true, CasState::Success)
}

/// Whether a descriptor failed in its execution: it was first read as
/// `Pending`, executed without contention, had its mark dealt with, was read
/// after the execution as something other than `Success`, and was marked
/// `Failure`.
pub open spec fn failed_after_execution<C: VersionedCas>(cas: C) -> bool {
    &&& read_as(cas, false, CasState::Pending)
    &&& execute_may_succeed(cas)
    &&& settled_mark(cas)
    &&& read_as(cas, true, CasState::Failure) || read_as(cas, true, CasState::Pending)
    &&& marked(cas, CasState::Failure)
}

/// Whether some descriptor of `list` before index `n` was first read as
/// `Pending`.
pub open spec fn pending_before<C: VersionedCas>(list: Seq<C>, n: int) -> bool {
    exists|k: int| 0 <= k < n && k < list.len() && #[trigger] read_as(list[k], false, CasState::Pending)
}

/// What an execution of `list` can answer: `Ok(Ok(()))` once every
/// descriptor reported `Success`; `Ok(Err(i))` when the descriptors before
/// `i` reported `Success` and descriptor `i` reported `Failure`, or reported
/// `Pending` and was executed; `Err` when the descriptors before some `i`
/// reported `Success`, descriptor `i` reported `Pending` and its execution
/// reported contention.
pub open spec fn executor_result<C: VersionedCas>(
    list: Seq<C>,
    r: Result<Result<(), usize>, Contention>,
) -> bool {
    match r {
        Ok(Ok(())) => succeeded_before(list, list.len() as int),
        Ok(Err(i)) => {
            &&& i < list.len()
            &&& succeeded_before(list, i as int)
            &&& read_as(list[i as int], false, CasState::Failure) || failed_after_execution(
                list[i as int],
            )
        },
        Err(_) => exists|i: int|
            {
                &&& 0 <= i < list.len()
                &&& succeeded_before(list, i)
                &&& read_as(list[i], false, CasState::Pending)
                &&& #[trigger] execute_may_contend(list[i])
            },
    }
}

/// The simulator that turns a normalized lock-free algorithm into a
/// wait-free one.
pub struct WaitFreeSimulator<LF: NormalizedLockFree> {
    algorithm: LF,
}

/// What one attempt on the fast path asks for next.
pub enum FastPathStep<O> {
    /// The fast path produced the result.
    Done(O),
    /// Try the fast path once more.
    Retry,
    /// The fast path is used up: go to the slow path.
    SlowPath,
}

/// Whether one call of the generator of `algorithm` on `op`, handed a fresh
/// contention measure, can come back with `outcome`.
pub open spec fn generate_may_give<LF: NormalizedLockFree>(
    algorithm: LF,
    op: LF::Input,
    outcome: Result<Vec<LF::Cas>, Contention>,
) -> bool {
    exists|contention: &mut ContentionMeasure|
        (*contention)@ == 0 && #[trigger] call_ensures(
            LF::generate,
            (&algorithm, &op, contention),
            outcome,
        )
}

/// Whether one call of the wrap-up of `algorithm` on `executed` and
/// `performed`, handed a fresh contention measure, can come back with
/// `outcome`.
pub open spec fn wrap_up_may_give<LF: NormalizedLockFree>(
    algorithm: LF,
    executed: Result<(), usize>,
    performed: Vec<LF::Cas>,
    outcome: Result<Option<LF::Output>, Contention>,
) -> bool {
    exists|contention: &mut ContentionMeasure|
        (*contention)@ == 0 && #[trigger] call_ensures(
            LF::wrap_up,
            (&algorithm, executed, &performed, contention),
            outcome,
        )
}

/// Whether one run of the executor of `simulator` on `list`, handed a fresh
/// contention measure, can come back with `outcome`.
pub open spec fn executor_may_give<LF: NormalizedLockFree>(
    simulator: WaitFreeSimulator<LF>,
    list: Vec<LF::Cas>,
    outcome: Result<Result<(), usize>, Contention>,
) -> bool {
    exists|contention: &mut ContentionMeasure|
        (*contention)@ == 0 && #[trigger] call_ensures(
            WaitFreeSimulator::<LF>::cas_executor,
            (&simulator, &list, contention),
            outcome,
        )
}

/// Whether one call of the fast path of `algorithm` on `op`, handed a fresh
/// contention measure, can come back with `outcome`.
pub open spec fn fast_path_may_give<LF: NormalizedLockFree>(
    algorithm: LF,
    op: LF::Input,
    outcome: Result<Option<LF::Output>, Contention>,
) -> bool {
    exists|contention: &mut ContentionMeasure|
        (*contention)@ == 0 && #[trigger] call_ensures(
            LF::fast_path,
            (&algorithm, &op, contention),
            outcome,
        )
}

/// The step that follows fast-path attempt number `retry` (counted from 0)
/// when that attempt came back with `outcome`.
pub open spec fn fast_path_step<O>(retry: usize, outcome: Result<Option<O>, Contention>) -> FastPathStep<O> {
    match outcome {
        Ok(Some(result)) => FastPathStep::Done(result),
        _ => if retry > RETRY_THRESHOLD {
            FastPathStep::SlowPath
        } else {
            FastPathStep::Retry
        },
    }
}

/// Whether `step` can follow fast-path attempt number `retry` of `algorithm`
/// on `op`: an outcome that the fast path, handed a fresh contention
/// measure, can give, read as the step that follows it.
pub open spec fn attempt_may_give<LF: NormalizedLockFree>(
    algorithm: LF,
    op: LF::Input,
    retry: usize,
    step: FastPathStep<LF::Output>,
) -> bool {
    exists|outcome: Result<Option<LF::Output>, Contention>|
        #[trigger] fast_path_may_give(algorithm, op, outcome) && step == fast_path_step(retry, outcome)
}

/// Whether the simulator made fast-path attempt number `retry` on `op` and
/// it was followed by `step`.
pub open spec fn attempted<LF: NormalizedLockFree>(
    simulator: WaitFreeSimulator<LF>,
    op: LF::Input,
    retry: usize,
    step: FastPathStep<LF::Output>,
) -> bool {
    call_ensures(WaitFreeSimulator::<LF>::fast_path_attempt, (&simulator, &op, retry), step)
}

/// What the bounded fast path of `simulator` on `op` answers: `Some(result)`
/// when some attempt `k` within the budget gave `result` and every attempt
/// before it was followed by a retry; `None` when attempts `0` to
/// `RETRY_THRESHOLD` were each followed by a retry and attempt
/// `RETRY_THRESHOLD + 1` sent the operation to the slow path.
pub open spec fn fast_path_answer<LF: NormalizedLockFree>(
    simulator: WaitFreeSimulator<LF>,
    op: LF::Input,
    r: Option<LF::Output>,
) -> bool {
    match r {
        Some(result) => exists|k: usize|
            k <= RETRY_THRESHOLD + 1 && #[trigger] attempted(
                simulator,
                op,
                k,
                FastPathStep::Done(result),
            ) && forall|j: usize| j < k ==> #[trigger] attempted(simulator, op, j, FastPathStep::Retry),
        None => {
            &&& forall|j: usize|
                j <= RETRY_THRESHOLD ==> #[trigger] attempted(simulator, op, j, FastPathStep::Retry)
            &&& attempted(simulator, op, (RETRY_THRESHOLD + 1) as usize, FastPathStep::SlowPath)
        },
    }
}

/// The step that follows fast-path attempt number `retry` (counted from 0).
pub fn fast_path_verdict<O>(retry: usize, outcome: Result<Option<O>, Contention>) -> (r:
    FastPathStep<O>)
    ensures
        match outcome {
            Ok(Some(result)) => r == FastPathStep::Done(result),
            _ => if retry > RETRY_THRESHOLD {
                r is SlowPath
            } else {
                r is Retry
            },
        },
        r == fast_path_step(retry, outcome),
{
    match outcome {
        Ok(Some(result)) => FastPathStep::Done(result),
        _ => if retry > RETRY_THRESHOLD {
            FastPathStep::SlowPath
        } else {
            FastPathStep::Retry
        },
    }
}

impl<LF: NormalizedLockFree> WaitFreeSimulator<LF> {
    /// A simulator that runs `algorithm`.
    pub fn new(algorithm: LF) -> (s: Self)
        ensures
            s.algorithm() == algorithm,
    {
        WaitFreeSimulator { algorithm }
    }

    /// The algorithm that the simulator runs.
    pub closed spec fn algorithm(&self) -> LF {
        self.algorithm
    }

    /// Executes the compare-and-sets of `descriptors` in order.
    ///
    /// A descriptor already in `Success` only has its mark cleared; one in
    /// `Failure` stops the execution at its index; a pending one is executed,
    /// turned into `Success` when it left its mark, and otherwise into
    /// `Failure`, which stops the execution at its index. Contention during
    /// an execution is passed on as `Err`.
    pub fn cas_executor(
        &self,
        descriptors: &Vec<LF::Cas>,
        contention: &mut ContentionMeasure,
    ) -> (r: Result<Result<(), usize>, Contention>)
        ensures
            executor_result(descriptors@, r),
            *final(contention) != *old(contention) ==> match r {
                Ok(Ok(())) => pending_before(descriptors@, descriptors.len() as int),
                Ok(Err(i)) => pending_before(descriptors@, i + 1),
                Err(_) => true,
            },
    {
        let n = descriptors.len();
        let mut i: usize = 0;
        while i < n
            invariant
                n == descriptors.len(),
                i <= n,
                succeeded_before(descriptors@, i as int),
                *contention != *old(contention) ==> pending_before(descriptors@, i as int),
            decreases n - i,
        {
            let cas = &descriptors[i];
            match read_state(cas, false) {
                CasState::Success => {
                    let _was = cas.clear_bit();
                    assert(cleared(*cas));
                },
                CasState::Failure => {
                    return Ok(Err(i));
                },
                CasState::Pending => {
                    assert(read_as(descriptors@[i as int], false, CasState::Pending));
                    match cas.execute(contention) {
                        Ok(_) => {},
                        Err(e) => {
                            assert(execute_may_contend(descriptors@[i as int]));
                            return Err(e);
                        },
                    }
                    if cas.has_modified_bit() {
                        cas.set_state(CasState::Success);
                        let _was = cas.clear_bit();
                        assert(cleared(*cas));
                    }
                    if read_state(cas, true) != CasState::Success {
                        cas.set_state(CasState::Failure);
                        return Ok(Err(i));
                    }
                },
            }
            assert(succeeded(descriptors@[i as int]));
            i = i + 1;
        }
        Ok(Ok(()))
    }

    /// One step of helping the operation in `record` along: the work of its
    /// current phase, done with a fresh contention measure. The generator
    /// gets the record's input, the executor the stored list, and the wrap-up
    /// the stored outcome and list; contention sends the helper back to
    /// `Retry`, any other answer becomes the next record.
    pub fn help_step(&self, record: &OperationRecord<LF>) -> (r: HelpStep<LF>)
        ensures
            r is Finished <==> record.state is Completed,
            r matches HelpStep::Install(n) ==> cloned(record.input, n.input) && advances(
                record.state,
                n.state,
            ),
            match record.state {
                OperationState::PreCas => {
                    &&& r is Retry ==> exists|e: Contention|
                        #[trigger] generate_may_give(self.algorithm(), record.input, Err(e))
                    &&& r matches HelpStep::Install(n) ==> (n.state matches OperationState::ExecuteCas(
                        list,
                    ) && generate_may_give(self.algorithm(), record.input, Ok(list)))
                },
                OperationState::ExecuteCas(list) => {
                    &&& r is Retry ==> exists|e: Contention|
                        #[trigger] executor_may_give(*self, list, Err(e))
                    &&& r matches HelpStep::Install(n) ==> (n.state matches OperationState::PostCas(
                        _,
                        outcome,
                    ) && executor_may_give(*self, list, Ok(outcome)))
                },
                OperationState::PostCas(list, executed) => {
                    &&& r is Retry ==> exists|e: Contention|
                        #[trigger] wrap_up_may_give(self.algorithm(), executed, list, Err(e))
                    &&& r matches HelpStep::Install(n) ==> ((n.state matches OperationState::Completed(
                        result,
                    ) && wrap_up_may_give(self.algorithm(), executed, list, Ok(Some(result))))
                        || (n.state is PreCas && wrap_up_may_give(
                        self.algorithm(),
                        executed,
                        list,
                        Ok(None),
                    )))
                },
                OperationState::Completed(_) => true,
            },
    {
        match &record.state {
            OperationState::Completed(..) => HelpStep::Finished,
            OperationState::PreCas => {
                let mut contention = ContentionMeasure::new();
                let generated = self.algorithm.generate(&record.input, &mut contention);
                proof {
                    assert(generate_may_give(self.algorithm(), record.input, generated));
                    if generated is Err {
                        assert(generate_may_give(self.algorithm(), record.input, Err(generated->Err_0)));
                    }
                }
                record.after_generate(generated)
            },
            OperationState::ExecuteCas(list) => {
                let mut contention = ContentionMeasure::new();
                let executed = self.cas_executor(list, &mut contention);
                proof {
                    assert(executor_may_give(*self, *list, executed));
                    if executed is Err {
                        assert(executor_may_give(*self, *list, Err(executed->Err_0)));
                    }
                }
                record.after_execute(list, executed)
            },
            OperationState::PostCas(list, outcome) => {
                let mut contention = ContentionMeasure::new();
                let wrapped = self.algorithm.wrap_up(*outcome, list, &mut contention);
                proof {
                    assert(wrap_up_may_give(self.algorithm(), *outcome, *list, wrapped));
                    if wrapped is Err {
                        assert(wrap_up_may_give(self.algorithm(), *outcome, *list, Err(wrapped->Err_0)));
                    }
                }
                record.after_wrap_up(wrapped)
            },
        }
    }

    /// Fast-path attempt number `retry` (counted from 0): one call of the
    /// algorithm's fast path with a fresh contention measure, and the step
    /// that follows it.
    pub fn fast_path_attempt(&self, op: &LF::Input, retry: usize) -> (step: FastPathStep<LF::Output>)
        ensures
            attempt_may_give(self.algorithm(), *op, retry, step),
    {
        let mut contention = ContentionMeasure::new();
        let outcome = self.algorithm.fast_path(op, &mut contention);
        let ghost seen = outcome;
        let step = fast_path_verdict(retry, outcome);
        assert(fast_path_may_give(self.algorithm(), *op, seen));
        step
    }

    /// Tries the fast path of the algorithm, each time with a fresh
    /// contention measure, until it produces the result or
    /// `RETRY_THRESHOLD + 2` attempts have failed; `None` then says that the
    /// operation must take the slow path.
    pub fn run_fast_path(&self, op: &LF::Input) -> (r: Option<LF::Output>)
        ensures
            r matches Some(result) ==> fast_path_may_give(
                self.algorithm(),
                *op,
                Ok(Some(result)),
            ),
            r is None ==> exists|outcome: Result<Option<LF::Output>, Contention>|
                !(outcome matches Ok(Some(_))) && #[trigger] fast_path_may_give(
                    self.algorithm(),
                    *op,
                    outcome,
                ),
            fast_path_answer(*self, *op, r),
    {
        let mut retry: usize = 0;
        loop
            invariant
                retry <= RETRY_THRESHOLD + 1,
                forall|j: usize| j < retry ==> #[trigger] attempted(*self, *op, j, FastPathStep::Retry),
            decreases RETRY_THRESHOLD + 1 - retry,
        {
            let step = self.fast_path_attempt(op, retry);
            match step {
                FastPathStep::Done(result) => {
                    assert(attempted(*self, *op, retry, FastPathStep::Done(result)));
                    return Some(result);
                },
                FastPathStep::Retry => {
                    assert(attempted(*self, *op, retry, FastPathStep::Retry));
                    retry = retry + 1;
                },
                FastPathStep::SlowPath => {
                    assert(attempted(*self, *op, retry, FastPathStep::SlowPath));
                    return None;
                },
            }
        }
    }

}

} // verus!
