use std::cell::Cell;
use std::rc::Rc;

use wait_free::{
    fast_path_verdict, CasState, Contention, ContentionMeasure, FastPathStep, HelpStep,
    NormalizedLockFree, OperationRecord, OperationState, VersionedCas, WaitFreeSimulator,
};

/// A compare-and-set whose behaviour is scripted: executing it leaves its
/// mark when `lands` is set, and reports contention when `contended` is set.
#[derive(Clone)]
struct ScriptedCas {
    state: Rc<Cell<CasState>>,
    modified: Rc<Cell<bool>>,
    lands: bool,
    contended: bool,
    cleared: Rc<Cell<u32>>,
}

impl ScriptedCas {
    fn new(state: CasState, lands: bool, contended: bool) -> Self {
        ScriptedCas {
            state: Rc::new(Cell::new(state)),
            modified: Rc::new(Cell::new(false)),
            lands,
            contended,
            cleared: Rc::new(Cell::new(0)),
        }
    }
}

impl VersionedCas for ScriptedCas {
    fn execute(&self, _contention: &mut ContentionMeasure) -> Result<bool, Contention> {
        if self.contended {
            return Err(Contention);
        }
        self.modified.set(self.lands);
        Ok(self.lands)
    }

    fn has_modified_bit(&self) -> bool {
        self.modified.get()
    }

    fn clear_bit(&self) -> bool {
        self.cleared.set(self.cleared.get() + 1);
        let was = self.modified.get();
        self.modified.set(false);
        was
    }

    fn state(&self) -> CasState {
        self.state.get()
    }

    fn set_state(&self, new: CasState) {
        self.state.set(new);
    }
}

/// An algorithm whose fast path succeeds on a chosen attempt, and whose slow
/// path completes with the sum of the input and the number of descriptors.
struct Scripted {
    fast_successes_after: u32,
    fast_attempts: Cell<u32>,
    generate_contended: bool,
    wrap_up_restarts: bool,
    descriptors: Vec<ScriptedCas>,
}

impl Scripted {
    fn new(fast_successes_after: u32) -> Self {
        Scripted {
            fast_successes_after,
            fast_attempts: Cell::new(0),
            generate_contended: false,
            wrap_up_restarts: false,
            descriptors: Vec::new(),
        }
    }
}

impl NormalizedLockFree for Scripted {
    type Input = u64;
    type Output = u64;
    type Cas = ScriptedCas;

    fn generate(
        &self,
        _op: &u64,
        _contention: &mut ContentionMeasure,
    ) -> Result<Vec<ScriptedCas>, Contention> {
        if self.generate_contended {
            Err(Contention)
        } else {
            Ok(self.descriptors.clone())
        }
    }

    fn wrap_up(
        &self,
        executed: Result<(), usize>,
        performed: &Vec<ScriptedCas>,
        _contention: &mut ContentionMeasure,
    ) -> Result<Option<u64>, Contention> {
        if self.wrap_up_restarts {
            return Ok(None);
        }
        match executed {
            Ok(()) => Ok(Some(100 + performed.len() as u64)),
            Err(i) => Ok(Some(i as u64)),
        }
    }

    fn fast_path(
        &self,
        op: &u64,
        _contention: &mut ContentionMeasure,
    ) -> Result<Option<u64>, Contention> {
        let n = self.fast_attempts.get() + 1;
        self.fast_attempts.set(n);
        if n >= self.fast_successes_after {
            Ok(Some(*op * 2))
        } else if n % 2 == 0 {
            Err(Contention)
        } else {
            Ok(None)
        }
    }
}

#[test]
fn fast_path_verdict_values() {
    assert!(matches!(fast_path_verdict(0, Ok(Some(7u8))), FastPathStep::Done(7)));
    assert!(matches!(fast_path_verdict(5, Ok(Some(7u8))), FastPathStep::Done(7)));
    assert!(matches!(fast_path_verdict::<u8>(0, Ok(None)), FastPathStep::Retry));
    assert!(matches!(fast_path_verdict::<u8>(2, Err(Contention)), FastPathStep::Retry));
    assert!(matches!(fast_path_verdict::<u8>(3, Ok(None)), FastPathStep::SlowPath));
    assert!(matches!(fast_path_verdict::<u8>(3, Err(Contention)), FastPathStep::SlowPath));
}

#[test]
fn fast_path_result_is_returned() {
    let sim = WaitFreeSimulator::new(Scripted::new(1));
    assert_eq!(sim.run_fast_path(&21), Some(42));
}

#[test]
fn fast_path_is_retried_until_it_succeeds() {
    let sim = WaitFreeSimulator::new(Scripted::new(4));
    assert_eq!(sim.run_fast_path(&5), Some(10));
}

#[test]
fn fast_path_gives_up_after_four_attempts() {
    let algorithm = Scripted::new(5);
    let sim = WaitFreeSimulator::new(algorithm);
    assert_eq!(sim.run_fast_path(&5), None);
}

#[test]
fn executor_of_no_descriptors_succeeds() {
    let sim = WaitFreeSimulator::new(Scripted::new(1));
    let mut c = ContentionMeasure::new();
    assert!(matches!(sim.cas_executor(&Vec::new(), &mut c), Ok(Ok(()))));
}

#[test]
fn executor_clears_successful_and_lands_pending() {
    let sim = WaitFreeSimulator::new(Scripted::new(1));
    let done = ScriptedCas::new(CasState::Success, false, false);
    let pending = ScriptedCas::new(CasState::Pending, true, false);
    let list = vec![done.clone(), pending.clone()];
    let mut c = ContentionMeasure::new();
    assert!(matches!(sim.cas_executor(&list, &mut c), Ok(Ok(()))));
    assert_eq!(done.cleared.get(), 1);
    assert_eq!(pending.state.get(), CasState::Success);
    assert_eq!(pending.cleared.get(), 1);
    assert!(!pending.modified.get());
}

#[test]
fn executor_stops_at_failed_descriptor() {
    let sim = WaitFreeSimulator::new(Scripted::new(1));
    let after = ScriptedCas::new(CasState::Pending, true, false);
    let list = vec![
        ScriptedCas::new(CasState::Success, false, false),
        ScriptedCas::new(CasState::Failure, false, false),
        after.clone(),
    ];
    let mut c = ContentionMeasure::new();
    assert!(matches!(sim.cas_executor(&list, &mut c), Ok(Err(1))));
    assert_eq!(after.state.get(), CasState::Pending);
}

#[test]
fn executor_marks_unlanded_pending_as_failed() {
    let sim = WaitFreeSimulator::new(Scripted::new(1));
    let pending = ScriptedCas::new(CasState::Pending, false, false);
    let list = vec![pending.clone()];
    let mut c = ContentionMeasure::new();
    assert!(matches!(sim.cas_executor(&list, &mut c), Ok(Err(0))));
    assert_eq!(pending.state.get(), CasState::Failure);
}

#[test]
fn executor_passes_contention_on() {
    let sim = WaitFreeSimulator::new(Scripted::new(1));
    let list = vec![ScriptedCas::new(CasState::Pending, true, true)];
    let mut c = ContentionMeasure::new();
    assert!(sim.cas_executor(&list, &mut c).is_err());
}

fn installed(step: HelpStep<Scripted>) -> OperationRecord<Scripted> {
    match step {
        HelpStep::Install(record) => record,
        HelpStep::Finished => panic!("expected a new record, the operation finished"),
        HelpStep::Retry => panic!("expected a new record, the step was retried"),
    }
}

#[test]
fn helping_walks_an_operation_to_completion() {
    let mut algorithm = Scripted::new(1);
    algorithm.descriptors = vec![
        ScriptedCas::new(CasState::Pending, true, false),
        ScriptedCas::new(CasState::Pending, true, false),
    ];
    let sim = WaitFreeSimulator::new(algorithm);
    let record = OperationRecord::<Scripted>::new(9);
    assert!(matches!(record.state, OperationState::PreCas));
    assert!(!record.state.is_completed());

    let record = installed(sim.help_step(&record));
    assert_eq!(record.input, 9);
    assert!(matches!(&record.state, OperationState::ExecuteCas(list) if list.len() == 2));

    let record = installed(sim.help_step(&record));
    assert_eq!(record.input, 9);
    assert!(matches!(&record.state, OperationState::PostCas(list, Ok(())) if list.len() == 2));

    let record = installed(sim.help_step(&record));
    assert!(matches!(record.state, OperationState::Completed(102)));
    assert!(record.state.is_completed());

    assert!(matches!(sim.help_step(&record), HelpStep::Finished));
}

#[test]
fn failed_execution_is_reported_to_wrap_up() {
    let mut algorithm = Scripted::new(1);
    algorithm.descriptors = vec![
        ScriptedCas::new(CasState::Pending, true, false),
        ScriptedCas::new(CasState::Pending, false, false),
    ];
    let sim = WaitFreeSimulator::new(algorithm);
    let record = installed(sim.help_step(&OperationRecord::<Scripted>::new(1)));
    let record = installed(sim.help_step(&record));
    assert!(matches!(&record.state, OperationState::PostCas(_, Err(1))));
    let record = installed(sim.help_step(&record));
    assert!(matches!(record.state, OperationState::Completed(1)));
}

#[test]
fn contended_generation_is_retried() {
    let mut algorithm = Scripted::new(1);
    algorithm.generate_contended = true;
    let sim = WaitFreeSimulator::new(algorithm);
    let record = OperationRecord::<Scripted>::new(3);
    assert!(matches!(sim.help_step(&record), HelpStep::Retry));
}

#[test]
fn contended_execution_is_retried() {
    let sim = WaitFreeSimulator::new(Scripted::new(1));
    let record = OperationRecord::<Scripted> {
        input: 3,
        state: OperationState::ExecuteCas(vec![ScriptedCas::new(CasState::Pending, true, true)]),
    };
    assert!(matches!(sim.help_step(&record), HelpStep::Retry));
}

#[test]
fn wrap_up_without_result_restarts_the_operation() {
    let mut algorithm = Scripted::new(1);
    algorithm.wrap_up_restarts = true;
    let sim = WaitFreeSimulator::new(algorithm);
    let record = OperationRecord::<Scripted> {
        input: 4,
        state: OperationState::PostCas(Vec::new(), Ok(())),
    };
    let record = installed(sim.help_step(&record));
    assert_eq!(record.input, 4);
    assert!(matches!(record.state, OperationState::PreCas));
}

#[test]
fn step_functions_follow_their_outcomes() {
    let record = OperationRecord::<Scripted>::new(8);
    assert!(matches!(record.after_generate(Err(Contention)), HelpStep::Retry));
    let next = installed(record.after_generate(Ok(Vec::new())));
    assert!(matches!(&next.state, OperationState::ExecuteCas(list) if list.is_empty()));
    assert!(matches!(record.after_execute(&Vec::new(), Err(Contention)), HelpStep::Retry));
    let next = installed(record.after_execute(&Vec::new(), Ok(Err(3))));
    assert!(matches!(next.state, OperationState::PostCas(_, Err(3))));
    assert!(matches!(record.after_wrap_up(Err(Contention)), HelpStep::Retry));
    let next = installed(record.after_wrap_up(Ok(Some(5))));
    assert!(matches!(next.state, OperationState::Completed(5)));
    assert_eq!(next.input, 8);
    let next = installed(record.after_wrap_up(Ok(None)));
    assert!(matches!(next.state, OperationState::PreCas));
}

#[test]
fn cloned_record_keeps_input_and_phase() {
    let record = OperationRecord::<Scripted> {
        input: 6,
        state: OperationState::PostCas(vec![ScriptedCas::new(CasState::Success, false, false)], Err(0)),
    };
    let copy = record.clone();
    assert_eq!(copy.input, 6);
    assert!(matches!(&copy.state, OperationState::PostCas(list, Err(0)) if list.len() == 1));
    let done = OperationState::<Scripted>::Completed(11).clone();
    assert!(matches!(done, OperationState::Completed(11)));
}
