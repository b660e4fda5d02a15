//! Building blocks of a wait-free simulator for normalized lock-free
//! algorithms: a contention counter, a versioned compare-and-set register and
//! the helping state machine that drives an operation through its phases.
pub mod atomic;
pub mod cas;
pub mod contention;
pub mod laws;
pub mod simulator;

pub use atomic::{exchange_answer, Atomic, Versioned};
pub use cas::{CasState, VersionedCas};
pub use contention::{Contention, ContentionMeasure, CONTENTION_THRESHOLD, RETRY_THRESHOLD};
pub use simulator::{
    fast_path_verdict, FastPathStep, HelpStep, NormalizedLockFree, OperationRecord, OperationState,
    WaitFreeSimulator,
};
