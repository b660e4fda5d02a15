use vstd::prelude::*;

verus! {

/// Number of contention events after which an operation gives up on its
/// current attempt.
pub const CONTENTION_THRESHOLD: usize = 2;

/// Number of fast-path retries before an operation switches to the slow path.
pub const RETRY_THRESHOLD: usize = 2;

/// Counts how often an operation has run into contention.
pub struct ContentionMeasure(usize);

/// Signals that an operation ran into too much contention and must back off.
pub struct Contention;

impl View for ContentionMeasure {
    type V = nat;

    closed spec fn view(&self) -> nat {
        self.0 as nat
    }
}

/// Whether a count of contention events still lets the current attempt go on.
pub open spec fn below_threshold(count: nat) -> bool {
    count < CONTENTION_THRESHOLD
}

/// Whether a count of contention events sends the operation to the slow path.
pub open spec fn over_threshold(count: nat) -> bool {
    count > CONTENTION_THRESHOLD
}

impl ContentionMeasure {
    /// A measure that has seen no contention yet.
    pub fn new() -> (m: Self)
        ensures
            m@ == 0,
    {
        ContentionMeasure(0)
    }

    /// Records one more contention event; fails once the threshold is reached.
    pub fn detected(&mut self) -> (r: Result<(), Contention>)
        requires
            old(self)@ < usize::MAX,
        ensures
            final(self)@ == old(self)@ + 1,
            r is Ok <==> below_threshold(final(self)@),
    {
        self.0 = self.0 + 1;
        if self.0 < CONTENTION_THRESHOLD {
            Ok(())
        } else {
            Err(Contention)
        }
    }

    /// Whether so much contention was seen that the slow path should be taken.
    pub fn use_slow_path(&self) -> (r: bool)
        ensures
            r == over_threshold(self@),
            r <==> self@ > CONTENTION_THRESHOLD,
    {
        self.0 > CONTENTION_THRESHOLD
    }
}

} // verus!
