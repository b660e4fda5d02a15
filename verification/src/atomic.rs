use vstd::prelude::*;

use vstd::std_specs::cmp::PartialEqSpec;

use crate::contention::{below_threshold, Contention, ContentionMeasure};

verus! {

/// A value together with the number of changes that led to it.
#[derive(Clone, Copy)]
pub struct Versioned<T> {
    pub version: u64,
    pub value: T,
}

/// The state that follows `s` when `value` replaces its value: one version later.
pub open spec fn bumped<T>(s: Versioned<T>, value: T) -> Versioned<T> {
    Versioned { version: (s.version + 1) as u64, value }
}

/// The state after storing `new`: unchanged when `new` equals the current
/// value, otherwise one version later and holding `new`.
pub open spec fn stored<T: PartialEq>(s: Versioned<T>, new: T) -> Versioned<T> {
    if s.value.eq_spec(&new) {
        s
    } else {
        bumped(s, new)
    }
}

/// Whether a compare-and-set from `expected` to `value` creates a new version.
pub open spec fn cas_replaces<T: PartialEq>(s: Versioned<T>, expected: T, value: T) -> bool {
    s.value.eq_spec(&expected) && !expected.eq_spec(&value)
}

/// The state after a compare-and-set from `expected` to `value`.
pub open spec fn cas_state<T: PartialEq>(s: Versioned<T>, expected: T, value: T) -> Versioned<T> {
    if cas_replaces(s, expected, value) {
        bumped(s, value)
    } else {
        s
    }
}

/// Whether `version` names a version other than the current one.
pub open spec fn stale_version<T>(s: Versioned<T>, version: Option<u64>) -> bool {
    version is Some && version->0 != s.version
}

/// Whether a versioned compare-and-set finds `expected` but a stale version,
/// and so records a contention.
pub open spec fn contends<T: PartialEq>(s: Versioned<T>, expected: T, version: Option<u64>) -> bool {
    s.value.eq_spec(&expected) && stale_version(s, version)
}

/// The state after a versioned compare-and-set: unchanged when the value
/// differs from `expected` or the version is stale, otherwise as after a
/// compare-and-set.
pub open spec fn versioned_cas_state<T: PartialEq>(
    s: Versioned<T>,
    expected: T,
    value: T,
    version: Option<u64>,
) -> Versioned<T> {
    if contends(s, expected, version) {
        s
    } else {
        cas_state(s, expected, value)
    }
}

/// The answer of a versioned compare-and-set, where `count` is the number of
/// contention events recorded once it is done.
pub open spec fn versioned_cas_answer<T: PartialEq>(
    s: Versioned<T>,
    expected: T,
    version: Option<u64>,
    count: nat,
) -> Result<bool, Contention> {
    if !s.value.eq_spec(&expected) {
        Ok(false)
    } else if stale_version(s, version) {
        if below_threshold(count) {
            Ok(false)
        } else {
            Err(Contention)
        }
    } else {
        Ok(true)
    }
}

/// The answer of a versioned compare-and-set once its exchange has been
/// tried: `Ok(true)` when the exchange took place; a lost race is counted as
/// contention and answers `Ok(false)`, or `Err(Contention)` once the
/// contention threshold is reached.
pub fn exchange_answer(exchanged: bool, contention: &mut ContentionMeasure) -> (r: Result<
    bool,
    Contention,
>)
    requires
        !exchanged ==> old(contention)@ < usize::MAX,
    ensures
        exchanged ==> r == Ok::<bool, Contention>(true) && final(contention)@ == old(contention)@,
        !exchanged ==> final(contention)@ == old(contention)@ + 1 && r == if below_threshold(
            final(contention)@,
        ) {
            Ok::<bool, Contention>(false)
        } else {
            Err(Contention)
        },
{
    if exchanged {
        Ok(true)
    } else {
        match contention.detected() {
            Ok(()) => Ok(false),
            Err(e) => Err(e),
        }
    }
}

/// A register that keeps, beside its value, a version number that grows by
/// one with every change of the value.
/// Changes go through `&mut self`: the holder of the register changes it alone.
pub struct Atomic<T>(Versioned<T>);

impl<T> View for Atomic<T> {
    type V = Versioned<T>;

    closed spec fn view(&self) -> Versioned<T> {
        self.0
    }
}

impl<T> Atomic<T> where T: PartialEq + Eq + Copy {
    /// A register holding `initial` at version 0.
    pub fn new(initial: T) -> (a: Self)
        ensures
            a@ == (Versioned { version: 0, value: initial }),
    {
        Atomic(Versioned { version: 0, value: initial })
    }

    /// Calls `f` with the current value and its version and returns what `f` returns.
    pub fn with<F, R>(&self, f: F) -> (r: R) where F: FnOnce(&T, u64) -> R
        requires
            f.requires((&self@.value, self@.version)),
        ensures
            f.ensures((&self@.value, self@.version), r),
    {
        let this = self.get();
        f(&this.value, this.version)
    }

    /// The current value and its version.
    pub fn get(&self) -> (r: &Versioned<T>)
        ensures
            *r == self@,
    {
        &self.0
    }

    /// The current value.
    pub fn value(&self) -> (r: &T)
        ensures
            *r == self@.value,
    {
        &self.get().value
    }

    /// Stores `new`; the version grows by one unless `new` equals the current value.
    pub fn set(&mut self, new: T)
        requires
            old(self)@.version < u64::MAX || (T::obeys_eq_spec() && old(self)@.value.eq_spec(&new)),
        ensures
            final(self)@ == old(self)@ || final(self)@ == bumped(old(self)@, new),
            T::obeys_eq_spec() ==> final(self)@ == stored(old(self)@, new),
    {
        let this = *self.get();
        if this.value != new {
            self.0 = Versioned { version: this.version + 1, value: new };
        }
    }

    /// Replaces the value by `value` when it equals `expected`, and reports
    /// whether it did equal `expected`. The version grows by one only when
    /// the value actually changes.
    pub fn compare_and_set(&mut self, expected: &T, value: T) -> (r: bool)
        requires
            old(self)@.version < u64::MAX || (T::obeys_eq_spec() && !cas_replaces(
                old(self)@,
                *expected,
                value,
            )),
        ensures
            final(self)@ == old(self)@ || final(self)@ == bumped(old(self)@, value),
            T::obeys_eq_spec() ==> r == old(self)@.value.eq_spec(expected),
            T::obeys_eq_spec() ==> final(self)@ == cas_state(old(self)@, *expected, value),
    {
        let this = *self.get();
        if this.value == *expected {
            if *expected != value {
                self.0 = Versioned { version: this.version + 1, value };
            }
            true
        } else {
            false
        }
    }

    /// A compare-and-set that can also insist on the version it expects.
    ///
    /// When the value differs from `expected` nothing happens and the answer
    /// is `Ok(false)`. When a version is given and differs from the current
    /// one, the contention is recorded and the answer is `Ok(false)`, or
    /// `Err(Contention)` once the contention threshold is reached. Otherwise
    /// the value becomes `value` (a new version unless it already equals it)
    /// and the answer is `Ok(true)`.
    pub fn compare_and_set_versioned(
        &mut self,
        expected: &T,
        value: T,
        contention: &mut ContentionMeasure,
        version: Option<u64>,
    ) -> (r: Result<bool, Contention>)
        requires
            stale_version(old(self)@, version) && (!T::obeys_eq_spec() || old(
                self,
            )@.value.eq_spec(expected)) ==> old(contention)@ < usize::MAX,
            old(self)@.version < u64::MAX || stale_version(old(self)@, version) || (
            T::obeys_eq_spec() && !cas_replaces(
                old(self)@,
                *expected,
                value,
            )),
        ensures
            final(self)@ == old(self)@ || final(self)@ == bumped(old(self)@, value),
            final(contention)@ == old(contention)@ || final(contention)@ == old(contention)@ + 1,
            T::obeys_eq_spec() ==> final(self)@ == versioned_cas_state(
                old(self)@,
                *expected,
                value,
                version,
            ),
            T::obeys_eq_spec() ==> final(contention)@ == old(contention)@ + if contends(
                old(self)@,
                *expected,
                version,
            ) {
                1int
            } else {
                0int
            },
            T::obeys_eq_spec() && !old(self)@.value.eq_spec(expected) ==> {
                &&& r == Ok::<bool, Contention>(false)
                &&& final(self)@ == old(self)@
                &&& final(contention)@ == old(contention)@
            },
            T::obeys_eq_spec() ==> r == versioned_cas_answer(
                old(self)@,
                *expected,
                version,
                final(contention)@,
            ),
    {
        let this = *self.get();
        if this.value == *expected {
            if let Some(v) = version {
                if v != this.version {
                    return match contention.detected() {
                        Ok(()) => Ok(false),
                        Err(e) => Err(e),
                    };
                }
            }
            if *expected == value {
                Ok(true)
            } else {
                self.0 = Versioned { version: this.version + 1, value };
                exchange_answer(true, contention)
            }
        } else {
            Ok(false)
        }
    }
}

} // verus!
