use vstd::prelude::*;

verus! {

/// The process-wide counter state: a single non-negative integer, mutated
/// only through `increment_and_get`. The embedding program wraps one value
/// of this type in an exclusive guard shared by all workers; the guard
/// serializes the increments, so every concurrent execution is equivalent
/// to some total order of calls to `increment_and_get`.
pub struct SharedCounter {
    value: u64,
}

/// The values observed by `n` increments serialized after a prior count:
/// the `i`-th call in the total order returns `prior + i + 1`.
pub open spec fn counter_history(prior: nat, n: nat) -> Seq<nat> {
    Seq::new(n, |i: int| (prior + i + 1) as nat)
}

impl SharedCounter {
    /// The current count.
    pub closed spec fn count(self) -> u64 {
        self.value
    }

    pub fn new(initial: u64) -> (c: SharedCounter)
        ensures
            c.count() == initial,
    {
        SharedCounter { value: initial }
    }

    /// The current count, read without changing anything. Callers outside
    /// verified code test the increment's headroom with this before asking
    /// for one.
    pub fn current(&self) -> (r: u64)
        ensures
            r == self.count(),
    {
        self.value
    }

    /// The guarded read-modify-write: adds exactly one and returns the new
    /// count, so no concurrent increment is lost and none applies twice.
    /// This is the whole critical section; nothing that blocks or suspends
    /// belongs between taking the guard and releasing it.
    pub fn increment_and_get(&mut self) -> (r: u64)
        requires
            old(self).count() < u64::MAX,
        ensures
            final(self).count() == old(self).count() + 1,
            r == final(self).count(),
    {
        self.value = self.value + 1;
        self.value
    }
}

/// Runs `n` increments in order and returns what each call observed. The
/// observations are exactly `counter_history` of the prior count and the
/// count ends `n` higher: over any serialization of `n` calls, no update
/// is lost and none applies twice.
pub fn increment_n(counter: &mut SharedCounter, n: u64) -> (observed: Vec<u64>)
    requires
        old(counter).count() + n <= u64::MAX,
    ensures
        final(counter).count() == old(counter).count() + n,
        observed@.map_values(|v: u64| v as nat) == counter_history(
            old(counter).count() as nat,
            n as nat,
        ),
{
    let mut out: Vec<u64> = Vec::new();
    let mut i: u64 = 0;
    while i < n
        invariant
            i <= n,
            old(counter).count() + n <= u64::MAX,
            counter.count() == old(counter).count() + i,
            out@.len() == i,
            forall|j: int| 0 <= j < i ==> out@[j] == old(counter).count() + j + 1,
        decreases n - i,
    {
        let v = counter.increment_and_get();
        out.push(v);
        i = i + 1;
    }
    proof {
        assert(out@.map_values(|v: u64| v as nat) =~= counter_history(
            old(counter).count() as nat,
            n as nat,
        ));
    }
    out
}

/// Exactly-once accounting: after `n` serialized increments starting from
/// `prior`, the final count is `prior + n`, each call observes the count it
/// produced (`counter_history`), and no two calls observe the same value.
pub proof fn lemma_counter_history(prior: nat, n: nat)
    ensures
        counter_history(prior, n).len() == n,
        forall|i: int| 0 <= i < n ==> counter_history(prior, n)[i] == prior + i + 1,
        n > 0 ==> counter_history(prior, n).last() == prior + n,
        forall|i: int, j: int|
            0 <= i < n && 0 <= j < n && i != j
                ==> counter_history(prior, n)[i] != counter_history(prior, n)[j],
{
}

} // verus!
