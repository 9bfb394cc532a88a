//! Fan-in collection: a fixed number of producers each contribute exactly one
//! value, and a single collector gathers exactly that many values.
//!
//! The collector here is the sequential decision core. A driver that really
//! runs the producers concurrently owns the channel and the task handles; it
//! feeds every delivered value into a [`Collector`] and reports every task
//! failure to it, and [`Collector::finish`] then decides whether the run
//! produced a complete result or must surface an error. The delivery order is
//! up to the driver's scheduler: nothing below assumes any particular order,
//! only the count of deliveries.

use vstd::prelude::*;

verus! {

/// Why a collection run failed.
///
/// A launched producer that terminated without contributing its value is a
/// `TaskFailure`; a producer that could not be rejoined at all is a
/// `JoinFailure`. Both are fatal to the whole run: no partial result is
/// returned and nothing is retried.
#[derive(Clone, Copy, Debug, PartialEq, Eq, Structural)]
pub enum CollectError {
    TaskFailure,
    JoinFailure,
}

/// The sequence `0, 1, ..., n - 1` of producer ordinals.
pub open spec fn ordinal_seq(n: nat) -> Seq<u64> {
    Seq::new(n, |i: int| i as u64)
}

/// The set `{0, 1, ..., n - 1}` of producer ordinals.
pub open spec fn ordinal_set(n: nat) -> Set<u64> {
    Set::new(|v: u64| (v as nat) < n)
}

/// The reference producer: the value a producer contributes is its own
/// ordinal.
pub fn produce(ordinal: u64) -> (v: u64)
    ensures
        v == ordinal,
{
    ordinal
}

/// Gathers the values of one collection run.
///
/// Made for a known producer count; each delivered value is appended in
/// receipt order; any observed task failure poisons the run.
pub struct Collector {
    expected: usize,
    buffer: Vec<u64>,
    failure: Option<CollectError>,
}

impl Collector {
    /// How many values this run is to gather.
    pub closed spec fn expected(&self) -> nat {
        self.expected as nat
    }

    /// The values delivered so far, in receipt order.
    pub closed spec fn received(&self) -> Seq<u64> {
        self.buffer@
    }

    /// The failure observed so far, if any.
    pub closed spec fn failure(&self) -> Option<CollectError> {
        self.failure
    }

    /// Never more values are held than the run is to gather.
    pub open spec fn wf(&self) -> bool {
        self.received().len() <= self.expected()
    }

    /// A collector for a run of `n` producers: nothing received, no failure.
    pub fn new(n: usize) -> (c: Collector)
        ensures
            c.wf(),
            c.expected() == n,
            c.received() == Seq::<u64>::empty(),
            c.failure() is None,
    {
        Collector { expected: n, buffer: Vec::new(), failure: None }
    }

    /// How many values have been delivered so far.
    pub fn received_len(&self) -> (n: usize)
        ensures
            n == self.received().len(),
    {
        self.buffer.len()
    }

    /// How many values the run is to gather.
    pub fn expected_count(&self) -> (n: usize)
        ensures
            n == self.expected(),
    {
        self.expected
    }

    /// Whether a task failure has been observed.
    pub fn has_failure(&self) -> (b: bool)
        ensures
            b == (self.failure() is Some),
    {
        self.failure.is_some()
    }

    /// Record one delivered value, in receipt order.
    pub fn deliver(&mut self, v: u64)
        requires
            old(self).wf(),
            old(self).received().len() < old(self).expected(),
            old(self).failure() is None,
        ensures
            final(self).wf(),
            final(self).expected() == old(self).expected(),
            final(self).received() == old(self).received().push(v),
            final(self).failure() is None,
    {
        self.buffer.push(v);
    }

    /// Record that a producer failed. The run is poisoned: no result will be
    /// returned for it.
    pub fn observe_failure(&mut self, kind: CollectError)
        requires
            old(self).wf(),
            old(self).failure() is None,
        ensures
            final(self).wf(),
            final(self).expected() == old(self).expected(),
            final(self).received() == old(self).received(),
            final(self).failure() == Some(kind),
    {
        self.failure = Some(kind);
    }

    /// Close the run: the gathered values if and only if every producer
    /// delivered and none failed.
    ///
    /// A run that saw a failure surfaces that failure; a run that is short of
    /// values, which means some producer terminated without delivering, is a
    /// task failure. A short run is never passed off as a result.
    pub fn finish(self) -> (r: Result<Vec<u64>, CollectError>)
        requires
            self.wf(),
        ensures
            r is Ok <==> (self.failure() is None && self.received().len()
                == self.expected()),
            r matches Ok(values) ==> values@ == self.received(),
            r matches Err(e) ==> (match self.failure() {
                Some(f) => e == f,
                None => e == CollectError::TaskFailure,
            }),
    {
        match self.failure {
            Some(f) => Err(f),
            None => {
                if self.buffer.len() == self.expected {
                    Ok(self.buffer)
                } else {
                    Err(CollectError::TaskFailure)
                }
            },
        }
    }
}

/// Value set equality: a complete fan-in run of `n` reference producers
/// delivers each ordinal exactly once, so whatever order the channel handed
/// the values over in, the set of delivered values is `{0, ..., n - 1}`.
///
/// The requirement speaks only of the multiset of delivered values, which no
/// reordering changes: no delivery order may be assumed, and none is.
pub proof fn lemma_value_set(vals: Seq<u64>, n: nat)
    requires
        n <= u64::MAX,
        vals.to_multiset() == ordinal_seq(n).to_multiset(),
    ensures
        vals.to_set() == ordinal_set(n),
{
    broadcast use vstd::seq_lib::group_to_multiset_ensures;
    broadcast use vstd::set::group_set_axioms;

    assert forall|v: u64| vals.contains(v) implies (v as nat) < n by {
        assert(vals.to_multiset().count(v) > 0);
        assert(ordinal_seq(n).contains(v));
        let i = choose|i: int|
            0 <= i < ordinal_seq(n).len() && ordinal_seq(n)[i] == v;
        assert(v == i as u64);
    };
    assert forall|v: u64| (v as nat) < n implies vals.contains(v) by {
        assert(ordinal_seq(n)[v as int] == v);
        assert(ordinal_seq(n).contains(v));
        assert(vals.to_multiset().count(v) > 0);
    };
    assert(vals.to_set() =~= ordinal_set(n));
}

/// Collect the values of `n` reference producers, run one after the other in
/// ordinal order.
///
/// This is the in-process realization of the fan-in contract: exactly `n`
/// values come back, the value of each producer being its ordinal. Producers
/// run by this function cannot fail, so the run always closes with a result.
/// A driver that runs the producers concurrently instead gets the same
/// guarantee from [`Collector`] whenever all `n` deliveries arrive, in
/// whatever order its scheduler produced.
pub fn collect(n: usize) -> (r: Result<Vec<u64>, CollectError>)
    ensures
        r is Ok,
        r matches Ok(values) ==> values@.len() == n && (forall|i: int|
            0 <= i < n ==> values@[i] == i as u64),
        r matches Ok(values) ==> values@.to_set() == ordinal_set(n as nat),
{
    let mut c = Collector::new(n);
    let mut i: usize = 0;
    while i < n
        invariant
            i <= n,
            c.wf(),
            c.expected() == n,
            c.failure() is None,
            c.received().len() == i,
            forall|k: int| 0 <= k < i ==> c.received()[k] == k as u64,
        decreases n - i,
    {
        let v = produce(i as u64);
        c.deliver(v);
        i = i + 1;
    }
    proof {
        assert(c.received() =~= ordinal_seq(n as nat));
        lemma_value_set(c.received(), n as nat);
    }
    c.finish()
}

} // verus!
