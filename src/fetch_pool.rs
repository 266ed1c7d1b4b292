use vstd::prelude::*;

use crate::pipeline::FetchOutcome;

verus! {

/// The number of filled slots.
pub open spec fn filled_count(slots: Seq<Option<FetchOutcome>>) -> nat
    decreases slots.len(),
{
    if slots.len() == 0 {
        0
    } else {
        filled_count(slots.drop_last()) + if slots.last() is Some {
            1nat
        } else {
            0nat
        }
    }
}

proof fn lemma_filled_count_bound(slots: Seq<Option<FetchOutcome>>)
    ensures
        filled_count(slots) <= slots.len(),
        (exists|j: int| 0 <= j < slots.len() && slots[j] is None) ==> filled_count(slots)
            < slots.len(),
        filled_count(slots) == slots.len() ==> forall|j: int|
            0 <= j < slots.len() ==> slots[j] is Some,
    decreases slots.len(),
{
    if slots.len() > 0 {
        let init = slots.drop_last();
        lemma_filled_count_bound(init);
        if exists|j: int| 0 <= j < slots.len() && slots[j] is None {
            let j = choose|j: int| 0 <= j < slots.len() && slots[j] is None;
            if j < slots.len() - 1 {
                assert(init[j] is None);
            }
        }
        if filled_count(slots) == slots.len() {
            assert forall|j: int| 0 <= j < slots.len() implies slots[j] is Some by {
                if j < slots.len() - 1 {
                    assert(init[j] == slots[j]);
                }
            }
        }
    }
}

proof fn lemma_filled_count_tail_empty(slots: Seq<Option<FetchOutcome>>, k: int)
    requires
        0 <= k <= slots.len(),
        forall|j: int| k <= j < slots.len() ==> slots[j] is None,
    ensures
        filled_count(slots) == filled_count(slots.take(k)),
    decreases slots.len(),
{
    if slots.len() > k {
        lemma_filled_count_tail_empty(slots.drop_last(), k);
        assert(slots.drop_last().take(k) =~= slots.take(k));
    } else {
        assert(slots.take(k) =~= slots);
    }
}

proof fn lemma_filled_count_fill(slots: Seq<Option<FetchOutcome>>, i: int, o: FetchOutcome)
    requires
        0 <= i < slots.len(),
        slots[i] is None,
    ensures
        filled_count(slots.update(i, Some(o))) == filled_count(slots) + 1,
    decreases slots.len(),
{
    let after = slots.update(i, Some(o));
    if i == slots.len() - 1 {
        assert(after.drop_last() =~= slots.drop_last());
    } else {
        lemma_filled_count_fill(slots.drop_last(), i, o);
        assert(after.drop_last() =~= slots.drop_last().update(i, Some(o)));
    }
}

/// What a scheduler does next.
pub enum PoolStep {
    /// Start the fetch of the URL at this position.
    Launch(usize),
    /// Wait for a fetch in flight to complete.
    Wait,
    /// Every fetch has completed.
    Done,
}

/// The bookkeeping of a batch of fetches run with at most `cap` in flight.
/// Fetches start in submission order; they may complete in any order, and
/// each outcome is kept at the position of its URL.
pub struct FetchPool {
    cap: usize,
    launched: usize,
    completed: usize,
    slots: Vec<Option<FetchOutcome>>,
}

impl FetchPool {
    pub closed spec fn cap_spec(&self) -> nat {
        self.cap as nat
    }

    pub closed spec fn total_spec(&self) -> nat {
        self.slots@.len()
    }

    /// How many fetches have been started.
    pub closed spec fn launched_spec(&self) -> nat {
        self.launched as nat
    }

    /// How many fetches have completed.
    pub closed spec fn completed_spec(&self) -> nat {
        self.completed as nat
    }

    /// The outcome recorded at each position, if its fetch has completed.
    pub closed spec fn slots_spec(&self) -> Seq<Option<FetchOutcome>> {
        self.slots@
    }

    pub open spec fn in_flight_spec(&self) -> int {
        self.launched_spec() - self.completed_spec()
    }

    pub closed spec fn wf(&self) -> bool {
        &&& self.cap > 0
        &&& self.completed <= self.launched <= self.slots@.len()
        &&& self.launched - self.completed <= self.cap
        &&& forall|i: int| self.launched <= i < self.slots@.len() ==> #[trigger] self.slots@[i] is None
        &&& self.completed == filled_count(self.slots@)
    }

    /// However the pool is driven, no more than `cap` fetches are ever in
    /// flight at once, and no more complete than were started.
    pub proof fn in_flight_within_cap(&self)
        requires
            self.wf(),
        ensures
            0 <= self.in_flight_spec() <= self.cap_spec(),
            self.completed_spec() <= self.launched_spec() <= self.total_spec(),
    {
    }

    /// Prepares a batch of `total` fetches with at most `cap` in flight;
    /// `None` when `cap` is zero, under which nothing could ever start.
    pub fn new(total: usize, cap: usize) -> (r: Option<FetchPool>)
        ensures
            r is None <==> cap == 0,
            r matches Some(p) ==> {
                &&& p.wf()
                &&& p.cap_spec() == cap
                &&& p.total_spec() == total
                &&& p.launched_spec() == 0
                &&& p.completed_spec() == 0
                &&& forall|i: int| 0 <= i < total ==> #[trigger] p.slots_spec()[i] is None
            },
    {
        if cap == 0 {
            return None;
        }
        let mut slots: Vec<Option<FetchOutcome>> = Vec::new();
        let mut i: usize = 0;
        while i < total
            invariant
                i <= total,
                slots@.len() == i,
                forall|j: int| 0 <= j < i ==> #[trigger] slots@[j] is None,
                filled_count(slots@) == 0,
            decreases total - i,
        {
            let ghost before = slots@;
            slots.push(None);
            assert(slots@.drop_last() =~= before);
            i = i + 1;
        }
        Some(FetchPool { cap, launched: 0, completed: 0, slots })
    }

    pub fn cap(&self) -> (r: usize)
        ensures
            r == self.cap_spec(),
    {
        self.cap
    }

    pub fn total(&self) -> (r: usize)
        ensures
            r == self.total_spec(),
    {
        self.slots.len()
    }

    /// How many fetches are in flight: started and not yet completed.
    pub fn in_flight(&self) -> (r: usize)
        requires
            self.wf(),
        ensures
            r == self.in_flight_spec(),
    {
        self.launched - self.completed
    }

    /// Decides what to do next: start the next URL while fewer than `cap`
    /// fetches are in flight, report the batch done once every fetch has
    /// completed, and otherwise wait.
    pub fn next_step(&mut self) -> (r: PoolStep)
        requires
            old(self).wf(),
        ensures
            final(self).wf(),
            final(self).cap_spec() == old(self).cap_spec(),
            final(self).completed_spec() == old(self).completed_spec(),
            final(self).slots_spec() == old(self).slots_spec(),
            match r {
                PoolStep::Launch(i) => {
                    &&& old(self).launched_spec() < old(self).total_spec()
                    &&& old(self).in_flight_spec() < old(self).cap_spec()
                    &&& i == old(self).launched_spec()
                    &&& final(self).launched_spec() == old(self).launched_spec() + 1
                },
                PoolStep::Wait => {
                    &&& old(self).completed_spec() < old(self).total_spec()
                    &&& (old(self).launched_spec() == old(self).total_spec()
                        || old(self).in_flight_spec() == old(self).cap_spec())
                    &&& final(self).launched_spec() == old(self).launched_spec()
                },
                PoolStep::Done => {
                    &&& old(self).completed_spec() == old(self).total_spec()
                    &&& old(self).launched_spec() == old(self).total_spec()
                    &&& final(self).launched_spec() == old(self).launched_spec()
                },
            },
    {
        if self.launched < self.slots.len() && self.launched - self.completed < self.cap {
            let i = self.launched;
            self.launched = self.launched + 1;
            PoolStep::Launch(i)
        } else if self.completed == self.slots.len() {
            PoolStep::Done
        } else {
            PoolStep::Wait
        }
    }

    /// Records the outcome of the fetch at `index`. Accepted only for a fetch
    /// that was started and has not completed yet; otherwise nothing changes.
    pub fn complete(&mut self, index: usize, outcome: FetchOutcome) -> (r: bool)
        requires
            old(self).wf(),
        ensures
            final(self).wf(),
            r == (index < old(self).launched_spec() && old(self).slots_spec()[index as int] is None),
            final(self).cap_spec() == old(self).cap_spec(),
            final(self).launched_spec() == old(self).launched_spec(),
            r ==> final(self).completed_spec() == old(self).completed_spec() + 1,
            r ==> final(self).slots_spec() == old(self).slots_spec().update(index as int, Some(outcome)),
            !r ==> *final(self) == *old(self),
    {
        if index < self.launched && self.slots[index].is_none() {
            proof {
                lemma_filled_count_tail_empty(self.slots@, self.launched as int);
                let pre = self.slots@.take(self.launched as int);
                assert(pre[index as int] is None);
                lemma_filled_count_bound(pre);
                lemma_filled_count_fill(self.slots@, index as int, outcome);
            }
            self.slots.set(index, Some(outcome));
            self.completed = self.completed + 1;
            true
        } else {
            false
        }
    }

    /// The outcomes in submission order, once every fetch has completed;
    /// `None` before that.
    pub fn into_outcomes(self) -> (r: Option<Vec<FetchOutcome>>)
        requires
            self.wf(),
        ensures
            r is Some <==> self.completed_spec() == self.total_spec(),
            r matches Some(v) ==> {
                &&& v@.len() == self.total_spec()
                &&& forall|i: int| 0 <= i < v@.len() ==> self.slots_spec()[i] == Some(#[trigger] v@[i])
            },
    {
        if self.completed != self.slots.len() {
            return None;
        }
        proof {
            lemma_filled_count_bound(self.slots@);
        }
        let ghost s = self.slots@;
        let n = self.slots.len();
        let mut slots = self.slots;
        let mut reversed: Vec<FetchOutcome> = Vec::new();
        while slots.len() > 0
            invariant
                s.len() == n,
                forall|j: int| 0 <= j < n ==> s[j] is Some,
                slots@ == s.take(slots@.len() as int),
                slots@.len() + reversed@.len() == n,
                forall|k: int| 0 <= k < reversed@.len() ==> Some(#[trigger] reversed@[k]) == s[n - 1 - k],
            decreases slots@.len(),
        {
            let ghost before = slots@;
            let last = slots.pop();
            assert(s.take(slots@.len() as int) =~= before.drop_last());
            match last {
                Some(Some(o)) => reversed.push(o),
                _ => {},
            }
        }
        let mut out: Vec<FetchOutcome> = Vec::new();
        while reversed.len() > 0
            invariant
                s.len() == n,
                reversed@.len() + out@.len() == n,
                forall|k: int| 0 <= k < reversed@.len() ==> Some(#[trigger] reversed@[k]) == s[n - 1 - k],
                forall|k: int| 0 <= k < out@.len() ==> Some(#[trigger] out@[k]) == s[k],
            decreases reversed@.len(),
        {
            let last = reversed.pop();
            match last {
                Some(o) => out.push(o),
                None => {},
            }
        }
        Some(out)
    }
}

} // verus!
