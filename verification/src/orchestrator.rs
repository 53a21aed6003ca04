//! The test orchestrator: fans submissions out under a concurrency cap and
//! fans their outcomes back in, preserving the input order.
//!
//! The orchestrator is the bookkeeping behind a counting permit pool.  Each
//! submission occupies one slot, indexed as in the input path list.  A slot
//! is started only while fewer than `cap` slots are live, and finishing a
//! slot releases its permit exactly once, on every outcome.  One
//! submission's failure only fills its own slot with an error value; the
//! siblings are untouched.

use vstd::prelude::*;
use vstd::pervasive::unreached;
use vstd::pervasive::VecAdditionalExecFns;
use crate::test::TestResult;

verus! {

/// The outcome of one submission: its graded results in test-case order, or
/// the error text that ended its run.
pub type SubmissionOutcome = Result<Vec<TestResult>, String>;

/// The standing of one submission slot.
pub enum Slot {
    /// Not started yet.
    Pending,
    /// Evaluating now, holding one of the `cap` permits.
    Live,
    /// Finished, with its outcome.
    Done(SubmissionOutcome),
}

/// How many slots hold a permit.
pub open spec fn count_live(s: Seq<Slot>) -> nat
    decreases s.len(),
{
    if s.len() == 0 {
        0
    } else {
        count_live(s.drop_last()) + if s.last() is Live {
            1nat
        } else {
            0nat
        }
    }
}

pub proof fn lemma_count_live_push(s: Seq<Slot>, v: Slot)
    ensures
        count_live(s.push(v)) == count_live(s) + if v is Live {
            1nat
        } else {
            0nat
        },
{
    assert(s.push(v).drop_last() =~= s);
    assert(s.push(v).last() == v);
}

pub proof fn lemma_count_live_update(s: Seq<Slot>, i: int, v: Slot)
    requires
        0 <= i < s.len(),
    ensures
        count_live(s.update(i, v)) + (if s[i] is Live {
            1nat
        } else {
            0nat
        }) == count_live(s) + (if v is Live {
            1nat
        } else {
            0nat
        }),
    decreases s.len(),
{
    if i == s.len() - 1 {
        assert(s.update(i, v).drop_last() =~= s.drop_last());
        assert(s.update(i, v).last() == v);
    } else {
        assert(s.update(i, v).drop_last() =~= s.drop_last().update(i, v));
        assert(s.update(i, v).last() == s.last());
        lemma_count_live_update(s.drop_last(), i, v);
    }
}

/// Bounds submission evaluation to at most `cap` concurrent slots and
/// collects one outcome per slot.
pub struct TestOrchestrator {
    pub cap: usize,
    pub live: usize,
    pub slots: Vec<Slot>,
}

impl TestOrchestrator {
    pub open spec fn wf(self) -> bool {
        &&& self.cap >= 1
        &&& self.live == count_live(self.slots@)
        &&& self.live <= self.cap
    }

    pub open spec fn spec_all_done(self) -> bool {
        forall|k: int| 0 <= k < self.slots@.len() ==> #[trigger] self.slots@[k] is Done
    }

    /// One slot per submission, all pending, no permit taken.
    pub fn new(total: usize, cap: usize) -> (r: Self)
        requires
            cap >= 1,
        ensures
            r.wf(),
            r.cap == cap,
            r.live == 0,
            r.slots@.len() == total,
            forall|k: int| 0 <= k < total ==> #[trigger] r.slots@[k] is Pending,
    {
        let mut slots: Vec<Slot> = Vec::new();
        let mut i: usize = 0;
        while i < total
            invariant
                i <= total,
                slots@.len() == i,
                count_live(slots@) == 0,
                forall|k: int| 0 <= k < i ==> #[trigger] slots@[k] is Pending,
            decreases total - i,
        {
            proof {
                lemma_count_live_push(slots@, Slot::Pending);
            }
            slots.push(Slot::Pending);
            i = i + 1;
        }
        TestOrchestrator { cap, live: 0, slots }
    }

    /// Takes a permit for the first pending slot, if a permit is free and a
    /// pending slot exists; otherwise changes nothing.
    pub fn try_start(&mut self) -> (r: Option<usize>)
        requires
            old(self).wf(),
        ensures
            final(self).wf(),
            final(self).cap == old(self).cap,
            final(self).slots@.len() == old(self).slots@.len(),
            (r matches Some(i) ==> {
                &&& 0 <= i < old(self).slots@.len()
                &&& old(self).slots@[i as int] is Pending
                &&& (forall|j: int| 0 <= j < i ==> !(#[trigger] old(self).slots@[j] is Pending))
                &&& old(self).live < old(self).cap
                &&& final(self).slots@ == old(self).slots@.update(i as int, Slot::Live)
                &&& final(self).live == old(self).live + 1
            }),
            (r is None ==> *final(self) == *old(self) && (old(self).live >= old(self).cap
                || (forall|j: int|
                0 <= j < old(self).slots@.len() ==> !(#[trigger] old(self).slots@[j]
                    is Pending)))),
    {
        if self.live >= self.cap {
            return None;
        }
        let n: usize = self.slots.len();
        let mut i: usize = 0;
        while i < n
            invariant
                i <= n,
                n == self.slots@.len(),
                *self == *old(self),
                old(self).wf(),
                self.live < self.cap,
                forall|j: int| 0 <= j < i ==> !(#[trigger] self.slots@[j] is Pending),
            decreases n - i,
        {
            let pending = match self.slots[i] {
                Slot::Pending => true,
                _ => false,
            };
            if pending {
                proof {
                    lemma_count_live_update(self.slots@, i as int, Slot::Live);
                }
                self.slots.set(i, Slot::Live);
                self.live = self.live + 1;
                return Some(i);
            }
            i = i + 1;
        }
        None
    }

    /// Records a submission's outcome and releases its permit.  Exactly this
    /// slot changes; a failing submission never touches its siblings.
    pub fn finish(&mut self, i: usize, outcome: SubmissionOutcome)
        requires
            old(self).wf(),
            i < old(self).slots@.len(),
            old(self).slots@[i as int] is Live,
        ensures
            final(self).wf(),
            final(self).cap == old(self).cap,
            final(self).slots@ == old(self).slots@.update(i as int, Slot::Done(outcome)),
            final(self).live == old(self).live - 1,
    {
        proof {
            lemma_count_live_update(self.slots@, i as int, Slot::Done(outcome));
        }
        self.slots.set(i, Slot::Done(outcome));
        self.live = self.live - 1;
    }

    pub fn all_done(&self) -> (b: bool)
        ensures
            b == self.spec_all_done(),
    {
        let n: usize = self.slots.len();
        let mut i: usize = 0;
        while i < n
            invariant
                i <= n,
                n == self.slots@.len(),
                forall|k: int| 0 <= k < i ==> #[trigger] self.slots@[k] is Done,
            decreases n - i,
        {
            let done = match self.slots[i] {
                Slot::Done(_) => true,
                _ => false,
            };
            if !done {
                return false;
            }
            i = i + 1;
        }
        true
    }

    /// The outcomes, one per submission, in the original input order.
    pub fn into_outcomes(self) -> (r: Vec<SubmissionOutcome>)
        requires
            self.spec_all_done(),
        ensures
            r@.len() == self.slots@.len(),
            forall|k: int|
                0 <= k < r@.len() ==> (self.slots@[k] matches Slot::Done(o) && #[trigger] r@[k]
                    == o),
    {
        let ghost orig = self.slots@;
        let mut rest = self.slots;
        let mut out: Vec<SubmissionOutcome> = Vec::new();
        while rest.len() > 0
            invariant
                out@.len() + rest@.len() == orig.len(),
                rest@ == orig.skip(out@.len() as int),
                forall|k: int| 0 <= k < orig.len() ==> #[trigger] orig[k] is Done,
                forall|k: int|
                    0 <= k < out@.len() ==> (orig[k] matches Slot::Done(o) && #[trigger] out@[k]
                        == o),
            decreases rest@.len(),
        {
            proof {
                assert(rest@[0] == orig[out@.len() as int]);
                assert(rest@.remove(0) =~= orig.skip(out@.len() as int + 1));
            }
            match rest.remove(0) {
                Slot::Done(o) => out.push(o),
                _ => unreached(),
            }
        }
        out
    }
}

/// With concurrency cap K, at most K submissions hold a permit in any
/// reachable state of the orchestrator.
pub proof fn lemma_live_bounded(o: TestOrchestrator)
    requires
        o.wf(),
    ensures
        count_live(o.slots@) <= o.cap,
{
}

pub proof fn lemma_count_live_at(s: Seq<Slot>, i: int)
    requires
        0 <= i < s.len(),
        s[i] is Live,
    ensures
        count_live(s) >= 1,
    decreases s.len(),
{
    if i < s.len() - 1 {
        lemma_count_live_at(s.drop_last(), i);
    }
}

/// The run can always move forward: while any outcome is missing, either a
/// live submission still holds a permit and will release it on finishing, or
/// a pending slot exists and the next `try_start` after a release takes it.
/// So every slot is eventually filled.
pub proof fn lemma_progress(o: TestOrchestrator)
    requires
        o.wf(),
        !o.spec_all_done(),
    ensures
        count_live(o.slots@) > 0 || exists|j: int|
            0 <= j < o.slots@.len() && #[trigger] o.slots@[j] is Pending,
{
    let j = choose|j: int| 0 <= j < o.slots@.len() && !(#[trigger] o.slots@[j] is Done);
    if o.slots@[j] is Live {
        lemma_count_live_at(o.slots@, j);
    }
}

} // verus!
