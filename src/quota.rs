//! The pool-wide count of completed tasks and the optional cap on it.
//!
//! A loop claims a slot before it fetches a task and settles the claim when
//! the attempt ends. Counting claims together with completions keeps the
//! number of completions at or below the cap however many loops finish at
//! the same moment.

use vstd::prelude::*;

verus! {

pub struct TaskQuota {
    /// Tasks proved and submitted so far.
    pub completed: u64,
    /// Attempts that hold a claim and have not ended yet.
    pub in_flight: u64,
    /// The optional cap on completed tasks.
    pub max_tasks: Option<u32>,
}

impl TaskQuota {
    pub open spec fn wf(&self) -> bool {
        match self.max_tasks {
            Some(k) => self.completed + self.in_flight <= k,
            None => self.completed + self.in_flight <= u64::MAX,
        }
    }

    /// A new attempt may start: the cap, counting attempts still in flight,
    /// leaves room for it.
    pub open spec fn has_room(&self) -> bool {
        match self.max_tasks {
            Some(k) => self.completed + self.in_flight < k,
            None => self.completed + self.in_flight < u64::MAX,
        }
    }

    /// The cap is set and the completed tasks have reached it.
    pub open spec fn exhausted_spec(&self) -> bool {
        match self.max_tasks {
            Some(k) => self.completed >= k,
            None => false,
        }
    }

    pub fn new(max_tasks: Option<u32>) -> (r: TaskQuota)
        ensures
            r.wf(),
            r.completed == 0,
            r.in_flight == 0,
            r.max_tasks == max_tasks,
    {
        TaskQuota { completed: 0, in_flight: 0, max_tasks }
    }

    pub fn is_exhausted(&self) -> (r: bool)
        ensures
            r == self.exhausted_spec(),
    {
        match self.max_tasks {
            Some(k) => self.completed >= k as u64,
            None => false,
        }
    }

    /// Claims a slot for a new attempt; returns whether one was free.
    pub fn try_claim(&mut self) -> (r: bool)
        requires
            old(self).wf(),
        ensures
            final(self).wf(),
            r == old(self).has_room(),
            final(self).max_tasks == old(self).max_tasks,
            final(self).completed == old(self).completed,
            final(self).in_flight == old(self).in_flight + if r { 1int } else { 0int },
    {
        let room = match self.max_tasks {
            Some(k) => self.completed + self.in_flight < k as u64,
            None => self.completed + self.in_flight < u64::MAX,
        };
        if room {
            self.in_flight = self.in_flight + 1;
        }
        room
    }

    /// Ends an attempt that held a claim, counting it as completed when
    /// `succeeded`. Returns whether the cap has now been reached.
    pub fn settle(&mut self, succeeded: bool) -> (r: bool)
        requires
            old(self).wf(),
            old(self).in_flight > 0,
        ensures
            final(self).wf(),
            final(self).max_tasks == old(self).max_tasks,
            final(self).in_flight == old(self).in_flight - 1,
            final(self).completed == old(self).completed + if succeeded { 1int } else { 0int },
            r == final(self).exhausted_spec(),
    {
        self.in_flight = self.in_flight - 1;
        if succeeded {
            self.completed = self.completed + 1;
        }
        self.is_exhausted()
    }
}

/// However claims and settlements interleave, a well-formed quota with cap
/// `k` has at most `k` completed tasks, and once `k` are completed no further
/// attempt can be claimed.
pub proof fn lemma_completions_never_exceed_cap(q: TaskQuota, k: u32)
    requires
        q.wf(),
        q.max_tasks == Some(k),
    ensures
        q.completed <= k,
        q.exhausted_spec() ==> q.completed == k && q.in_flight == 0 && !q.has_room(),
{
}

} // verus!
