use vstd::prelude::*;

verus! {

/// Admission of a fixed number of tasks, numbered from 0 in order, under a
/// cap on how many may be active (started and not finished) at once.
pub struct Gate {
    limit: usize,
    total: usize,
    started: usize,
    finished: usize,
}

impl Gate {
    pub closed spec fn limit_spec(&self) -> nat {
        self.limit as nat
    }

    pub closed spec fn total_spec(&self) -> nat {
        self.total as nat
    }

    pub closed spec fn started_spec(&self) -> nat {
        self.started as nat
    }

    pub closed spec fn finished_spec(&self) -> nat {
        self.finished as nat
    }

    pub open spec fn active_spec(&self) -> int {
        self.started_spec() - self.finished_spec()
    }

    /// Tasks finish only after they start, no more than `total` start, and
    /// no more than `limit` are active.
    pub open spec fn wf(&self) -> bool {
        &&& self.finished_spec() <= self.started_spec() <= self.total_spec()
        &&& self.active_spec() <= self.limit_spec()
    }

    /// A gate for `total` tasks, at most `limit` of them active at once.
    pub fn new(total: usize, limit: usize) -> (r: Gate)
        ensures
            r.wf(),
            r.limit_spec() == limit,
            r.total_spec() == total,
            r.started_spec() == 0,
            r.finished_spec() == 0,
    {
        Gate { limit, total, started: 0, finished: 0 }
    }

    /// How many tasks are active.
    pub fn active(&self) -> (r: usize)
        requires
            self.wf(),
        ensures
            r == self.active_spec(),
    {
        self.started - self.finished
    }

    /// Admits the next task when one is waiting and a slot is free, and
    /// returns its number.
    pub fn try_start(&mut self) -> (r: Option<usize>)
        requires
            old(self).wf(),
        ensures
            final(self).wf(),
            final(self).limit_spec() == old(self).limit_spec(),
            final(self).total_spec() == old(self).total_spec(),
            final(self).finished_spec() == old(self).finished_spec(),
            (old(self).started_spec() < old(self).total_spec() && old(self).active_spec()
                < old(self).limit_spec()) ==> r == Some(old(self).started_spec() as usize)
                && final(self).started_spec() == old(self).started_spec() + 1,
            !(old(self).started_spec() < old(self).total_spec() && old(self).active_spec()
                < old(self).limit_spec()) ==> r is None && final(self).started_spec()
                == old(self).started_spec(),
            final(self).active_spec() <= final(self).limit_spec(),
    {
        if self.started < self.total && self.started - self.finished < self.limit {
            let n = self.started;
            self.started = self.started + 1;
            Some(n)
        } else {
            None
        }
    }

    /// Records that an active task has finished, which frees its slot.
    pub fn finish(&mut self)
        requires
            old(self).wf(),
            old(self).active_spec() > 0,
        ensures
            final(self).wf(),
            final(self).limit_spec() == old(self).limit_spec(),
            final(self).total_spec() == old(self).total_spec(),
            final(self).started_spec() == old(self).started_spec(),
            final(self).finished_spec() == old(self).finished_spec() + 1,
            final(self).active_spec() <= final(self).limit_spec(),
    {
        self.finished = self.finished + 1;
    }

    /// Whether every task has finished.
    pub fn is_done(&self) -> (r: bool)
        ensures
            r == (self.finished_spec() == self.total_spec()),
    {
        self.finished == self.total
    }
}

/// Whatever sequence of operations led to a well-formed gate, no more tasks
/// are active than its limit.
pub proof fn lemma_active_within_limit(g: Gate)
    requires
        g.wf(),
    ensures
        0 <= g.active_spec() <= g.limit_spec(),
{
}

} // verus!
