use vstd::prelude::*;

verus! {

/// How many bridge sessions may run at once by default.
pub const DEFAULT_SESSION_LIMIT: u64 = 1024;

/// Admission of bridge sessions: at most `limit` run at a time, and a
/// connection that arrives while that many run is turned away.
pub struct SessionGate {
    active: u64,
    limit: u64,
}

impl SessionGate {
    pub closed spec fn active_count(&self) -> nat {
        self.active as nat
    }

    pub closed spec fn limit_of(&self) -> nat {
        self.limit as nat
    }

    pub open spec fn wf(&self) -> bool {
        self.active_count() <= self.limit_of()
    }

    pub fn new(limit: u64) -> (r: SessionGate)
        ensures
            r.wf(),
            r.active_count() == 0,
            r.limit_of() == limit,
    {
        SessionGate { active: 0, limit }
    }

    pub fn active(&self) -> (r: u64)
        ensures
            r == self.active_count(),
    {
        self.active
    }

    pub fn limit(&self) -> (r: u64)
        ensures
            r == self.limit_of(),
    {
        self.limit
    }

    /// Admits one more session if fewer than the limit run.
    pub fn try_admit(&mut self) -> (r: bool)
        requires
            old(self).wf(),
        ensures
            final(self).wf(),
            final(self).limit_of() == old(self).limit_of(),
            r == (old(self).active_count() < old(self).limit_of()),
            final(self).active_count() == old(self).active_count() + if r {
                1nat
            } else {
                0nat
            },
    {
        if self.active < self.limit {
            self.active = self.active + 1;
            true
        } else {
            false
        }
    }

    /// Records that an admitted session ended.
    pub fn release(&mut self)
        requires
            old(self).wf(),
            old(self).active_count() > 0,
        ensures
            final(self).wf(),
            final(self).limit_of() == old(self).limit_of(),
            final(self).active_count() == old(self).active_count() - 1,
    {
        self.active = self.active - 1;
    }
}

} // verus!
