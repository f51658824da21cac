//! Driver model for a platform-level external interrupt controller.
//!
//! The controller tracks, per interrupt source: an enable bit, a latched
//! (pending) bit, and an in-service bit.  `next_pending` reports the
//! highest-priority source that is enabled, latched and not in service —
//! priority is fixed by the hardware as lowest identifier first — and
//! claims it, so the same assertion is never reported twice.  `complete`
//! acknowledges a claimed source and is what allows the hardware gateway
//! to latch that source again.

use vstd::prelude::*;

verus! {

/// Number of `true` entries in a sequence of flags.
pub open spec fn count_true(s: Seq<bool>) -> nat
    decreases s.len(),
{
    if s.len() == 0 {
        0
    } else {
        (if s[0] {
            1nat
        } else {
            0nat
        }) + count_true(s.drop_first())
    }
}

/// No more flags are set than there are flags.
pub proof fn lemma_count_true_le_len(s: Seq<bool>)
    ensures
        count_true(s) <= s.len(),
    decreases s.len(),
{
    if s.len() > 0 {
        lemma_count_true_le_len(s.drop_first());
    }
}

/// Clearing a set flag strictly lowers the count of set flags.
pub proof fn lemma_count_true_clear(s: Seq<bool>, i: int)
    requires
        0 <= i < s.len(),
        s[i],
    ensures
        count_true(s.update(i, false)) < count_true(s),
    decreases s.len(),
{
    if i == 0 {
        assert(s.update(0, false).drop_first() =~= s.drop_first());
    } else {
        assert(s.update(i, false).drop_first() =~= s.drop_first().update(i - 1, false));
        lemma_count_true_clear(s.drop_first(), i - 1);
    }
}

pub struct Plic {
    /// Per-source enable bits, software controlled.
    pub enabled: Vec<bool>,
    /// Per-source latched assertions, set by the hardware gateway.
    pub pending: Vec<bool>,
    /// Per-source claim state: reported by `next_pending`, cleared by
    /// `complete`.
    pub in_service: Vec<bool>,
}

impl Plic {
    /// The three per-source bit arrays cover the same sources, and source
    /// identifiers fit the hardware's 32-bit id registers.
    pub open spec fn wf(self) -> bool {
        &&& self.enabled@.len() == self.pending@.len()
        &&& self.in_service@.len() == self.pending@.len()
        &&& self.pending@.len() <= 0xffff_ffff
    }

    pub open spec fn num_sources(self) -> nat {
        self.pending@.len()
    }

    /// Source `s` would be reported by `next_pending`: enabled, latched,
    /// and not already claimed.
    pub open spec fn claimable(self, s: int) -> bool {
        &&& 0 <= s < self.num_sources()
        &&& self.enabled@[s]
        &&& self.pending@[s]
        &&& !self.in_service@[s]
    }

    /// The lowest claimable source at or above `i`.
    pub open spec fn first_claimable_from(self, i: int) -> Option<u32>
        decreases self.num_sources() - i,
    {
        if i >= self.num_sources() {
            None
        } else if self.claimable(i) {
            Some(i as u32)
        } else {
            self.first_claimable_from(i + 1)
        }
    }

    /// What `next_pending` reports: the lowest claimable source.
    pub open spec fn spec_next_pending(self) -> Option<u32> {
        self.first_claimable_from(0)
    }

    pub fn new(num_sources: usize) -> (p: Plic)
        requires
            num_sources <= 0xffff_ffff,
        ensures
            p.wf(),
            p.num_sources() == num_sources,
            forall|s: int| 0 <= s < num_sources ==> !p.enabled@[s],
            forall|s: int| 0 <= s < num_sources ==> !p.pending@[s],
            forall|s: int| 0 <= s < num_sources ==> !p.in_service@[s],
    {
        let mut enabled: Vec<bool> = Vec::new();
        let mut pending: Vec<bool> = Vec::new();
        let mut in_service: Vec<bool> = Vec::new();
        let mut i: usize = 0;
        while i < num_sources
            invariant
                i <= num_sources,
                enabled@.len() == i,
                pending@.len() == i,
                in_service@.len() == i,
                forall|s: int| 0 <= s < i ==> !enabled@[s] && !pending@[s] && !in_service@[s],
            decreases num_sources - i,
        {
            enabled.push(false);
            pending.push(false);
            in_service.push(false);
            i = i + 1;
        }
        Plic { enabled, pending, in_service }
    }

    pub fn enable(&mut self, source: usize)
        requires
            old(self).wf(),
            source < old(self).num_sources(),
        ensures
            final(self).wf(),
            final(self).enabled@ == old(self).enabled@.update(source as int, true),
            final(self).pending@ == old(self).pending@,
            final(self).in_service@ == old(self).in_service@,
    {
        self.enabled.set(source, true);
    }

    pub fn disable(&mut self, source: usize)
        requires
            old(self).wf(),
            source < old(self).num_sources(),
        ensures
            final(self).wf(),
            final(self).enabled@ == old(self).enabled@.update(source as int, false),
            final(self).pending@ == old(self).pending@,
            final(self).in_service@ == old(self).in_service@,
    {
        self.enabled.set(source, false);
    }

    /// Drop one latched assertion without servicing it.
    pub fn clear_pending(&mut self, source: usize)
        requires
            old(self).wf(),
            source < old(self).num_sources(),
        ensures
            final(self).wf(),
            final(self).pending@ == old(self).pending@.update(source as int, false),
            final(self).enabled@ == old(self).enabled@,
            final(self).in_service@ == old(self).in_service@,
    {
        self.pending.set(source, false);
    }

    pub fn enable_all(&mut self)
        requires
            old(self).wf(),
        ensures
            final(self).wf(),
            final(self).num_sources() == old(self).num_sources(),
            forall|s: int| 0 <= s < final(self).num_sources() ==> final(self).enabled@[s],
            final(self).pending@ == old(self).pending@,
            final(self).in_service@ == old(self).in_service@,
    {
        let n = self.enabled.len();
        let mut i: usize = 0;
        while i < n
            invariant
                old(self).wf(),
                i <= n,
                n == old(self).num_sources(),
                self.enabled@.len() == n,
                forall|s: int| 0 <= s < i ==> self.enabled@[s],
                self.pending@ == old(self).pending@,
                self.in_service@ == old(self).in_service@,
            decreases n - i,
        {
            self.enabled.set(i, true);
            i = i + 1;
        }
    }

    pub fn disable_all(&mut self)
        requires
            old(self).wf(),
        ensures
            final(self).wf(),
            final(self).num_sources() == old(self).num_sources(),
            forall|s: int| 0 <= s < final(self).num_sources() ==> !final(self).enabled@[s],
            final(self).pending@ == old(self).pending@,
            final(self).in_service@ == old(self).in_service@,
    {
        let n = self.enabled.len();
        let mut i: usize = 0;
        while i < n
            invariant
                old(self).wf(),
                i <= n,
                n == old(self).num_sources(),
                self.enabled@.len() == n,
                forall|s: int| 0 <= s < i ==> !self.enabled@[s],
                self.pending@ == old(self).pending@,
                self.in_service@ == old(self).in_service@,
            decreases n - i,
        {
            self.enabled.set(i, false);
            i = i + 1;
        }
    }

    pub fn clear_all_pending(&mut self)
        requires
            old(self).wf(),
        ensures
            final(self).wf(),
            final(self).num_sources() == old(self).num_sources(),
            forall|s: int| 0 <= s < final(self).num_sources() ==> !final(self).pending@[s],
            final(self).enabled@ == old(self).enabled@,
            final(self).in_service@ == old(self).in_service@,
    {
        let n = self.pending.len();
        let mut i: usize = 0;
        while i < n
            invariant
                old(self).wf(),
                i <= n,
                n == old(self).num_sources(),
                self.pending@.len() == n,
                forall|s: int| 0 <= s < i ==> !self.pending@[s],
                self.enabled@ == old(self).enabled@,
                self.in_service@ == old(self).in_service@,
            decreases n - i,
        {
            self.pending.set(i, false);
            i = i + 1;
        }
    }

    /// The hardware gateway latches an assertion of `source`.  While the
    /// source is in service the gateway holds new assertions back; they
    /// are latched only after `complete`.
    pub fn latch(&mut self, source: usize)
        requires
            old(self).wf(),
            source < old(self).num_sources(),
        ensures
            final(self).wf(),
            !old(self).in_service@[source as int] ==> final(self).pending@ == old(
                self,
            ).pending@.update(source as int, true),
            old(self).in_service@[source as int] ==> final(self).pending@ == old(self).pending@,
            final(self).enabled@ == old(self).enabled@,
            final(self).in_service@ == old(self).in_service@,
    {
        if !self.in_service[source] {
            self.pending.set(source, true);
        }
    }

    /// Cheap, side-effect-free check used by the scheduler before sleeping.
    pub fn has_pending(&self) -> (r: bool)
        requires
            self.wf(),
        ensures
            r == self.spec_next_pending().is_some(),
    {
        self.next_pending_index().is_some()
    }

    /// Scan for the lowest claimable source without claiming it.
    fn next_pending_index(&self) -> (r: Option<usize>)
        requires
            self.wf(),
        ensures
            match r {
                Some(s) => s < self.num_sources() && self.spec_next_pending() == Some(s as u32),
                None => self.spec_next_pending() == None::<u32>,
            },
    {
        let n = self.pending.len();
        let mut i: usize = 0;
        while i < n
            invariant
                self.wf(),
                i <= n,
                n == self.num_sources(),
                self.first_claimable_from(0) == self.first_claimable_from(i as int),
            decreases n - i,
        {
            if self.enabled[i] && self.pending[i] && !self.in_service[i] {
                return Some(i);
            }
            i = i + 1;
        }
        None
    }

    /// Report and claim the highest-priority pending source: the source is
    /// taken out of the latched set and marked in service, so it cannot be
    /// reported again before `complete`.
    pub fn next_pending(&mut self) -> (r: Option<u32>)
        requires
            old(self).wf(),
        ensures
            final(self).wf(),
            final(self).num_sources() == old(self).num_sources(),
            final(self).enabled@ == old(self).enabled@,
            match r {
                Some(s) => {
                    &&& old(self).spec_next_pending() == Some(s)
                    &&& old(self).claimable(s as int)
                    &&& final(self).pending@ == old(self).pending@.update(s as int, false)
                    &&& final(self).in_service@ == old(self).in_service@.update(s as int, true)
                },
                None => {
                    &&& old(self).spec_next_pending() == None::<u32>
                    &&& *final(self) == *old(self)
                },
            },
    {
        match self.next_pending_index() {
            Some(i) => {
                proof {
                    self.lemma_first_claimable_sound(0, i as u32);
                }
                self.pending.set(i, false);
                self.in_service.set(i, true);
                Some(i as u32)
            },
            None => None,
        }
    }

    /// Acknowledge that the handler for a claimed source has run; only now
    /// may the hardware latch that source again.
    pub fn complete(&mut self, source: u32)
        requires
            old(self).wf(),
            source < old(self).num_sources(),
            old(self).in_service@[source as int],
        ensures
            final(self).wf(),
            final(self).in_service@ == old(self).in_service@.update(source as int, false),
            final(self).enabled@ == old(self).enabled@,
            final(self).pending@ == old(self).pending@,
    {
        self.in_service.set(source as usize, false);
    }

    /// Whatever `first_claimable_from` reports is claimable and at or above
    /// the scan start.
    pub proof fn lemma_first_claimable_sound(self, i: int, s: u32)
        requires
            self.wf(),
            self.first_claimable_from(i) == Some(s),
        ensures
            self.claimable(s as int),
            i <= s,
        decreases self.num_sources() - i,
    {
        if i < self.num_sources() && !self.claimable(i) {
            self.lemma_first_claimable_sound(i + 1, s);
        }
    }

    /// A scan that reports nothing passed no claimable source.
    pub proof fn lemma_first_claimable_complete(self, i: int, s: int)
        requires
            self.wf(),
            self.first_claimable_from(i) == None::<u32>,
            i <= s < self.num_sources(),
        ensures
            !self.claimable(s),
        decreases self.num_sources() - i,
    {
        if i < s {
            self.lemma_first_claimable_complete(i + 1, s);
        }
    }

    /// The scan reports the lowest claimable source: nothing below it is
    /// claimable.
    pub proof fn lemma_first_claimable_least(self, i: int, s: u32, j: int)
        requires
            self.wf(),
            self.first_claimable_from(i) == Some(s),
            i <= j < s,
        ensures
            !self.claimable(j),
        decreases self.num_sources() - i,
    {
        self.lemma_first_claimable_sound(i, s);
        if i < j {
            self.lemma_first_claimable_least(i + 1, s, j);
        }
    }

    /// A source that has been reported pending and not yet completed is
    /// never reported again: the controller pairs every report with exactly
    /// one completion per assertion.
    pub proof fn lemma_no_report_before_complete(self, s: int)
        requires
            self.wf(),
            0 <= s < self.num_sources(),
            self.in_service@[s],
        ensures
            self.spec_next_pending() != Some(s as u32),
    {
        if self.spec_next_pending() == Some(s as u32) {
            self.lemma_first_claimable_sound(0, s as u32);
        }
    }
}

} // verus!
