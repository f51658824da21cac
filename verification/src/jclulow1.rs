//! The second chip family: a small core behind a nested vectored interrupt
//! controller.  This chip wires no device drivers yet: draining reports the
//! first pending interrupt as unhandled and leaves its disposition to the
//! fault layer above.

use vstd::prelude::*;
use crate::csr::Csr;
use crate::support::{atomic_enter_rel, atomic_exit_rel, AtomicGuard};

verus! {

/// The core-local interrupt controller: per-interrupt enable and pending
/// bits.  Unlike the platform-level controller, reporting does not claim:
/// a handler clears the pending bit itself and re-enables the line.
pub struct Nvic {
    pub enabled: Vec<bool>,
    pub pending: Vec<bool>,
}

impl Nvic {
    pub open spec fn wf(self) -> bool {
        &&& self.enabled@.len() == self.pending@.len()
        &&& self.pending@.len() <= 0xffff_ffff
    }

    pub open spec fn num_interrupts(self) -> nat {
        self.pending@.len()
    }

    /// Interrupt `i` is both enabled and latched.
    pub open spec fn signalled(self, i: int) -> bool {
        &&& 0 <= i < self.num_interrupts()
        &&& self.enabled@[i]
        &&& self.pending@[i]
    }

    /// The lowest signalled interrupt at or above `i`.
    pub open spec fn first_signalled_from(self, i: int) -> Option<u32>
        decreases self.num_interrupts() - i,
    {
        if i >= self.num_interrupts() {
            None
        } else if self.signalled(i) {
            Some(i as u32)
        } else {
            self.first_signalled_from(i + 1)
        }
    }

    pub open spec fn spec_next_pending(self) -> Option<u32> {
        self.first_signalled_from(0)
    }

    pub fn new(num_interrupts: usize) -> (n: Nvic)
        requires
            num_interrupts <= 0xffff_ffff,
        ensures
            n.wf(),
            n.num_interrupts() == num_interrupts,
            forall|i: int| 0 <= i < num_interrupts ==> !n.enabled@[i] && !n.pending@[i],
    {
        let mut enabled: Vec<bool> = Vec::new();
        let mut pending: Vec<bool> = Vec::new();
        let mut i: usize = 0;
        while i < num_interrupts
            invariant
                i <= num_interrupts,
                enabled@.len() == i,
                pending@.len() == i,
                forall|j: int| 0 <= j < i ==> !enabled@[j] && !pending@[j],
            decreases num_interrupts - i,
        {
            enabled.push(false);
            pending.push(false);
            i = i + 1;
        }
        Nvic { enabled, pending }
    }

    pub fn enable(&mut self, interrupt: u32)
        requires
            old(self).wf(),
            interrupt < old(self).num_interrupts(),
        ensures
            final(self).wf(),
            final(self).enabled@ == old(self).enabled@.update(interrupt as int, true),
            final(self).pending@ == old(self).pending@,
    {
        self.enabled.set(interrupt as usize, true);
    }

    pub fn clear_pending(&mut self, interrupt: u32)
        requires
            old(self).wf(),
            interrupt < old(self).num_interrupts(),
        ensures
            final(self).wf(),
            final(self).pending@ == old(self).pending@.update(interrupt as int, false),
            final(self).enabled@ == old(self).enabled@,
    {
        self.pending.set(interrupt as usize, false);
    }

    /// Environment step: the hardware latches an assertion of `interrupt`.
    pub fn latch(&mut self, interrupt: u32)
        requires
            old(self).wf(),
            interrupt < old(self).num_interrupts(),
        ensures
            final(self).wf(),
            final(self).pending@ == old(self).pending@.update(interrupt as int, true),
            final(self).enabled@ == old(self).enabled@,
    {
        self.pending.set(interrupt as usize, true);
    }

    /// Report the lowest enabled pending interrupt without claiming it;
    /// side-effect-free.
    pub fn next_pending(&self) -> (r: Option<u32>)
        requires
            self.wf(),
        ensures
            r == self.spec_next_pending(),
    {
        let n = self.pending.len();
        let mut i: usize = 0;
        while i < n
            invariant
                self.wf(),
                i <= n,
                n == self.num_interrupts(),
                self.first_signalled_from(0) == self.first_signalled_from(i as int),
            decreases n - i,
        {
            if self.enabled[i] && self.pending[i] {
                return Some(i as u32);
            }
            i = i + 1;
        }
        None
    }

    pub fn has_pending(&self) -> (r: bool)
        requires
            self.wf(),
        ensures
            r == self.spec_next_pending().is_some(),
    {
        self.next_pending().is_some()
    }
}

pub struct JClulow1 {
    pub csr: Csr,
    pub nvic: Nvic,
    /// The deep-sleep request bit of the system control block.
    pub scb_sleepdeep: bool,
}

impl JClulow1 {
    pub fn new(num_interrupts: usize) -> (c: JClulow1)
        requires
            num_interrupts <= 0xffff_ffff,
        ensures
            c.nvic.wf(),
            c.nvic.num_interrupts() == num_interrupts,
            !c.csr.interrupts_enabled(),
            !c.scb_sleepdeep,
    {
        JClulow1 { csr: Csr::new(), nvic: Nvic::new(num_interrupts), scb_sleepdeep: false }
    }

    /// Drain pending interrupts.  No interrupt source is mapped to a
    /// handler on this chip yet, so the first pending interrupt is
    /// reported back as unhandled — the caller escalates it as a fault —
    /// and nothing reports an empty controller.
    pub fn service_pending_interrupts(&mut self) -> (r: Option<u32>)
        requires
            old(self).nvic.wf(),
        ensures
            *final(self) == *old(self),
            r == old(self).nvic.spec_next_pending(),
    {
        self.nvic.next_pending()
    }

    pub fn has_pending_interrupts(&self) -> (r: bool)
        requires
            self.nvic.wf(),
        ensures
            r == self.nvic.spec_next_pending().is_some(),
    {
        self.nvic.has_pending()
    }

    /// Enter the low-power wait state in shallow sleep: the deep-sleep
    /// request is withdrawn before waiting.  Must not be called with
    /// interrupts globally disabled: the wake path would be masked.
    pub fn sleep(&mut self)
        requires
            old(self).csr.interrupts_enabled(),
        ensures
            !final(self).scb_sleepdeep,
            final(self).csr == old(self).csr,
            final(self).nvic == old(self).nvic,
    {
        self.scb_sleepdeep = false;
    }

    /// Run `f` with interrupts masked, restoring the prior mask exactly.
    pub fn atomic<R, F: FnOnce() -> R>(&mut self, f: F) -> (r: R)
        requires
            call_requires(f, ()),
        ensures
            call_ensures(f, (), r),
            exists|mid: Csr, g: AtomicGuard|
                atomic_enter_rel(old(self).csr, mid, g) && atomic_exit_rel(mid, final(self).csr, g),
            final(self).nvic == old(self).nvic,
            final(self).scb_sleepdeep == old(self).scb_sleepdeep,
    {
        crate::support::atomic(&mut self.csr, f)
    }
}

} // verus!
