//! High-level chip abstraction: the contract the kernel main loop consumes.
//!
//! One value of [`Ibex`] composes the chip's register file, its external
//! interrupt controller and its hardware timer.  The kernel loop drains all
//! pending interrupts, asks whether any remain before sleeping, and enters
//! low-power wait; every drained external source is routed to its owning
//! driver by a static source-range mapping and then completed, so reports
//! and completions always pair up.

use vstd::prelude::*;
use crate::csr::{Csr, MIE_MEXT};
use crate::plic::{count_true, lemma_count_true_clear, lemma_count_true_le_len, Plic};
use crate::support::{atomic_enter_rel, atomic_exit_rel, AtomicGuard};
use crate::timer::RvTimer;

verus! {

/// Lowest interrupt source identifier owned by the serial driver.
pub const UART_TX_WATERMARK: u32 = 1;

/// One past the serial driver's source range, as routed here.
pub const UART_RX_PARITY_ERR: u32 = 8;

/// Interrupt source identifier of the first general-purpose pin.
pub const GPIO_PIN0: u32 = 9;

/// One past the pin source range, as routed here.
pub const GPIO_PIN31: u32 = 40;

/// The driver a drained interrupt source is handed to, fixed by the
/// source's numeric range.
#[derive(Clone, Copy, PartialEq, Eq, Structural, Debug)]
pub enum DriverTarget {
    Uart,
    /// A pin interrupt, carrying the pin index within the port.
    Gpio(u32),
    /// No driver owns the source; the event is only reported.
    Unknown,
}

/// One unit of work performed by a drain of the pending interrupts.
#[derive(Clone, Copy, PartialEq, Eq, Structural, Debug)]
pub enum ServicedEvent {
    /// The hardware timer had latched a match; the alarm layer runs next.
    TimerFired,
    /// An external source, routed to its owning driver and completed.
    External(u32, DriverTarget),
}

/// The static source-range mapping from interrupt source to owning driver.
pub open spec fn spec_route(source: u32) -> DriverTarget {
    if UART_TX_WATERMARK <= source < UART_RX_PARITY_ERR {
        DriverTarget::Uart
    } else if GPIO_PIN0 <= source < GPIO_PIN31 {
        DriverTarget::Gpio((source - GPIO_PIN0) as u32)
    } else {
        DriverTarget::Unknown
    }
}

/// The external-source identifier an event carries.
pub open spec fn event_source(e: ServicedEvent) -> int {
    match e {
        ServicedEvent::TimerFired => -1,
        ServicedEvent::External(s, _) => s as int,
    }
}

pub fn route_interrupt(source: u32) -> (t: DriverTarget)
    ensures
        t == spec_route(source),
{
    if UART_TX_WATERMARK <= source && source < UART_RX_PARITY_ERR {
        DriverTarget::Uart
    } else if GPIO_PIN0 <= source && source < GPIO_PIN31 {
        DriverTarget::Gpio(source - GPIO_PIN0)
    } else {
        DriverTarget::Unknown
    }
}

pub struct Ibex {
    pub csr: Csr,
    pub plic: Plic,
    pub timer: RvTimer,
}

impl Ibex {
    /// No source is claimed: every report has been paired with its
    /// completion, the resting state between drains.
    pub open spec fn none_in_service(self) -> bool {
        forall|s: int| 0 <= s < self.plic.num_sources() ==> !(#[trigger] self.plic.in_service@[s])
    }

    pub fn new(num_sources: usize) -> (c: Ibex)
        requires
            num_sources <= 0xffff_ffff,
        ensures
            c.plic.wf(),
            c.plic.num_sources() == num_sources,
            c.none_in_service(),
            forall|s: int| 0 <= s < num_sources ==> !(#[trigger] c.plic.pending@[s]),
            forall|s: int| 0 <= s < num_sources ==> !(#[trigger] c.plic.enabled@[s]),
            !c.timer.pending,
            !c.csr.interrupts_enabled(),
    {
        Ibex { csr: Csr::new(), plic: Plic::new(num_sources), timer: RvTimer::new() }
    }

    /// Reset the controller to a clean slate with every source enabled:
    /// disable all, drop stale latches, then enable all.
    pub fn enable_plic_interrupts(&mut self)
        requires
            old(self).plic.wf(),
        ensures
            final(self).plic.wf(),
            final(self).plic.num_sources() == old(self).plic.num_sources(),
            forall|s: int|
                0 <= s < final(self).plic.num_sources() ==> (#[trigger] final(self).plic.enabled@[s]),
            forall|s: int|
                0 <= s < final(self).plic.num_sources() ==> !(#[trigger] final(self).plic.pending@[s]),
            final(self).plic.in_service@ == old(self).plic.in_service@,
            final(self).timer == old(self).timer,
            final(self).csr == old(self).csr,
    {
        self.plic.disable_all();
        self.plic.clear_all_pending();
        self.plic.enable_all();
    }

    /// Cheap, side-effect-free check the scheduler uses before sleeping.
    pub fn has_pending_interrupts(&self) -> (r: bool)
        requires
            self.plic.wf(),
        ensures
            r == (self.plic.spec_next_pending().is_some() || self.timer.pending),
    {
        self.plic.has_pending() || self.timer.is_pending()
    }

    /// Enter the low-power wait state; the hardware wakes on any unmasked
    /// interrupt.  Must not be called with interrupts globally disabled:
    /// the wake path would be masked and the core would hang.
    pub fn sleep(&self)
        requires
            self.csr.interrupts_enabled(),
    {
    }

    /// Run `f` with interrupts masked, restoring the prior mask exactly.
    pub fn atomic<R, F: FnOnce() -> R>(&mut self, f: F) -> (r: R)
        requires
            call_requires(f, ()),
        ensures
            call_ensures(f, (), r),
            exists|mid: Csr, g: AtomicGuard|
                atomic_enter_rel(old(self).csr, mid, g) && atomic_exit_rel(mid, final(self).csr, g),
            final(self).plic == old(self).plic,
            final(self).timer == old(self).timer,
    {
        crate::support::atomic(&mut self.csr, f)
    }

    /// Drain all pending work: consume a latched timer event, then report,
    /// route and complete every pending external source — lowest source
    /// first — until the controller is empty, and finally re-enable the
    /// core's external-interrupt line.  The drain performs exactly one
    /// dispatch-and-complete cycle per source pending at entry: a source
    /// latching during the drain is handled by the next call, and every
    /// report is paired with exactly one completion.
    pub fn service_pending_interrupts(&mut self) -> (events: Vec<ServicedEvent>)
        requires
            old(self).plic.wf(),
            old(self).none_in_service(),
        ensures
            final(self).plic.wf(),
            final(self).plic.num_sources() == old(self).plic.num_sources(),
            final(self).plic.enabled@ == old(self).plic.enabled@,
            final(self).none_in_service(),
            forall|s: int|
                0 <= s < final(self).plic.num_sources() ==> (#[trigger] final(self).plic.pending@[s]
                    == (old(self).plic.pending@[s] && !old(self).plic.claimable(s))),
            !final(self).timer.pending,
            final(self).timer.registers == old(self).timer.registers,
            final(self).csr.mext_enabled(),
            final(self).csr.mstatus == old(self).csr.mstatus,
            ({
                let k: int = if old(self).timer.pending {
                    1
                } else {
                    0
                };
                &&& events@.len() >= k
                &&& (old(self).timer.pending ==> events@[0] == ServicedEvent::TimerFired)
                &&& forall|j: int|
                    k <= j < events@.len() ==> {
                        let s = event_source(#[trigger] events@[j]);
                        &&& old(self).plic.claimable(s)
                        &&& events@[j] == ServicedEvent::External(s as u32, spec_route(s as u32))
                    }
                &&& forall|s: int|
                    #[trigger] old(self).plic.claimable(s) ==> exists|j: int|
                        k <= j < events@.len() && event_source(events@[j]) == s
                &&& forall|j1: int, j2: int|
                    k <= j1 < j2 < events@.len() ==> event_source(#[trigger] events@[j1])
                        < event_source(#[trigger] events@[j2])
            }),
    {
        let ghost pre = *self;
        let ghost k: int = if self.timer.pending {
            1
        } else {
            0
        };
        let mut events: Vec<ServicedEvent> = Vec::new();
        if self.timer.service_interrupts() {
            events.push(ServicedEvent::TimerFired);
        }
        loop
            invariant_except_break
                pre.plic.wf(),
                pre.none_in_service(),
                self.plic.wf(),
                self.plic.num_sources() == pre.plic.num_sources(),
                self.plic.enabled@ == pre.plic.enabled@,
                self.none_in_service(),
                self.timer.registers == pre.timer.registers,
                !self.timer.pending,
                self.csr == pre.csr,
                events@.len() >= k,
                k == (if pre.timer.pending {
                    1int
                } else {
                    0int
                }),
                pre.timer.pending ==> events@[0] == ServicedEvent::TimerFired,
                forall|s: int|
                    0 <= s < self.plic.num_sources() ==> (#[trigger] self.plic.pending@[s] == (
                    pre.plic.pending@[s] && !exists|j: int|
                        k <= j < events@.len() && event_source(events@[j]) == s)),
                forall|j: int|
                    k <= j < events@.len() ==> {
                        let s = event_source(#[trigger] events@[j]);
                        &&& pre.plic.claimable(s)
                        &&& events@[j] == ServicedEvent::External(s as u32, spec_route(s as u32))
                    },
                forall|j1: int, j2: int|
                    k <= j1 < j2 < events@.len() ==> event_source(#[trigger] events@[j1])
                        < event_source(#[trigger] events@[j2]),
                forall|j: int, s: int|
                    k <= j < events@.len() && #[trigger] self.plic.claimable(s) ==> event_source(
                        #[trigger] events@[j],
                    ) < s,
            ensures
                self.plic.wf(),
                self.plic.num_sources() == pre.plic.num_sources(),
                self.plic.enabled@ == pre.plic.enabled@,
                self.none_in_service(),
                self.timer.registers == pre.timer.registers,
                !self.timer.pending,
                self.csr == pre.csr,
                events@.len() >= k,
                pre.timer.pending ==> events@[0] == ServicedEvent::TimerFired,
                self.plic.spec_next_pending() == None::<u32>,
                forall|s: int|
                    0 <= s < self.plic.num_sources() ==> (#[trigger] self.plic.pending@[s] == (
                    pre.plic.pending@[s] && !exists|j: int|
                        k <= j < events@.len() && event_source(events@[j]) == s)),
                forall|j: int|
                    k <= j < events@.len() ==> {
                        let s = event_source(#[trigger] events@[j]);
                        &&& pre.plic.claimable(s)
                        &&& events@[j] == ServicedEvent::External(s as u32, spec_route(s as u32))
                    },
                forall|j1: int, j2: int|
                    k <= j1 < j2 < events@.len() ==> event_source(#[trigger] events@[j1])
                        < event_source(#[trigger] events@[j2]),
            decreases count_true(self.plic.pending@),
        {
            let ghost prev = *self;
            let ghost prev_events = events@;
            match self.plic.next_pending() {
                Some(interrupt) => {
                    proof {
                        lemma_count_true_le_len(self.plic.pending@);
                        lemma_count_true_clear(prev.plic.pending@, interrupt as int);
                        prev.plic.lemma_first_claimable_sound(0, interrupt);
                    }
                    let target = route_interrupt(interrupt);
                    events.push(ServicedEvent::External(interrupt, target));
                    self.plic.complete(interrupt);
                    proof {
                        let ii = interrupt as int;
                        assert(prev.plic.claimable(ii));
                        assert(pre.plic.claimable(ii)) by {
                            assert(prev.plic.pending@[ii] && prev.plic.enabled@[ii]);
                            assert(!pre.plic.in_service@[ii]);
                        }
                        assert forall|s: int|
                            0 <= s < self.plic.num_sources() implies (
                        #[trigger] self.plic.pending@[s] == (pre.plic.pending@[s] && !exists|
                            j: int,
                        |
                            k <= j < events@.len() && event_source(events@[j]) == s)) by {
                            assert(prev.plic.pending@[s] == (pre.plic.pending@[s] && !exists|
                                j: int,
                            | k <= j < prev_events.len() && event_source(prev_events[j]) == s));
                            if s == ii {
                                assert(event_source(events@[events@.len() - 1]) == s);
                                assert(!self.plic.pending@[s]);
                            } else {
                                assert(self.plic.pending@[s] == prev.plic.pending@[s]);
                                if exists|j: int|
                                    k <= j < prev_events.len() && event_source(prev_events[j])
                                        == s {
                                    let j0 = choose|j: int|
                                        k <= j < prev_events.len() && event_source(prev_events[j])
                                            == s;
                                    assert(events@[j0] == prev_events[j0]);
                                    assert(k <= j0 < events@.len() && event_source(events@[j0])
                                        == s);
                                }
                                if exists|j: int|
                                    k <= j < events@.len() && event_source(events@[j]) == s {
                                    let j1 = choose|j: int|
                                        k <= j < events@.len() && event_source(events@[j]) == s;
                                    assert(j1 != events@.len() - 1);
                                    assert(k <= j1 < prev_events.len() && event_source(
                                        prev_events[j1],
                                    ) == s);
                                }
                            }
                        }
                        assert forall|j: int, s: int|
                            k <= j < events@.len() && #[trigger] self.plic.claimable(
                                s,
                            ) implies event_source(#[trigger] events@[j]) < s by {
                            assert(prev.plic.claimable(s));
                            assert(s != ii);
                            if j == events@.len() - 1 {
                                if s < ii {
                                    prev.plic.lemma_first_claimable_least(0, interrupt, s);
                                }
                            }
                        }
                    }
                },
                None => {
                    proof {
                        assert forall|s: int|
                            0 <= s < self.plic.num_sources() implies !(
                        #[trigger] self.plic.claimable(s)) by {
                            self.plic.lemma_first_claimable_complete(0, s);
                        }
                    }
                    break ;
                },
            }
        }
        proof {
            assert forall|s: int| #[trigger]
                pre.plic.claimable(s) implies exists|j: int|
                k <= j < events@.len() && event_source(events@[j]) == s by {
                if !exists|j: int| k <= j < events@.len() && event_source(events@[j]) == s {
                    assert(self.plic.pending@[s]);
                    assert(self.plic.claimable(s));
                    self.plic.lemma_first_claimable_complete(0, s);
                }
            }
        }
        self.csr.set_mie_bit(MIE_MEXT, true);
        events
    }
}

} // verus!
