//! The alarm multiplexer: one hardware compare register, many clients.
//!
//! Every capsule that wants a timeout registers a virtual alarm client
//! here; the multiplexer is the single arbiter of the one hardware timer.
//! It tracks the nearest enabled deadline and reprograms the hardware only
//! when that minimum changes.  When the hardware fires, clients whose
//! deadlines have passed are notified in ascending-deadline order (ties in
//! registration order), each marked disabled before its notification, so a
//! client that re-arms inside its own callback is not notified twice in
//! the same dispatch pass.

use vstd::prelude::*;
use crate::csr::Csr;
use crate::support::{atomic_enter, atomic_exit, lemma_mask_bit_roundtrip};
use crate::ticks::{has_reached, spec_wrapping_sub, tick_reached, wrapping_sub};
use crate::timer::RvTimer;

verus! {

/// One registered client's slot: its deadline, whether the deadline is
/// armed, and whether the slot is in use at all.
#[derive(Clone, Copy, PartialEq, Eq, Structural, Debug)]
pub struct VirtualAlarmClient {
    pub registered: bool,
    pub enabled: bool,
    pub deadline: u32,
}

/// The transient state of one `fired` dispatch pass: the time the pass
/// observed on entry, and which clients have already been notified.
pub struct FiredPass {
    /// The counter value read once when the pass began; every expiry test
    /// in the pass uses this single observation.
    pub now: u32,
    /// Per-client notified marks for this pass.
    pub done: Vec<bool>,
}

pub struct AlarmMultiplexer {
    pub clients: Vec<VirtualAlarmClient>,
    /// The counter value read when the hardware deadline was last
    /// recomputed; deadline distances are measured from here.
    pub min_ref: u32,
}

impl AlarmMultiplexer {
    /// Client `i` exists, is registered and has an armed deadline.
    pub open spec fn active(self, i: int) -> bool {
        &&& 0 <= i < self.clients@.len()
        &&& self.clients@[i].registered
        &&& self.clients@[i].enabled
    }

    pub open spec fn any_active(self) -> bool {
        exists|i: int| #[trigger] self.active(i)
    }

    /// Distance from the last recompute point forward to client `i`'s
    /// deadline: the measure by which the nearest deadline is chosen.
    pub open spec fn dist_ahead(self, i: int) -> u32 {
        spec_wrapping_sub(self.clients@[i].deadline, self.min_ref)
    }

    /// The hardware compare register always reflects the earliest enabled
    /// deadline among all registered clients, or is disabled if no client
    /// is enabled.
    pub open spec fn tracks(self, t: RvTimer) -> bool {
        if self.any_active() {
            &&& t.alarm_enabled()
            &&& exists|i: int|
                #[trigger] self.active(i) && self.clients@[i].deadline == t.spec_alarm()
            &&& forall|i: int|
                #[trigger] self.active(i) ==> spec_wrapping_sub(t.spec_alarm(), self.min_ref)
                    <= self.dist_ahead(i)
        } else {
            !t.alarm_enabled()
        }
    }

    /// A multiplexer with no clients yet.
    pub fn new() -> (m: AlarmMultiplexer)
        ensures
            m.clients@.len() == 0,
            m.min_ref == 0,
            !m.any_active(),
    {
        AlarmMultiplexer { clients: Vec::new(), min_ref: 0 }
    }

    /// Add a client slot, initially disabled.  Safe to call from both
    /// interrupt and ordinary context: the list update runs inside a
    /// critical section, and the interrupt mask is restored exactly.
    pub fn register(&mut self, csr: &mut Csr) -> (idx: usize)
        ensures
            idx == old(self).clients@.len(),
            final(self).clients@ == old(self).clients@.push(
                VirtualAlarmClient { registered: true, enabled: false, deadline: 0 },
            ),
            final(self).min_ref == old(self).min_ref,
            final(csr).mstatus == old(csr).mstatus,
            final(csr).interrupts_enabled() == old(csr).interrupts_enabled(),
            final(csr).mie == old(csr).mie,
    {
        let g = atomic_enter(csr);
        let idx = self.clients.len();
        self.clients.push(VirtualAlarmClient { registered: true, enabled: false, deadline: 0 });
        atomic_exit(csr, g);
        proof {
            if old(csr).interrupts_enabled() {
                lemma_mask_bit_roundtrip(old(csr).mstatus);
            }
        }
        idx
    }

    /// Release a client slot and drop its deadline; the hardware is
    /// reprogrammed in case the slot held the current minimum.  Runs
    /// inside a critical section, like `register`.
    pub fn deregister(&mut self, csr: &mut Csr, timer: &mut RvTimer, client: usize)
        requires
            client < old(self).clients@.len(),
        ensures
            final(self).clients@ == old(self).clients@.update(
                client as int,
                VirtualAlarmClient { registered: false, enabled: false, deadline: 0 },
            ),
            final(self).tracks(*final(timer)),
            final(self).min_ref == old(timer).spec_now(),
            final(timer).spec_now() == old(timer).spec_now(),
            final(timer).pending == old(timer).pending,
            final(csr).mstatus == old(csr).mstatus,
            final(csr).interrupts_enabled() == old(csr).interrupts_enabled(),
            final(csr).mie == old(csr).mie,
    {
        let g = atomic_enter(csr);
        self.clients.set(
            client,
            VirtualAlarmClient { registered: false, enabled: false, deadline: 0 },
        );
        self.recompute(timer);
        atomic_exit(csr, g);
        proof {
            if old(csr).interrupts_enabled() {
                lemma_mask_bit_roundtrip(old(csr).mstatus);
            }
        }
    }

    /// Record the client's deadline, mark it enabled, and reprogram the
    /// hardware if the minimum deadline changed.
    pub fn set_alarm(&mut self, timer: &mut RvTimer, client: usize, deadline: u32)
        requires
            client < old(self).clients@.len(),
            old(self).clients@[client as int].registered,
        ensures
            final(self).clients@ == old(self).clients@.update(
                client as int,
                VirtualAlarmClient { registered: true, enabled: true, deadline },
            ),
            final(self).tracks(*final(timer)),
            final(self).min_ref == old(timer).spec_now(),
            final(timer).spec_now() == old(timer).spec_now(),
            final(timer).pending == old(timer).pending,
    {
        self.clients.set(client, VirtualAlarmClient { registered: true, enabled: true, deadline });
        self.recompute(timer);
    }

    /// Mark the client disabled; if it held the current minimum the
    /// hardware is reprogrammed, and if no enabled client remains the
    /// hardware timer is disabled.
    pub fn disable(&mut self, timer: &mut RvTimer, client: usize)
        requires
            client < old(self).clients@.len(),
        ensures
            final(self).clients@ == old(self).clients@.update(
                client as int,
                VirtualAlarmClient {
                    registered: old(self).clients@[client as int].registered,
                    enabled: false,
                    deadline: old(self).clients@[client as int].deadline,
                },
            ),
            final(self).tracks(*final(timer)),
            final(self).min_ref == old(timer).spec_now(),
            final(timer).spec_now() == old(timer).spec_now(),
            final(timer).pending == old(timer).pending,
    {
        let c = self.clients[client];
        self.clients.set(
            client,
            VirtualAlarmClient { registered: c.registered, enabled: false, deadline: c.deadline },
        );
        self.recompute(timer);
    }

    /// Recompute the minimum enabled deadline, measured forward from the
    /// current counter value, and reprogram the hardware only if the
    /// armed deadline has to change.
    fn recompute(&mut self, timer: &mut RvTimer)
        ensures
            final(self).clients@ == old(self).clients@,
            final(self).min_ref == old(timer).spec_now(),
            final(self).tracks(*final(timer)),
            final(timer).spec_now() == old(timer).spec_now(),
            final(timer).pending == old(timer).pending,
            final(timer).registers.ctrl == old(timer).registers.ctrl,
            final(timer).registers.config == old(timer).registers.config,
    {
        let now = timer.now();
        self.min_ref = now;
        let n = self.clients.len();
        let mut best: Option<u32> = None;
        let mut i: usize = 0;
        while i < n
            invariant
                i <= n,
                n == self.clients@.len(),
                self.min_ref == now,
                *timer == *old(timer),
                now == timer.spec_now(),
                self.clients@ == old(self).clients@,
                best is None ==> forall|j: int| 0 <= j < i ==> !(#[trigger] self.active(j)),
                best matches Some(d) ==> {
                    &&& exists|j: int|
                        0 <= j < i && #[trigger] self.active(j) && self.clients@[j].deadline == d
                    &&& forall|j: int|
                        0 <= j < i && #[trigger] self.active(j) ==> spec_wrapping_sub(d, now)
                            <= self.dist_ahead(j)
                },
            decreases n - i,
        {
            let c = self.clients[i];
            if c.registered && c.enabled {
                proof {
                    assert(self.active(i as int));
                }
                best = match best {
                    None => Some(c.deadline),
                    Some(d) => {
                        if wrapping_sub(c.deadline, now) < wrapping_sub(d, now) {
                            Some(c.deadline)
                        } else {
                            Some(d)
                        }
                    },
                };
            }
            i = i + 1;
        }
        match best {
            Some(d) => {
                if !(timer.is_enabled() && timer.get_alarm() == d) {
                    timer.set_alarm(d);
                }
            },
            None => {
                timer.disable();
            },
        }
    }

    /// Client `i` is still due a notification in the pass: registered,
    /// enabled, not yet notified, and its deadline has passed.
    pub open spec fn candidate(self, pass: FiredPass, i: int) -> bool {
        &&& 0 <= i < self.clients@.len()
        &&& i < pass.done@.len()
        &&& self.clients@[i].registered
        &&& self.clients@[i].enabled
        &&& !pass.done@[i]
        &&& tick_reached(pass.now, self.clients@[i].deadline)
    }

    /// Client `i` was active with a passed deadline when the pass began.
    pub open spec fn expired_active(self, now: u32, i: int) -> bool {
        &&& self.active(i)
        &&& tick_reached(now, self.clients@[i].deadline)
    }

    /// Dispatch priority among expired clients: the earlier deadline fires
    /// first — the one that expired longer ago, measured back from `now` —
    /// and clients with identical deadlines fire in registration order.
    pub open spec fn fires_before(self, now: u32, i: int, j: int) -> bool {
        let di = spec_wrapping_sub(now, self.clients@[i].deadline);
        let dj = spec_wrapping_sub(now, self.clients@[j].deadline);
        di > dj || (di == dj && i < j)
    }

    /// Open a dispatch pass: capture `now` once; no client is notified yet.
    pub fn begin_fired(&self, timer: &RvTimer) -> (pass: FiredPass)
        ensures
            pass.now == timer.spec_now(),
            pass.done@.len() == self.clients@.len(),
            forall|j: int| 0 <= j < pass.done@.len() ==> !pass.done@[j],
    {
        let now = timer.now();
        let n = self.clients.len();
        let mut done: Vec<bool> = Vec::new();
        let mut i: usize = 0;
        while i < n
            invariant
                i <= n,
                done@.len() == i,
                forall|j: int| 0 <= j < i ==> !done@[j],
            decreases n - i,
        {
            done.push(false);
            i = i + 1;
        }
        FiredPass { now, done }
    }

    /// Pick the next client to notify: the highest-priority candidate of
    /// the pass, marked disabled before the caller runs its callback, and
    /// marked notified so no re-arm can earn it a second notification in
    /// this pass.  Returns nothing once every expired client has been
    /// notified.
    pub fn next_to_notify(&mut self, pass: &mut FiredPass) -> (r: Option<usize>)
        requires
            old(pass).done@.len() == old(self).clients@.len(),
        ensures
            final(pass).now == old(pass).now,
            final(pass).done@.len() == old(pass).done@.len(),
            final(self).clients@.len() == old(self).clients@.len(),
            final(self).min_ref == old(self).min_ref,
            match r {
                Some(i) => {
                    &&& old(self).candidate(*old(pass), i as int)
                    &&& forall|j: int|
                        old(self).candidate(*old(pass), j) && j != i ==> old(self).fires_before(
                            old(pass).now,
                            i as int,
                            j,
                        )
                    &&& final(self).clients@ == old(self).clients@.update(
                        i as int,
                        VirtualAlarmClient {
                            registered: true,
                            enabled: false,
                            deadline: old(self).clients@[i as int].deadline,
                        },
                    )
                    &&& final(pass).done@ == old(pass).done@.update(i as int, true)
                },
                None => {
                    &&& forall|j: int| !old(self).candidate(*old(pass), j)
                    &&& *final(self) == *old(self)
                    &&& *final(pass) == *old(pass)
                },
            },
    {
        let n = self.clients.len();
        let mut best: Option<usize> = None;
        let mut i: usize = 0;
        while i < n
            invariant
                i <= n,
                n == self.clients@.len(),
                pass.done@.len() == n,
                best is None ==> forall|j: int| 0 <= j < i ==> !(#[trigger] self.candidate(
                    *pass,
                    j,
                )),
                best matches Some(b) ==> {
                    &&& b < i
                    &&& self.candidate(*pass, b as int)
                    &&& forall|j: int|
                        0 <= j < i && #[trigger] self.candidate(*pass, j) && j != b
                            ==> self.fires_before(pass.now, b as int, j)
                },
            decreases n - i,
        {
            let c = self.clients[i];
            if c.registered && c.enabled && !pass.done[i] && has_reached(pass.now, c.deadline) {
                proof {
                    assert(self.candidate(*pass, i as int));
                }
                best = match best {
                    None => Some(i),
                    Some(b) => {
                        let db = wrapping_sub(pass.now, self.clients[b].deadline);
                        let dc = wrapping_sub(pass.now, c.deadline);
                        if dc > db {
                            Some(i)
                        } else {
                            Some(b)
                        }
                    },
                };
            }
            i = i + 1;
        }
        match best {
            Some(b) => {
                let c = self.clients[b];
                self.clients.set(
                    b,
                    VirtualAlarmClient {
                        registered: true,
                        enabled: false,
                        deadline: c.deadline,
                    },
                );
                pass.done.set(b, true);
                Some(b)
            },
            None => None,
        }
    }

    /// Close a dispatch pass: recompute the minimum over the clients as
    /// they now stand — including any that re-armed during the pass — and
    /// reprogram the hardware.
    pub fn finish_fired(&mut self, timer: &mut RvTimer, pass: FiredPass)
        ensures
            final(self).clients@ == old(self).clients@,
            final(self).min_ref == old(timer).spec_now(),
            final(self).tracks(*final(timer)),
            final(timer).spec_now() == old(timer).spec_now(),
            final(timer).pending == old(timer).pending,
    {
        let _ = pass;
        self.recompute(timer);
    }

    /// The hardware-fired callback, for clients that do not re-arm during
    /// the pass: notifies every enabled client whose deadline has passed
    /// at the single `now` observed on entry — in ascending-deadline
    /// order, ties in registration order — marking each disabled before
    /// its notification, then recomputes the minimum and reprograms the
    /// hardware.  Returns the clients notified, in notification order.
    pub fn fired(&mut self, timer: &mut RvTimer) -> (order: Vec<usize>)
        ensures
            ({
                let now0 = old(timer).spec_now();
                let pre = *old(self);
                &&& forall|k: int|
                    0 <= k < order@.len() ==> pre.expired_active(now0, #[trigger] order@[k] as int)
                &&& forall|i: int|
                    #[trigger] pre.expired_active(now0, i) ==> exists|k: int|
                        0 <= k < order@.len() && order@[k] as int == i
                &&& forall|k1: int, k2: int|
                    0 <= k1 < k2 < order@.len() ==> pre.fires_before(
                        now0,
                        #[trigger] order@[k1] as int,
                        #[trigger] order@[k2] as int,
                    )
                &&& final(self).clients@.len() == pre.clients@.len()
                &&& forall|i: int|
                    0 <= i < pre.clients@.len() ==> #[trigger] final(self).clients@[i] == (
                    if pre.expired_active(now0, i) {
                        VirtualAlarmClient {
                            registered: true,
                            enabled: false,
                            deadline: pre.clients@[i].deadline,
                        }
                    } else {
                        pre.clients@[i]
                    })
            }),
            final(self).tracks(*final(timer)),
            final(timer).spec_now() == old(timer).spec_now(),
            final(timer).pending == old(timer).pending,
    {
        let ghost pre = *self;
        let ghost now0 = timer.spec_now();
        let n = self.clients.len();
        let mut pass = self.begin_fired(timer);
        let mut order: Vec<usize> = Vec::new();
        loop
            invariant_except_break
                n == pre.clients@.len(),
                self.clients@.len() == n,
                pass.done@.len() == n,
                pass.now == now0,
                *timer == *old(timer),
                forall|i: int|
                    0 <= i < n ==> #[trigger] self.clients@[i] == (if pass.done@[i] {
                        VirtualAlarmClient {
                            registered: true,
                            enabled: false,
                            deadline: pre.clients@[i].deadline,
                        }
                    } else {
                        pre.clients@[i]
                    }),
                forall|i: int|
                    0 <= i < n && #[trigger] pass.done@[i] ==> pre.expired_active(now0, i),
                forall|i: int|
                    0 <= i < n && #[trigger] pass.done@[i] ==> exists|k: int|
                        0 <= k < order@.len() && order@[k] as int == i,
                forall|k: int|
                    0 <= k < order@.len() ==> (#[trigger] order@[k]) < n && pass.done@[order@[k] as int],
                forall|k1: int, k2: int|
                    0 <= k1 < k2 < order@.len() ==> pre.fires_before(
                        now0,
                        #[trigger] order@[k1] as int,
                        #[trigger] order@[k2] as int,
                    ),
                forall|k: int, j: int|
                    0 <= k < order@.len() && #[trigger] self.candidate(pass, j)
                        ==> pre.fires_before(now0, #[trigger] order@[k] as int, j),
            ensures
                n == pre.clients@.len(),
                self.clients@.len() == n,
                pass.done@.len() == n,
                pass.now == now0,
                *timer == *old(timer),
                forall|i: int|
                    0 <= i < n ==> #[trigger] self.clients@[i] == (if pass.done@[i] {
                        VirtualAlarmClient {
                            registered: true,
                            enabled: false,
                            deadline: pre.clients@[i].deadline,
                        }
                    } else {
                        pre.clients@[i]
                    }),
                forall|i: int|
                    0 <= i < n && #[trigger] pass.done@[i] ==> pre.expired_active(now0, i),
                forall|i: int|
                    0 <= i < n && #[trigger] pass.done@[i] ==> exists|k: int|
                        0 <= k < order@.len() && order@[k] as int == i,
                forall|k: int|
                    0 <= k < order@.len() ==> (#[trigger] order@[k]) < n && pass.done@[order@[k] as int],
                forall|k1: int, k2: int|
                    0 <= k1 < k2 < order@.len() ==> pre.fires_before(
                        now0,
                        #[trigger] order@[k1] as int,
                        #[trigger] order@[k2] as int,
                    ),
                forall|j: int| !self.candidate(pass, j),
            decreases pass.done@.len() - crate::plic::count_true(pass.done@),
        {
            let ghost prev = *self;
            let ghost prev_pass = pass;
            let ghost prev_order = order@;
            match self.next_to_notify(&mut pass) {
                Some(i) => {
                    order.push(i);
                    proof {
                        let ii = i as int;
                        crate::plic::lemma_count_true_le_len(pass.done@);
                        crate::plic::lemma_count_true_clear(pass.done@, ii);
                        assert(pass.done@.update(ii, false) =~= prev_pass.done@);
                        assert(crate::plic::count_true(prev_pass.done@) < crate::plic::count_true(
                            pass.done@,
                        ));
                        assert(prev.candidate(prev_pass, ii));
                        assert(pre.expired_active(now0, ii));
                        assert forall|i2: int|
                            0 <= i2 < n && #[trigger] pass.done@[i2] implies exists|k: int|
                            0 <= k < order@.len() && order@[k] as int == i2 by {
                            if i2 == ii {
                                assert(order@[order@.len() - 1] as int == i2);
                            } else {
                                assert(prev_pass.done@[i2]);
                                let k0 = choose|k: int|
                                    0 <= k < prev_order.len() && prev_order[k] as int == i2;
                                assert(order@[k0] as int == i2);
                            }
                        }
                        assert forall|k: int, j: int|
                            0 <= k < order@.len() && #[trigger] self.candidate(pass, j) implies pre.fires_before(
                            now0,
                            #[trigger] order@[k] as int,
                            j,
                        ) by {
                            assert(prev.candidate(prev_pass, j));
                            assert(j != ii);
                            if k < order@.len() - 1 {
                                assert(prev_order[k] == order@[k]);
                            } else {
                                assert(order@[k] as int == ii);
                                assert(prev.fires_before(prev_pass.now, ii, j));
                            }
                        }
                        assert forall|k1: int, k2: int|
                            0 <= k1 < k2 < order@.len() implies pre.fires_before(
                            now0,
                            #[trigger] order@[k1] as int,
                            #[trigger] order@[k2] as int,
                        ) by {
                            if k2 == order@.len() - 1 {
                                assert(prev.candidate(prev_pass, ii));
                                assert(prev_order[k1] == order@[k1]);
                            }
                        }
                    }
                },
                None => {
                    break ;
                },
            }
        }
        proof {
            assert forall|i: int|
                0 <= i < n && pre.expired_active(now0, i) implies #[trigger] pass.done@[i] by {
                if !pass.done@[i] {
                    assert(self.clients@[i] == pre.clients@[i]);
                    assert(self.candidate(pass, i));
                }
            }
            assert forall|i: int| #[trigger]
                pre.expired_active(now0, i) implies exists|k: int|
                0 <= k < order@.len() && order@[k] as int == i by {
                assert(0 <= i < n);
                assert(pass.done@[i]);
            }
        }
        let ghost mid = *self;
        self.finish_fired(timer, pass);
        proof {
            assert(self.clients@ == mid.clients@);
        }
        order
    }

    /// Registering a client does not disturb the hardware: the new slot is
    /// disabled, so the compare register still reflects the minimum
    /// deadline among the enabled clients.
    pub proof fn lemma_tracks_after_register(
        pre: AlarmMultiplexer,
        post: AlarmMultiplexer,
        c: VirtualAlarmClient,
        t: RvTimer,
    )
        requires
            pre.tracks(t),
            post.clients@ == pre.clients@.push(c),
            !c.enabled,
            post.min_ref == pre.min_ref,
        ensures
            post.tracks(t),
    {
        assert forall|i: int| #[trigger] post.active(i) implies pre.active(i) by {
            assert(i < pre.clients@.len());
        }
        if pre.any_active() {
            let w = choose|i: int| #[trigger] pre.active(i) && pre.clients@[i].deadline
                == t.spec_alarm();
            assert(post.active(w));
        }
    }

    /// A client already notified in a dispatch pass is no candidate of
    /// that pass any more, whatever its slot now holds: a re-arm inside
    /// its own callback changes its deadline and enable flag, never the
    /// pass's notified mark, so no client is notified twice in one pass.
    pub proof fn lemma_no_double_fire(m: AlarmMultiplexer, pass: FiredPass, i: int)
        requires
            0 <= i < pass.done@.len(),
            pass.done@[i],
        ensures
            !m.candidate(pass, i),
    {
    }
}

} // verus!
