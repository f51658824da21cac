//! A virtual-alarm client that blinks a pin on a fixed interval: after an
//! initial delay it re-arms itself a bounded number of times, toggling its
//! pin from each notification.

use vstd::prelude::*;
use crate::mux::{AlarmMultiplexer, VirtualAlarmClient};
use crate::ticks::{spec_wrapping_add, wrapping_add};
use crate::timer::{RvTimer, TIMER_FREQ};

verus! {

/// Ticks of the hardware timer in `ms` milliseconds, truncated to the
/// counter's width.
pub open spec fn spec_ms_to_tick(ms: u32) -> u32 {
    ((TIMER_FREQ * ms / 1000) % 0x1_0000_0000) as u32
}

pub fn ms_to_tick(ms: u32) -> (r: u32)
    ensures
        r == spec_ms_to_tick(ms),
{
    let freq = crate::timer::Freq10KHz::frequency();
    let ftick = (freq as u64) * (ms as u64);
    let t = ftick / 1000;
    proof {
        assert(t as u32 == t % 0x1_0000_0000) by (bit_vector);
    }
    #[verifier::truncate]
    (t as u32)
}

pub struct TestAlarm {
    /// The slot this client holds with the alarm multiplexer.
    pub client: usize,
    /// Notifications still to schedule.
    pub count: u32,
    /// Re-arm interval, in ticks.
    pub interval: u32,
    /// Level of the indicator pin the client toggles, if one is wired.
    pub toggle_pin: Option<bool>,
}

impl TestAlarm {
    pub fn new(client: usize, pin: Option<bool>) -> (t: TestAlarm)
        ensures
            t.client == client,
            t.count == 0,
            t.interval == 0,
            t.toggle_pin == pin,
    {
        TestAlarm { client, count: 0, interval: 0, toggle_pin: pin }
    }

    /// Wait `initial_ms`, then fire every `interval_ms` for `count`
    /// further notifications: arms the first deadline at an absolute tick.
    pub fn run(
        &mut self,
        mux: &mut AlarmMultiplexer,
        timer: &mut RvTimer,
        initial_ms: u32,
        interval_ms: u32,
        count: u32,
    )
        requires
            old(self).client < old(mux).clients@.len(),
            old(mux).clients@[old(self).client as int].registered,
        ensures
            final(self).count == count,
            final(self).interval == spec_ms_to_tick(interval_ms),
            final(self).client == old(self).client,
            final(self).toggle_pin == old(self).toggle_pin,
            final(mux).clients@ == old(mux).clients@.update(
                old(self).client as int,
                VirtualAlarmClient {
                    registered: true,
                    enabled: true,
                    deadline: spec_ms_to_tick(initial_ms),
                },
            ),
            final(mux).tracks(*final(timer)),
            final(timer).spec_now() == old(timer).spec_now(),
    {
        self.count = count;
        self.interval = ms_to_tick(interval_ms);
        let first = ms_to_tick(initial_ms);
        self.set_next_alarm(mux, timer, first);
    }

    /// Arm this client's deadline at an absolute tick.
    fn set_next_alarm(&self, mux: &mut AlarmMultiplexer, timer: &mut RvTimer, tick: u32)
        requires
            self.client < old(mux).clients@.len(),
            old(mux).clients@[self.client as int].registered,
        ensures
            final(mux).clients@ == old(mux).clients@.update(
                self.client as int,
                VirtualAlarmClient { registered: true, enabled: true, deadline: tick },
            ),
            final(mux).tracks(*final(timer)),
            final(timer).spec_now() == old(timer).spec_now(),
    {
        mux.set_alarm(timer, self.client, tick);
    }

    /// The client's notification callback: toggle the pin, and if any
    /// notifications remain, re-arm one interval past the current time.
    pub fn fired(&mut self, mux: &mut AlarmMultiplexer, timer: &mut RvTimer)
        requires
            old(self).client < old(mux).clients@.len(),
            old(mux).clients@[old(self).client as int].registered,
        ensures
            final(self).client == old(self).client,
            final(self).interval == old(self).interval,
            final(self).toggle_pin == match old(self).toggle_pin {
                Some(level) => Some(!level),
                None => None::<bool>,
            },
            old(self).count > 0 ==> {
                &&& final(self).count == old(self).count - 1
                &&& final(mux).clients@ == old(mux).clients@.update(
                    old(self).client as int,
                    VirtualAlarmClient {
                        registered: true,
                        enabled: true,
                        deadline: spec_wrapping_add(old(timer).spec_now(), old(self).interval),
                    },
                )
                &&& final(mux).tracks(*final(timer))
            },
            old(self).count == 0 ==> {
                &&& final(self).count == 0
                &&& *final(mux) == *old(mux)
                &&& *final(timer) == *old(timer)
            },
    {
        self.toggle_pin = match self.toggle_pin {
            Some(level) => Some(!level),
            None => None,
        };
        let c = self.count;
        if c > 0 {
            self.count = c - 1;
            let now = timer.now();
            let expire = wrapping_add(now, self.interval);
            self.set_next_alarm(mux, timer, expire);
        }
    }
}

} // verus!
