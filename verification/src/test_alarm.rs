//! A virtual-alarm client that keeps re-arming itself on an irregular
//! schedule, exercising an alarm implementation end to end.

use vstd::prelude::*;
use crate::alarm_test::{ms_to_tick, spec_ms_to_tick};
use crate::mux::{AlarmMultiplexer, VirtualAlarmClient};
use crate::ticks::{spec_wrapping_add, wrapping_add};
use crate::timer::RvTimer;

verus! {

/// The interval, in milliseconds, this client re-arms with after one at
/// `ms`: irregular on purpose, always between 10 and 766.
pub open spec fn spec_next_interval_ms(ms: u32) -> u32 {
    (10 + ((ms + 137) % 757)) as u32
}

pub struct TestAlarm {
    /// The slot this client holds with the alarm multiplexer.
    pub client: usize,
    /// The interval, in milliseconds, the current deadline was armed with.
    pub ms: u32,
}

impl TestAlarm {
    pub fn new(client: usize) -> (t: TestAlarm)
        ensures
            t.client == client,
            t.ms == 0,
    {
        TestAlarm { client, ms: 0 }
    }

    /// Start the schedule: arm the first deadline ten seconds out.
    pub fn run(&mut self, mux: &mut AlarmMultiplexer, timer: &mut RvTimer)
        requires
            old(self).client < old(mux).clients@.len(),
            old(mux).clients@[old(self).client as int].registered,
        ensures
            final(self).client == old(self).client,
            final(self).ms == 10000,
            final(mux).clients@ == old(mux).clients@.update(
                old(self).client as int,
                VirtualAlarmClient {
                    registered: true,
                    enabled: true,
                    deadline: spec_wrapping_add(
                        old(timer).spec_now(),
                        spec_ms_to_tick(10000),
                    ),
                },
            ),
            final(mux).tracks(*final(timer)),
            final(timer).spec_now() == old(timer).spec_now(),
    {
        self.ms = 10000;
        self.set_next_alarm(mux, timer, 10000);
    }

    /// Remember the interval and arm the deadline that many milliseconds
    /// past the current time.
    fn set_next_alarm(&mut self, mux: &mut AlarmMultiplexer, timer: &mut RvTimer, ms: u32)
        requires
            old(self).client < old(mux).clients@.len(),
            old(mux).clients@[old(self).client as int].registered,
        ensures
            final(self).client == old(self).client,
            final(self).ms == ms,
            final(mux).clients@ == old(mux).clients@.update(
                old(self).client as int,
                VirtualAlarmClient {
                    registered: true,
                    enabled: true,
                    deadline: spec_wrapping_add(old(timer).spec_now(), spec_ms_to_tick(ms)),
                },
            ),
            final(mux).tracks(*final(timer)),
            final(timer).spec_now() == old(timer).spec_now(),
    {
        self.ms = ms;
        let now = timer.now();
        let t = wrapping_add(now, ms_to_tick(ms));
        mux.set_alarm(timer, self.client, t);
    }

    /// The client's notification callback: generate the next irregular
    /// interval from the last one and re-arm.
    pub fn fired(&mut self, mux: &mut AlarmMultiplexer, timer: &mut RvTimer)
        requires
            old(self).client < old(mux).clients@.len(),
            old(mux).clients@[old(self).client as int].registered,
        ensures
            final(self).client == old(self).client,
            final(self).ms == spec_next_interval_ms(old(self).ms),
            final(mux).clients@ == old(mux).clients@.update(
                old(self).client as int,
                VirtualAlarmClient {
                    registered: true,
                    enabled: true,
                    deadline: spec_wrapping_add(
                        old(timer).spec_now(),
                        spec_ms_to_tick(spec_next_interval_ms(old(self).ms)),
                    ),
                },
            ),
            final(mux).tracks(*final(timer)),
            final(timer).spec_now() == old(timer).spec_now(),
    {
        let new_ms: u32 = 10 + ((self.ms % 757 + 137) % 757);
        proof {
            assert(10 + ((self.ms % 757 + 137) % 757) == 10 + ((self.ms + 137) % 757))
                by (nonlinear_arith);
        }
        self.set_next_alarm(mux, timer, new_ms);
    }
}

} // verus!
