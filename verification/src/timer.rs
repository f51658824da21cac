//! Driver model for the chip's one countdown timer peripheral.
//!
//! The peripheral is a free-running counter with a single compare register
//! and an interrupt-on-match line.  The driver exposes the current tick
//! count and one-shot deadline arithmetic; a deadline in the past still
//! fires, it is never silently dropped.  The interrupt-service path latches
//! a software pending flag so the kernel loop can tell a real match from a
//! false wake.

use vstd::prelude::*;
use crate::regs::{bit_get, bit_set, field_set, mask, spec_bit, spec_field_get};

verus! {

/// Core clock rate of the chip, in Hz.
pub const CHIP_FREQ: u32 = 50_000_000;

/// Tick rate the timer is configured for, in Hz.
pub const TIMER_FREQ: u32 = 10_000;

/// Clock divider programmed into the prescale field.
pub const PRESCALE: u32 = CHIP_FREQ / TIMER_FREQ - 1;

/// The timer's tick frequency as a named marker.
pub struct Freq10KHz;

impl Freq10KHz {
    pub fn frequency() -> (r: u32)
        ensures
            r == TIMER_FREQ,
    {
        10_000
    }
}

/// The peripheral's register file: whole 32-bit words at fixed offsets.
pub struct TimerRegisters {
    /// Counter control; bit 0 starts the counter.
    pub ctrl: u32,
    /// Prescale (bits 0..12) and step (bits 16..24) configuration.
    pub config: u32,
    /// Low word of the free-running counter.
    pub value_low: u32,
    /// High word of the counter; held at zero by this driver.
    pub value_high: u32,
    /// Low word of the compare (deadline) register.
    pub compare_low: u32,
    /// High word of the compare register; held at zero by this driver.
    pub compare_high: u32,
    /// Bit 0 unmasks the match interrupt.
    pub intr_enable: u32,
    /// Bit 0 is the hardware-latched match flag.
    pub intr_state: u32,
}

pub struct RvTimer {
    pub registers: TimerRegisters,
    /// Software note that a match interrupt was taken and awaits servicing
    /// in ordinary context.
    pub pending: bool,
}

impl RvTimer {
    /// The free-running counter is started.
    pub open spec fn counter_on(self) -> bool {
        spec_bit(self.registers.ctrl, 0)
    }

    /// The match interrupt is unmasked: a deadline is armed.
    pub open spec fn alarm_enabled(self) -> bool {
        spec_bit(self.registers.intr_enable, 0)
    }

    /// The hardware has latched a compare match.
    pub open spec fn match_latched(self) -> bool {
        spec_bit(self.registers.intr_state, 0)
    }

    /// The current tick count.
    pub open spec fn spec_now(self) -> u32 {
        self.registers.value_low
    }

    /// The armed deadline.
    pub open spec fn spec_alarm(self) -> u32 {
        self.registers.compare_low
    }

    /// Power-on state: counter stopped, nothing armed, nothing latched.
    pub fn new() -> (t: RvTimer)
        ensures
            !t.counter_on(),
            !t.alarm_enabled(),
            !t.match_latched(),
            !t.pending,
            t.spec_now() == 0,
    {
        proof {
            assert(!spec_bit(0u32, 0)) by (bit_vector);
        }
        RvTimer {
            registers: TimerRegisters {
                ctrl: 0,
                config: 0,
                value_low: 0,
                value_high: 0,
                compare_low: 0,
                compare_high: 0,
                intr_enable: 0,
                intr_state: 0,
            },
            pending: false,
        }
    }

    /// Program the divider and step, mask the match interrupt, and start
    /// the counter.  The prescale field is 12 bits wide: it holds the low
    /// bits of the divider.
    pub fn setup(&mut self)
        ensures
            final(self).counter_on(),
            !final(self).alarm_enabled(),
            spec_field_get(final(self).registers.config, 0, 12) == PRESCALE & 0xfff,
            spec_field_get(final(self).registers.config, 16, 8) == 1,
            final(self).registers.compare_high == 0,
            final(self).registers.value_low == old(self).registers.value_low,
            final(self).pending == old(self).pending,
    {
        proof {
            assert(PRESCALE & 0xfff <= mask(12)) by (bit_vector);
            assert(1u32 <= mask(8)) by (bit_vector);
        }
        let with_prescale = field_set(0, 0, 12, PRESCALE & 0xfff);
        let config = field_set(with_prescale, 16, 8, 1);
        proof {
            crate::regs::lemma_field_set_get_other(with_prescale, 16, 8, 1, 0, 12);
        }
        self.registers.config = config;
        self.registers.compare_high = 0;
        self.registers.intr_enable = bit_set(self.registers.intr_enable, 0, false);
        self.registers.ctrl = bit_set(self.registers.ctrl, 0, true);
    }

    /// Read the free-running counter; side-effect-free.
    pub fn now(&self) -> (r: u32)
        ensures
            r == self.spec_now(),
    {
        self.registers.value_low
    }

    /// Arm a one-shot deadline: pin the high counter word, clear any stale
    /// match flag, program the compare register, and only then unmask the
    /// match interrupt, so an old latched match cannot race the new arm.
    pub fn set_alarm(&mut self, tics: u32)
        ensures
            final(self).alarm_enabled(),
            !final(self).match_latched(),
            final(self).spec_alarm() == tics,
            final(self).spec_now() == old(self).spec_now(),
            final(self).registers.ctrl == old(self).registers.ctrl,
            final(self).registers.config == old(self).registers.config,
            final(self).pending == old(self).pending,
    {
        self.registers.value_high = 0;
        self.registers.intr_state = bit_set(self.registers.intr_state, 0, false);
        self.registers.compare_low = tics;
        self.registers.intr_enable = bit_set(self.registers.intr_enable, 0, true);
    }

    /// Read back the armed deadline.
    pub fn get_alarm(&self) -> (r: u32)
        ensures
            r == self.spec_alarm(),
    {
        self.registers.compare_low
    }

    /// Mask the match interrupt; the counter keeps running.
    pub fn disable(&mut self)
        ensures
            !final(self).alarm_enabled(),
            final(self).spec_alarm() == old(self).spec_alarm(),
            final(self).spec_now() == old(self).spec_now(),
            final(self).match_latched() == old(self).match_latched(),
            final(self).registers.ctrl == old(self).registers.ctrl,
            final(self).registers.config == old(self).registers.config,
            final(self).pending == old(self).pending,
    {
        proof {
            crate::regs::lemma_field_set_get_same(self.registers.intr_enable, 0, 1, 0);
        }
        self.registers.intr_enable = bit_set(self.registers.intr_enable, 0, false);
    }

    pub fn is_enabled(&self) -> (r: bool)
        ensures
            r == self.alarm_enabled(),
    {
        bit_get(self.registers.intr_enable, 0)
    }

    /// Interrupt-context half of servicing: if a match is latched, mask the
    /// source (so it cannot re-enter before acknowledgment), acknowledge
    /// the latch, and note the event for ordinary context.
    pub fn handle_isr(&mut self)
        ensures
            old(self).match_latched() ==> {
                &&& final(self).pending
                &&& !final(self).alarm_enabled()
                &&& !final(self).match_latched()
                &&& final(self).spec_alarm() == old(self).spec_alarm()
                &&& final(self).spec_now() == old(self).spec_now()
            },
            !old(self).match_latched() ==> *final(self) == *old(self),
    {
        if bit_get(self.registers.intr_state, 0) {
            self.registers.intr_enable = bit_set(self.registers.intr_enable, 0, false);
            self.registers.intr_state = bit_set(self.registers.intr_state, 0, false);
            self.pending = true;
        }
    }

    pub fn is_pending(&self) -> (r: bool)
        ensures
            r == self.pending,
    {
        self.pending
    }

    /// Ordinary-context half of servicing: consume the pending note and
    /// report whether a real event was serviced, so the caller can tell a
    /// false wake from a match and notify its client exactly once.
    pub fn service_interrupts(&mut self) -> (r: bool)
        ensures
            r == old(self).pending,
            !final(self).pending,
            final(self).registers == old(self).registers,
    {
        let pending = self.pending;
        self.pending = false;
        pending
    }

    /// Environment step: the free-running counter advances by `d` ticks.
    pub fn hw_advance(&mut self, d: u32)
        ensures
            final(self).spec_now() == crate::ticks::spec_wrapping_add(old(self).spec_now(), d),
            final(self).registers.compare_low == old(self).registers.compare_low,
            final(self).registers.intr_enable == old(self).registers.intr_enable,
            final(self).registers.intr_state == old(self).registers.intr_state,
            final(self).registers.ctrl == old(self).registers.ctrl,
            final(self).registers.config == old(self).registers.config,
            final(self).pending == old(self).pending,
    {
        self.registers.value_low = crate::ticks::wrapping_add(self.registers.value_low, d);
    }

    /// Environment step: the peripheral latches a compare match.
    pub fn hw_match(&mut self)
        ensures
            final(self).match_latched(),
            final(self).registers.intr_enable == old(self).registers.intr_enable,
            final(self).registers.compare_low == old(self).registers.compare_low,
            final(self).registers.value_low == old(self).registers.value_low,
            final(self).registers.ctrl == old(self).registers.ctrl,
            final(self).registers.config == old(self).registers.config,
            final(self).pending == old(self).pending,
    {
        self.registers.intr_state = bit_set(self.registers.intr_state, 0, true);
    }
}

} // verus!
