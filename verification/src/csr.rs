//! Model of the core's control and status registers.
//!
//! One value of [`Csr`] stands for the machine-level register file that the
//! trap path and the critical-section primitive read and write: the global
//! interrupt-enable bit in `mstatus`, the per-class enable bits in `mie`,
//! the trap cause and faulting address, and the trap-vector base.  Writes to
//! `mstatus` are logged in a ghost history so that contracts can speak about
//! how often the hardware mask was actually toggled.

use vstd::prelude::*;
use crate::regs::{bit_get, bit_set, spec_bit, spec_field_set};

verus! {

/// Bit position of the machine interrupt-enable flag in `mstatus`.
pub const MSTATUS_MIE: u32 = 3;

/// Bit position of the machine software-interrupt enable in `mie`.
pub const MIE_MSOFT: u32 = 3;

/// Bit position of the machine timer-interrupt enable in `mie`.
pub const MIE_MTIMER: u32 = 7;

/// Bit position of the machine external-interrupt enable in `mie`.
pub const MIE_MEXT: u32 = 11;

pub struct Csr {
    pub mstatus: u32,
    pub mie: u32,
    pub mcause: u32,
    pub mtval: u32,
    pub mtvec: u32,
    /// Every value ever written to `mstatus`, in order.
    pub mstatus_writes: Ghost<Seq<u32>>,
}

impl Csr {
    /// The process-wide interrupt mask state: interrupts are globally
    /// enabled exactly when the `mstatus` MIE bit is set.
    pub open spec fn interrupts_enabled(self) -> bool {
        spec_bit(self.mstatus, MSTATUS_MIE)
    }

    pub open spec fn msoft_enabled(self) -> bool {
        spec_bit(self.mie, MIE_MSOFT)
    }

    pub open spec fn mtimer_enabled(self) -> bool {
        spec_bit(self.mie, MIE_MTIMER)
    }

    pub open spec fn mext_enabled(self) -> bool {
        spec_bit(self.mie, MIE_MEXT)
    }

    /// Power-on register file: everything masked, nothing latched.
    pub fn new() -> (c: Csr)
        ensures
            c.mstatus == 0,
            c.mie == 0,
            c.mcause == 0,
            c.mtval == 0,
            c.mtvec == 0,
            c.mstatus_writes@ == Seq::<u32>::empty(),
            !c.interrupts_enabled(),
    {
        proof {
            assert(!spec_bit(0u32, MSTATUS_MIE)) by (bit_vector);
        }
        Csr {
            mstatus: 0,
            mie: 0,
            mcause: 0,
            mtval: 0,
            mtvec: 0,
            mstatus_writes: Ghost(Seq::empty()),
        }
    }

    pub fn read_interrupts_enabled(&self) -> (r: bool)
        ensures
            r == self.interrupts_enabled(),
    {
        bit_get(self.mstatus, MSTATUS_MIE)
    }

    /// Whole-register write of `mstatus`, recorded in the write history.
    pub fn write_mstatus(&mut self, v: u32)
        ensures
            final(self).mstatus == v,
            final(self).mstatus_writes@ == old(self).mstatus_writes@.push(v),
            final(self).mie == old(self).mie,
            final(self).mcause == old(self).mcause,
            final(self).mtval == old(self).mtval,
            final(self).mtvec == old(self).mtvec,
    {
        self.mstatus = v;
        self.mstatus_writes = Ghost(self.mstatus_writes@.push(v));
    }

    /// Set or clear one enable bit of `mie`, leaving the other bits alone.
    pub fn set_mie_bit(&mut self, offset: u32, on: bool)
        requires
            offset < 32,
        ensures
            final(self).mie == spec_field_set(old(self).mie, offset, 1, if on {
                1u32
            } else {
                0u32
            }),
            spec_bit(final(self).mie, offset) == on,
            final(self).mstatus == old(self).mstatus,
            final(self).mstatus_writes@ == old(self).mstatus_writes@,
            final(self).mcause == old(self).mcause,
            final(self).mtval == old(self).mtval,
            final(self).mtvec == old(self).mtvec,
    {
        self.mie = bit_set(self.mie, offset, on);
    }
}

} // verus!
