//! The nesting-safe critical-section primitive.
//!
//! A critical section runs with the global interrupt-enable bit cleared and
//! restores the bit to exactly its prior value afterwards.  Entry hands back
//! a guard value capturing the prior state; exit consumes it.  An inner
//! section that finds interrupts already disabled writes nothing to the
//! hardware, so the outermost pair is the only one that toggles the mask.

use vstd::prelude::*;
use crate::csr::{Csr, MSTATUS_MIE};
use crate::regs::{bit_set, spec_bit, spec_field_set};

verus! {

/// Guard value handed out on entry to a critical section; records whether
/// interrupts were enabled before entry and must be given back on exit.
pub struct AtomicGuard {
    pub was_enabled: bool,
}

/// How one critical-section entry transforms the register file: the guard
/// captures the prior mask state; interrupts end up disabled; the mask bit
/// is written (once) only if it was set, and nothing else changes.
pub open spec fn atomic_enter_rel(pre: Csr, post: Csr, g: AtomicGuard) -> bool {
    &&& g.was_enabled == pre.interrupts_enabled()
    &&& !post.interrupts_enabled()
    &&& post.mie == pre.mie
    &&& post.mcause == pre.mcause
    &&& post.mtval == pre.mtval
    &&& post.mtvec == pre.mtvec
    &&& if pre.interrupts_enabled() {
        &&& post.mstatus == spec_field_set(pre.mstatus, MSTATUS_MIE, 1, 0)
        &&& post.mstatus_writes@ == pre.mstatus_writes@.push(post.mstatus)
    } else {
        post == pre
    }
}

/// How one critical-section exit transforms the register file: the prior
/// mask state is written back (once) only if interrupts had been enabled.
pub open spec fn atomic_exit_rel(pre: Csr, post: Csr, g: AtomicGuard) -> bool {
    &&& post.mie == pre.mie
    &&& post.mcause == pre.mcause
    &&& post.mtval == pre.mtval
    &&& post.mtvec == pre.mtvec
    &&& if g.was_enabled {
        &&& post.mstatus == spec_field_set(pre.mstatus, MSTATUS_MIE, 1, 1)
        &&& post.mstatus_writes@ == pre.mstatus_writes@.push(post.mstatus)
        &&& post.interrupts_enabled()
    } else {
        post == pre
    }
}

/// Enter a critical section: clear the global interrupt-enable bit if it was
/// set, and remember in the guard whether it was.
pub fn atomic_enter(csr: &mut Csr) -> (g: AtomicGuard)
    ensures
        atomic_enter_rel(*old(csr), *final(csr), g),
{
    let enabled = csr.read_interrupts_enabled();
    if enabled {
        let cleared = bit_set(csr.mstatus, MSTATUS_MIE, false);
        csr.write_mstatus(cleared);
    }
    AtomicGuard { was_enabled: enabled }
}

/// Leave a critical section: restore the global interrupt-enable bit to the
/// state the guard recorded, writing the hardware only if it had been set.
pub fn atomic_exit(csr: &mut Csr, g: AtomicGuard)
    ensures
        atomic_exit_rel(*old(csr), *final(csr), g),
{
    if g.was_enabled {
        let restored = bit_set(csr.mstatus, MSTATUS_MIE, true);
        csr.write_mstatus(restored);
    }
}

/// Run `f` with interrupts masked, restoring the prior mask state on return.
pub fn atomic<R, F: FnOnce() -> R>(csr: &mut Csr, f: F) -> (r: R)
    requires
        call_requires(f, ()),
    ensures
        call_ensures(f, (), r),
        exists|mid: Csr, g: AtomicGuard|
            atomic_enter_rel(*old(csr), mid, g) && atomic_exit_rel(mid, *final(csr), g),
{
    let g = atomic_enter(csr);
    let ghost mid = *csr;
    let r = f();
    atomic_exit(csr, g);
    r
}

/// Restoring the mask bit after clearing it reproduces the original word.
pub proof fn lemma_mask_bit_roundtrip(m: u32)
    requires
        spec_bit(m, MSTATUS_MIE),
    ensures
        spec_field_set(spec_field_set(m, MSTATUS_MIE, 1, 0), MSTATUS_MIE, 1, 1) == m,
{
    assert(spec_bit(m, 3) ==> spec_field_set(spec_field_set(m, 3, 1, 0), 3, 1, 1) == m)
        by (bit_vector);
}

/// Nesting is idempotent: across a triple-nested critical section only the
/// outermost entry and exit touch the hardware mask.  The inner pairs write
/// nothing, the final register file equals the initial one, and the write
/// history grows by exactly two entries if interrupts were enabled on entry
/// to the outermost section, and by none otherwise.
pub proof fn lemma_atomic_nesting_idempotent(
    c0: Csr,
    c1: Csr,
    c2: Csr,
    c3: Csr,
    c4: Csr,
    c5: Csr,
    c6: Csr,
    g1: AtomicGuard,
    g2: AtomicGuard,
    g3: AtomicGuard,
)
    requires
        atomic_enter_rel(c0, c1, g1),
        atomic_enter_rel(c1, c2, g2),
        atomic_enter_rel(c2, c3, g3),
        atomic_exit_rel(c3, c4, g3),
        atomic_exit_rel(c4, c5, g2),
        atomic_exit_rel(c5, c6, g1),
    ensures
        c2 == c1 && c3 == c2 && c4 == c3 && c5 == c4,
        c6.mstatus == c0.mstatus,
        c6.interrupts_enabled() == c0.interrupts_enabled(),
        c0.interrupts_enabled() ==> c6.mstatus_writes@ == c0.mstatus_writes@.push(
            c1.mstatus,
        ).push(c6.mstatus),
        !c0.interrupts_enabled() ==> c6 == c0,
{
    if c0.interrupts_enabled() {
        lemma_mask_bit_roundtrip(c0.mstatus);
    }
}

} // verus!
