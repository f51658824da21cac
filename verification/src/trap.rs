//! Trap decode and dispatch.
//!
//! A hardware trap is classified from the `mcause` register into an
//! interrupt or an exception.  Interrupts are answered by masking their
//! class at the core, so the same interrupt cannot re-fire before the
//! kernel loop has serviced it; the servicing itself happens later, in
//! ordinary context.  Each exception kind maps to one of two policies:
//! fatal (report cause and faulting address, escalate) or benign (return
//! normally).  A kind with no recognized mapping is always fatal.

use vstd::prelude::*;
use crate::csr::{Csr, MIE_MEXT, MIE_MSOFT, MIE_MTIMER};
use crate::regs::{bit_get, field_get, field_set, mask, spec_bit, spec_field_get, spec_field_set};

verus! {

#[derive(Clone, Copy, PartialEq, Eq, Structural, Debug)]
pub enum InterruptKind {
    UserSoft,
    SupervisorSoft,
    MachineSoft,
    UserTimer,
    SupervisorTimer,
    MachineTimer,
    UserExternal,
    SupervisorExternal,
    MachineExternal,
    Unknown,
}

#[derive(Clone, Copy, PartialEq, Eq, Structural, Debug)]
pub enum ExceptionKind {
    InstructionMisaligned,
    InstructionFault,
    IllegalInstruction,
    Breakpoint,
    LoadMisaligned,
    LoadFault,
    StoreMisaligned,
    StoreFault,
    UserEnvCall,
    SupervisorEnvCall,
    MachineEnvCall,
    InstructionPageFault,
    LoadPageFault,
    StorePageFault,
    Unknown,
}

/// A decoded trap cause: produced transiently per trap, never persisted.
#[derive(Clone, Copy, PartialEq, Eq, Structural, Debug)]
pub enum TrapCause {
    Interrupt(InterruptKind),
    /// An exception kind together with the faulting address from `mtval`.
    Exception(ExceptionKind, u32),
}

/// What a trap came to: the dispatcher only classifies and reports; the
/// disposition of a fatal fault is decided by the layer above.
#[derive(Clone, Copy, PartialEq, Eq, Structural, Debug)]
pub enum TrapOutcome {
    /// An interrupt whose class was masked at the core; the kernel loop
    /// services it afterwards in ordinary context.
    Interrupt(InterruptKind),
    /// An expected low-privilege trap; control returns with no escalation.
    Benign(ExceptionKind),
    /// An unrecoverable fault, reported with its kind and faulting address.
    Fatal(ExceptionKind, u32),
}

pub open spec fn spec_decode_interrupt(code: u32) -> InterruptKind {
    if code == 0 {
        InterruptKind::UserSoft
    } else if code == 1 {
        InterruptKind::SupervisorSoft
    } else if code == 3 {
        InterruptKind::MachineSoft
    } else if code == 4 {
        InterruptKind::UserTimer
    } else if code == 5 {
        InterruptKind::SupervisorTimer
    } else if code == 7 {
        InterruptKind::MachineTimer
    } else if code == 8 {
        InterruptKind::UserExternal
    } else if code == 9 {
        InterruptKind::SupervisorExternal
    } else if code == 11 {
        InterruptKind::MachineExternal
    } else {
        InterruptKind::Unknown
    }
}

pub open spec fn spec_decode_exception(code: u32) -> ExceptionKind {
    if code == 0 {
        ExceptionKind::InstructionMisaligned
    } else if code == 1 {
        ExceptionKind::InstructionFault
    } else if code == 2 {
        ExceptionKind::IllegalInstruction
    } else if code == 3 {
        ExceptionKind::Breakpoint
    } else if code == 4 {
        ExceptionKind::LoadMisaligned
    } else if code == 5 {
        ExceptionKind::LoadFault
    } else if code == 6 {
        ExceptionKind::StoreMisaligned
    } else if code == 7 {
        ExceptionKind::StoreFault
    } else if code == 8 {
        ExceptionKind::UserEnvCall
    } else if code == 9 {
        ExceptionKind::SupervisorEnvCall
    } else if code == 11 {
        ExceptionKind::MachineEnvCall
    } else if code == 12 {
        ExceptionKind::InstructionPageFault
    } else if code == 13 {
        ExceptionKind::LoadPageFault
    } else if code == 15 {
        ExceptionKind::StorePageFault
    } else {
        ExceptionKind::Unknown
    }
}

/// `mcause` decodes to an interrupt when its top bit is set; the remaining
/// bits carry the cause code.
pub open spec fn spec_decode_trap(mcause: u32, mtval: u32) -> TrapCause {
    if spec_bit(mcause, 31) {
        TrapCause::Interrupt(spec_decode_interrupt(spec_field_get(mcause, 0, 31)))
    } else {
        TrapCause::Exception(spec_decode_exception(spec_field_get(mcause, 0, 31)), mtval)
    }
}

/// The fault policy: every exception kind is fatal except the expected
/// low-privilege traps (environment calls below machine mode, breakpoints).
pub open spec fn spec_exception_is_fatal(e: ExceptionKind) -> bool {
    !(e == ExceptionKind::Breakpoint || e == ExceptionKind::UserEnvCall || e
        == ExceptionKind::SupervisorEnvCall)
}

pub fn decode_interrupt(code: u32) -> (r: InterruptKind)
    ensures
        r == spec_decode_interrupt(code),
{
    match code {
        0 => InterruptKind::UserSoft,
        1 => InterruptKind::SupervisorSoft,
        3 => InterruptKind::MachineSoft,
        4 => InterruptKind::UserTimer,
        5 => InterruptKind::SupervisorTimer,
        7 => InterruptKind::MachineTimer,
        8 => InterruptKind::UserExternal,
        9 => InterruptKind::SupervisorExternal,
        11 => InterruptKind::MachineExternal,
        _ => InterruptKind::Unknown,
    }
}

pub fn decode_exception(code: u32) -> (r: ExceptionKind)
    ensures
        r == spec_decode_exception(code),
{
    match code {
        0 => ExceptionKind::InstructionMisaligned,
        1 => ExceptionKind::InstructionFault,
        2 => ExceptionKind::IllegalInstruction,
        3 => ExceptionKind::Breakpoint,
        4 => ExceptionKind::LoadMisaligned,
        5 => ExceptionKind::LoadFault,
        6 => ExceptionKind::StoreMisaligned,
        7 => ExceptionKind::StoreFault,
        8 => ExceptionKind::UserEnvCall,
        9 => ExceptionKind::SupervisorEnvCall,
        11 => ExceptionKind::MachineEnvCall,
        12 => ExceptionKind::InstructionPageFault,
        13 => ExceptionKind::LoadPageFault,
        15 => ExceptionKind::StorePageFault,
        _ => ExceptionKind::Unknown,
    }
}

/// Classify the raw `mcause` and `mtval` words into a trap cause.
pub fn decode_trap(mcause: u32, mtval: u32) -> (r: TrapCause)
    ensures
        r == spec_decode_trap(mcause, mtval),
{
    if bit_get(mcause, 31) {
        TrapCause::Interrupt(decode_interrupt(field_get(mcause, 0, 31)))
    } else {
        TrapCause::Exception(decode_exception(field_get(mcause, 0, 31)), mtval)
    }
}

pub fn exception_is_fatal(e: ExceptionKind) -> (r: bool)
    ensures
        r == spec_exception_is_fatal(e),
{
    match e {
        ExceptionKind::Breakpoint => false,
        ExceptionKind::UserEnvCall => false,
        ExceptionKind::SupervisorEnvCall => false,
        _ => true,
    }
}

/// Apply the fault policy to one decoded exception.  Fatal kinds are
/// reported together with the faulting address; benign kinds return
/// control with no escalation.
pub fn handle_exception(exception: ExceptionKind, mtval: u32) -> (r: TrapOutcome)
    ensures
        spec_exception_is_fatal(exception) ==> r == TrapOutcome::Fatal(exception, mtval),
        !spec_exception_is_fatal(exception) ==> r == TrapOutcome::Benign(exception),
{
    match exception {
        ExceptionKind::InstructionMisaligned => TrapOutcome::Fatal(exception, mtval),
        ExceptionKind::InstructionFault => TrapOutcome::Fatal(exception, mtval),
        ExceptionKind::IllegalInstruction => TrapOutcome::Fatal(exception, mtval),
        ExceptionKind::Breakpoint => TrapOutcome::Benign(exception),
        ExceptionKind::LoadMisaligned => TrapOutcome::Fatal(exception, mtval),
        ExceptionKind::LoadFault => TrapOutcome::Fatal(exception, mtval),
        ExceptionKind::StoreMisaligned => TrapOutcome::Fatal(exception, mtval),
        ExceptionKind::StoreFault => TrapOutcome::Fatal(exception, mtval),
        ExceptionKind::UserEnvCall => TrapOutcome::Benign(exception),
        ExceptionKind::SupervisorEnvCall => TrapOutcome::Benign(exception),
        ExceptionKind::MachineEnvCall => TrapOutcome::Fatal(exception, mtval),
        ExceptionKind::InstructionPageFault => TrapOutcome::Fatal(exception, mtval),
        ExceptionKind::LoadPageFault => TrapOutcome::Fatal(exception, mtval),
        ExceptionKind::StorePageFault => TrapOutcome::Fatal(exception, mtval),
        ExceptionKind::Unknown => TrapOutcome::Fatal(exception, mtval),
    }
}

/// The `mie` word after the masking action for one interrupt kind: the
/// machine-level classes clear their own enable bit, every other kind
/// leaves the hardware untouched.
pub open spec fn spec_mie_after_interrupt(mie: u32, intr: InterruptKind) -> u32 {
    if intr == InterruptKind::MachineSoft {
        spec_field_set(mie, MIE_MSOFT, 1, 0)
    } else if intr == InterruptKind::MachineTimer {
        spec_field_set(mie, MIE_MTIMER, 1, 0)
    } else if intr == InterruptKind::MachineExternal {
        spec_field_set(mie, MIE_MEXT, 1, 0)
    } else {
        mie
    }
}

/// Mask the interrupt class that fired so it cannot re-fire before the
/// kernel loop has had a chance to service it.
pub fn handle_interrupt(csr: &mut Csr, intr: InterruptKind)
    ensures
        final(csr).mie == spec_mie_after_interrupt(old(csr).mie, intr),
        final(csr).mstatus == old(csr).mstatus,
        final(csr).mstatus_writes@ == old(csr).mstatus_writes@,
        final(csr).mcause == old(csr).mcause,
        final(csr).mtval == old(csr).mtval,
        final(csr).mtvec == old(csr).mtvec,
{
    match intr {
        InterruptKind::MachineSoft => {
            csr.set_mie_bit(MIE_MSOFT, false);
        },
        InterruptKind::MachineTimer => {
            csr.set_mie_bit(MIE_MTIMER, false);
        },
        InterruptKind::MachineExternal => {
            csr.set_mie_bit(MIE_MEXT, false);
        },
        _ => {},
    }
}

/// Trap entry for traps taken while in kernel mode: classify `mcause`,
/// mask the class of an interrupt, apply the fault policy to an exception.
pub fn start_trap_rust(csr: &mut Csr) -> (r: TrapOutcome)
    ensures
        ({
            let cause = spec_decode_trap(old(csr).mcause, old(csr).mtval);
            match cause {
                TrapCause::Interrupt(intr) => {
                    &&& r == TrapOutcome::Interrupt(intr)
                    &&& final(csr).mie == spec_mie_after_interrupt(old(csr).mie, intr)
                    &&& final(csr).mstatus == old(csr).mstatus
                },
                TrapCause::Exception(e, addr) => {
                    &&& spec_exception_is_fatal(e) ==> r == TrapOutcome::Fatal(e, addr)
                    &&& !spec_exception_is_fatal(e) ==> r == TrapOutcome::Benign(e)
                    &&& *final(csr) == *old(csr)
                },
            }
        }),
        final(csr).mstatus_writes@ == old(csr).mstatus_writes@,
        final(csr).mcause == old(csr).mcause,
        final(csr).mtval == old(csr).mtval,
        final(csr).mtvec == old(csr).mtvec,
{
    let cause = decode_trap(csr.mcause, csr.mtval);
    match cause {
        TrapCause::Interrupt(intr) => {
            handle_interrupt(csr, intr);
            TrapOutcome::Interrupt(intr)
        },
        TrapCause::Exception(e, addr) => handle_exception(e, addr),
    }
}

/// Trap entry for interrupts taken while an application was running: mask
/// the class that fired.  A non-interrupt cause here is unexpected and is
/// always reported as fatal, whatever its kind.
pub fn disable_interrupt_trap_handler(csr: &mut Csr) -> (r: TrapOutcome)
    ensures
        ({
            let cause = spec_decode_trap(old(csr).mcause, old(csr).mtval);
            match cause {
                TrapCause::Interrupt(intr) => {
                    &&& r == TrapOutcome::Interrupt(intr)
                    &&& final(csr).mie == spec_mie_after_interrupt(old(csr).mie, intr)
                },
                TrapCause::Exception(e, addr) => {
                    &&& r == TrapOutcome::Fatal(e, addr)
                    &&& *final(csr) == *old(csr)
                },
            }
        }),
        final(csr).mstatus == old(csr).mstatus,
        final(csr).mstatus_writes@ == old(csr).mstatus_writes@,
        final(csr).mcause == old(csr).mcause,
        final(csr).mtval == old(csr).mtval,
        final(csr).mtvec == old(csr).mtvec,
{
    let cause = decode_trap(csr.mcause, csr.mtval);
    match cause {
        TrapCause::Interrupt(intr) => {
            handle_interrupt(csr, intr);
            TrapOutcome::Interrupt(intr)
        },
        TrapCause::Exception(e, addr) => TrapOutcome::Fatal(e, addr),
    }
}

/// Point the trap-vector register at the fixed entry location, in vectored
/// mode: the base field holds the entry address shifted into place and the
/// mode field selects vectored entry.
pub fn configure_trap_handler(csr: &mut Csr, trap_vector_addr: u32)
    ensures
        spec_field_get(final(csr).mtvec, 2, 30) == trap_vector_addr >> 2,
        spec_field_get(final(csr).mtvec, 0, 2) == 1,
        final(csr).mstatus == old(csr).mstatus,
        final(csr).mstatus_writes@ == old(csr).mstatus_writes@,
        final(csr).mie == old(csr).mie,
        final(csr).mcause == old(csr).mcause,
        final(csr).mtval == old(csr).mtval,
{
    proof {
        assert(trap_vector_addr >> 2 <= mask(30)) by (bit_vector);
        assert(1u32 <= mask(2)) by (bit_vector);
    }
    let base = field_set(0, 2, 30, trap_vector_addr >> 2);
    let v = field_set(base, 0, 2, 1);
    proof {
        crate::regs::lemma_field_set_get_other(base, 0, 2, 1, 2, 30);
    }
    csr.mtvec = v;
}

} // verus!
