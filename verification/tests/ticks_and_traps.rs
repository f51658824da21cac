//! Tick arithmetic, register bitfields, critical sections, and trap decode.

use chipcore::csr::{Csr, MIE_MEXT, MIE_MSOFT, MIE_MTIMER, MSTATUS_MIE};
use chipcore::regs::{bit_get, bit_set, field_get, field_set};
use chipcore::support::{atomic, atomic_enter, atomic_exit};
use chipcore::ticks::{has_reached, is_before, wrapping_add, wrapping_sub};
use chipcore::trap::{
    configure_trap_handler, decode_trap, disable_interrupt_trap_handler, exception_is_fatal,
    handle_exception, start_trap_rust, ExceptionKind, InterruptKind, TrapCause, TrapOutcome,
};

#[test]
fn wrapping_arithmetic_wraps() {
    assert_eq!(wrapping_add(10, 20), 30);
    assert_eq!(wrapping_add(0xffff_fff0, 0x20), 0x10);
    assert_eq!(wrapping_sub(30, 10), 20);
    assert_eq!(wrapping_sub(0x10, 0xffff_fff0), 0x20);
}

#[test]
fn before_is_wraparound_safe() {
    // A small forward delta lands in the future even across the wrap.
    assert!(is_before(100, 200));
    assert!(is_before(0xffff_fff0, 0x10));
    // Not the naive `<`: going the long way round is "before" in reverse.
    assert!(!is_before(0x10, 0xffff_fff0));
    // Antisymmetric and irreflexive on a concrete pair.
    assert!(!is_before(200, 100));
    assert!(!is_before(7, 7));
    // The half-range boundary: just under it is the future, at it is not.
    assert!(is_before(0, 0x7fff_ffff));
    assert!(!is_before(0, 0x8000_0000));
}

#[test]
fn reached_includes_past_deadlines() {
    assert!(has_reached(250, 250));
    assert!(has_reached(250, 100));
    assert!(!has_reached(250, 300));
    // A deadline just behind a wrapped counter still fires.
    assert!(has_reached(0x10, 0xffff_fff0));
}

#[test]
fn bitfields_read_back_and_stay_disjoint() {
    let r = field_set(0, 0, 12, 0xabc);
    let r = field_set(r, 16, 8, 0x5a);
    assert_eq!(field_get(r, 0, 12), 0xabc);
    assert_eq!(field_get(r, 16, 8), 0x5a);
    let r2 = field_set(r, 16, 8, 0x01);
    assert_eq!(field_get(r2, 0, 12), 0xabc);
    assert_eq!(field_get(r2, 16, 8), 0x01);
    assert!(bit_get(bit_set(0, 3, true), 3));
    assert!(!bit_get(bit_set(0xffff_ffff, 3, false), 3));
}

fn csr_with_interrupts_enabled() -> Csr {
    let mut csr = Csr::new();
    let set = bit_set(csr.mstatus, MSTATUS_MIE, true);
    csr.write_mstatus(set);
    csr
}

#[test]
fn atomic_section_restores_mask() {
    let mut csr = csr_with_interrupts_enabled();
    let before = csr.mstatus;
    let g = atomic_enter(&mut csr);
    assert!(!csr.read_interrupts_enabled());
    atomic_exit(&mut csr, g);
    assert_eq!(csr.mstatus, before);
    assert!(csr.read_interrupts_enabled());
}

#[test]
fn atomic_nesting_toggles_hardware_once() {
    let mut csr = csr_with_interrupts_enabled();
    let before = csr.mstatus;
    let g1 = atomic_enter(&mut csr);
    let masked = csr.mstatus;
    let g2 = atomic_enter(&mut csr);
    let g3 = atomic_enter(&mut csr);
    // The inner sections found interrupts already disabled and wrote nothing.
    assert_eq!(csr.mstatus, masked);
    atomic_exit(&mut csr, g3);
    atomic_exit(&mut csr, g2);
    assert_eq!(csr.mstatus, masked);
    atomic_exit(&mut csr, g1);
    assert_eq!(csr.mstatus, before);
}

#[test]
fn atomic_already_disabled_never_enables() {
    let mut csr = Csr::new();
    assert!(!csr.read_interrupts_enabled());
    let g = atomic_enter(&mut csr);
    atomic_exit(&mut csr, g);
    assert!(!csr.read_interrupts_enabled());
}

#[test]
fn atomic_closure_returns_body_result() {
    let mut csr = csr_with_interrupts_enabled();
    let r = atomic(&mut csr, || 42u32);
    assert_eq!(r, 42);
    assert!(csr.read_interrupts_enabled());
}

#[test]
fn decode_classifies_interrupts_and_exceptions() {
    assert_eq!(
        decode_trap(0x8000_000b, 0),
        TrapCause::Interrupt(InterruptKind::MachineExternal)
    );
    assert_eq!(
        decode_trap(0x8000_0007, 0),
        TrapCause::Interrupt(InterruptKind::MachineTimer)
    );
    assert_eq!(
        decode_trap(0x8000_0003, 0),
        TrapCause::Interrupt(InterruptKind::MachineSoft)
    );
    assert_eq!(
        decode_trap(0x8000_0020, 0),
        TrapCause::Interrupt(InterruptKind::Unknown)
    );
    assert_eq!(
        decode_trap(2, 0x1234),
        TrapCause::Exception(ExceptionKind::IllegalInstruction, 0x1234)
    );
    assert_eq!(
        decode_trap(8, 0),
        TrapCause::Exception(ExceptionKind::UserEnvCall, 0)
    );
    assert_eq!(
        decode_trap(14, 0),
        TrapCause::Exception(ExceptionKind::Unknown, 0)
    );
}

#[test]
fn fault_policy_spares_only_expected_traps() {
    assert!(!exception_is_fatal(ExceptionKind::Breakpoint));
    assert!(!exception_is_fatal(ExceptionKind::UserEnvCall));
    assert!(!exception_is_fatal(ExceptionKind::SupervisorEnvCall));
    assert!(exception_is_fatal(ExceptionKind::MachineEnvCall));
    assert!(exception_is_fatal(ExceptionKind::LoadFault));
    assert!(exception_is_fatal(ExceptionKind::Unknown));
    assert_eq!(
        handle_exception(ExceptionKind::StoreMisaligned, 0xdead),
        TrapOutcome::Fatal(ExceptionKind::StoreMisaligned, 0xdead)
    );
    assert_eq!(
        handle_exception(ExceptionKind::Breakpoint, 0),
        TrapOutcome::Benign(ExceptionKind::Breakpoint)
    );
}

#[test]
fn trap_entry_masks_the_firing_class() {
    let mut csr = Csr::new();
    csr.set_mie_bit(MIE_MSOFT, true);
    csr.set_mie_bit(MIE_MTIMER, true);
    csr.set_mie_bit(MIE_MEXT, true);
    csr.mcause = 0x8000_0007; // machine timer interrupt
    let r = start_trap_rust(&mut csr);
    assert_eq!(r, TrapOutcome::Interrupt(InterruptKind::MachineTimer));
    assert!(!bit_get(csr.mie, MIE_MTIMER));
    assert!(bit_get(csr.mie, MIE_MSOFT));
    assert!(bit_get(csr.mie, MIE_MEXT));
}

#[test]
fn trap_entry_reports_fatal_exceptions() {
    let mut csr = Csr::new();
    csr.mcause = 5; // load fault
    csr.mtval = 0xbad0;
    let r = start_trap_rust(&mut csr);
    assert_eq!(r, TrapOutcome::Fatal(ExceptionKind::LoadFault, 0xbad0));
}

#[test]
fn app_trap_entry_faults_on_any_exception() {
    let mut csr = Csr::new();
    csr.mcause = 3; // breakpoint: benign in kernel mode, unexpected here
    csr.mtval = 0x44;
    let r = disable_interrupt_trap_handler(&mut csr);
    assert_eq!(r, TrapOutcome::Fatal(ExceptionKind::Breakpoint, 0x44));

    csr.mcause = 0x8000_0003;
    let r = disable_interrupt_trap_handler(&mut csr);
    assert_eq!(r, TrapOutcome::Interrupt(InterruptKind::MachineSoft));
}

#[test]
fn trap_vector_is_programmed_vectored() {
    let mut csr = Csr::new();
    configure_trap_handler(&mut csr, 0x100);
    assert_eq!(csr.mtvec, 0x101);
    assert_eq!(field_get(csr.mtvec, 0, 2), 1);
    assert_eq!(field_get(csr.mtvec, 2, 30), 0x40);
}
