//! The interrupt controllers, the timer, the alarm multiplexer, the chip
//! drain, and the board glue.

use chipcore::alarm_test::ms_to_tick;
use chipcore::board::{msg, DriverId, OpenTitan, Platform};
use chipcore::chip::{route_interrupt, DriverTarget, Ibex, ServicedEvent};
use chipcore::csr::Csr;
use chipcore::ioarea::{poop, IoArea};
use chipcore::jclulow1::JClulow1;
use chipcore::mux::AlarmMultiplexer;
use chipcore::regs::field_get;
use chipcore::timer::RvTimer;

#[test]
fn controller_reports_lowest_and_claims() {
    let mut chip = Ibex::new(64);
    chip.enable_plic_interrupts();
    chip.plic.latch(9);
    chip.plic.latch(3);
    chip.plic.latch(17);
    assert!(chip.plic.has_pending());
    assert_eq!(chip.plic.next_pending(), Some(3));
    // Source 3 is claimed: it is not reported again before completion.
    assert_eq!(chip.plic.next_pending(), Some(9));
    chip.plic.complete(3);
    chip.plic.complete(9);
    assert_eq!(chip.plic.next_pending(), Some(17));
    chip.plic.complete(17);
    assert_eq!(chip.plic.next_pending(), None);
}

#[test]
fn claimed_source_relatches_only_after_complete() {
    let mut chip = Ibex::new(8);
    chip.enable_plic_interrupts();
    chip.plic.latch(2);
    assert_eq!(chip.plic.next_pending(), Some(2));
    // The gateway holds a new assertion back while the source is in service.
    chip.plic.latch(2);
    assert_eq!(chip.plic.next_pending(), None);
    chip.plic.complete(2);
    assert_eq!(chip.plic.next_pending(), None);
    chip.plic.latch(2);
    assert_eq!(chip.plic.next_pending(), Some(2));
    chip.plic.complete(2);
}

#[test]
fn disabled_source_is_not_reported() {
    let mut chip = Ibex::new(8);
    chip.enable_plic_interrupts();
    chip.plic.disable(5);
    chip.plic.latch(5);
    assert_eq!(chip.plic.next_pending(), None);
    chip.plic.enable(5);
    assert_eq!(chip.plic.next_pending(), Some(5));
    chip.plic.complete(5);
}

#[test]
fn timer_arms_and_services_one_event() {
    let mut t = RvTimer::new();
    t.setup();
    assert!(!t.is_enabled());
    // The 12-bit prescale field holds the low bits of the divider 4999,
    // and the counter steps by one per prescaled tick.
    assert_eq!(field_get(t.registers.config, 0, 12), 4999 & 0xfff);
    assert_eq!(field_get(t.registers.config, 16, 8), 1);
    t.set_alarm(1000);
    assert!(t.is_enabled());
    assert_eq!(t.get_alarm(), 1000);
    t.hw_advance(1000);
    assert_eq!(t.now(), 1000);
    t.hw_match();
    t.handle_isr();
    assert!(t.is_pending());
    assert!(!t.is_enabled());
    // First service consumes the event; a second one is a false wake.
    assert!(t.service_interrupts());
    assert!(!t.service_interrupts());
}

#[test]
fn timer_disable_keeps_counter_running() {
    let mut t = RvTimer::new();
    t.setup();
    t.set_alarm(500);
    t.disable();
    assert!(!t.is_enabled());
    t.hw_advance(10);
    assert_eq!(t.now(), 10);
    assert_eq!(t.get_alarm(), 500);
}

#[test]
fn mux_tracks_minimum_deadline() {
    let mut csr = Csr::new();
    let mut timer = RvTimer::new();
    timer.setup();
    let mut mux = AlarmMultiplexer::new();
    let a = mux.register(&mut csr);
    let b = mux.register(&mut csr);
    mux.set_alarm(&mut timer, a, 500);
    assert!(timer.is_enabled());
    assert_eq!(timer.get_alarm(), 500);
    mux.set_alarm(&mut timer, b, 300);
    assert_eq!(timer.get_alarm(), 300);
    // Disabling the minimum holder reprograms to the next deadline.
    mux.disable(&mut timer, b);
    assert_eq!(timer.get_alarm(), 500);
    // With no enabled client left, the hardware is disabled.
    mux.disable(&mut timer, a);
    assert!(!timer.is_enabled());
}

#[test]
fn mux_deregister_drops_the_minimum() {
    let mut csr = Csr::new();
    let mut timer = RvTimer::new();
    timer.setup();
    let mut mux = AlarmMultiplexer::new();
    let a = mux.register(&mut csr);
    let b = mux.register(&mut csr);
    mux.set_alarm(&mut timer, a, 400);
    mux.set_alarm(&mut timer, b, 700);
    mux.deregister(&mut csr, &mut timer, a);
    assert_eq!(timer.get_alarm(), 700);
}

#[test]
fn fired_notifies_in_deadline_then_registration_order() {
    let mut csr = Csr::new();
    let mut timer = RvTimer::new();
    timer.setup();
    let mut mux = AlarmMultiplexer::new();
    let a = mux.register(&mut csr);
    let b = mux.register(&mut csr);
    let c = mux.register(&mut csr);
    mux.set_alarm(&mut timer, a, 100);
    mux.set_alarm(&mut timer, b, 100);
    mux.set_alarm(&mut timer, c, 200);
    timer.hw_advance(250);
    let order = mux.fired(&mut timer);
    assert_eq!(order, vec![a, b, c]);
    assert!(!mux.clients[a].enabled);
    assert!(!mux.clients[b].enabled);
    assert!(!mux.clients[c].enabled);
    assert!(!timer.is_enabled());
}

#[test]
fn fired_skips_unexpired_clients() {
    let mut csr = Csr::new();
    let mut timer = RvTimer::new();
    timer.setup();
    let mut mux = AlarmMultiplexer::new();
    let a = mux.register(&mut csr);
    let b = mux.register(&mut csr);
    mux.set_alarm(&mut timer, a, 100);
    mux.set_alarm(&mut timer, b, 400);
    timer.hw_advance(250);
    let order = mux.fired(&mut timer);
    assert_eq!(order, vec![a]);
    assert!(mux.clients[b].enabled);
    // The hardware is re-armed for the survivor.
    assert!(timer.is_enabled());
    assert_eq!(timer.get_alarm(), 400);
}

#[test]
fn rearming_client_is_not_notified_twice_in_one_pass() {
    let mut csr = Csr::new();
    let mut timer = RvTimer::new();
    timer.setup();
    let mut mux = AlarmMultiplexer::new();
    let a = mux.register(&mut csr);
    let b = mux.register(&mut csr);
    mux.set_alarm(&mut timer, a, 100);
    mux.set_alarm(&mut timer, b, 200);
    timer.hw_advance(250);
    let mut pass = mux.begin_fired(&timer);
    assert_eq!(mux.next_to_notify(&mut pass), Some(a));
    // The client re-arms inside its own callback, for a deadline that has
    // also already passed — it must still not fire again this pass.
    mux.set_alarm(&mut timer, a, 240);
    assert_eq!(mux.next_to_notify(&mut pass), Some(b));
    assert_eq!(mux.next_to_notify(&mut pass), None);
    mux.finish_fired(&mut timer, pass);
    // The re-armed deadline is what the hardware now holds.
    assert!(timer.is_enabled());
    assert_eq!(timer.get_alarm(), 240);
}

#[test]
fn fired_with_no_clients_disables_hardware() {
    let mut timer = RvTimer::new();
    timer.setup();
    timer.set_alarm(100);
    let mut mux = AlarmMultiplexer::new();
    let order = mux.fired(&mut timer);
    assert!(order.is_empty());
    assert!(!timer.is_enabled());
}

#[test]
fn deadline_already_past_still_fires() {
    let mut csr = Csr::new();
    let mut timer = RvTimer::new();
    timer.setup();
    timer.hw_advance(250);
    let mut mux = AlarmMultiplexer::new();
    let a = mux.register(&mut csr);
    // The deadline lies behind the counter: it is not silently dropped.
    mux.set_alarm(&mut timer, a, 100);
    let order = mux.fired(&mut timer);
    assert_eq!(order, vec![a]);
}

#[test]
fn routing_follows_the_source_ranges() {
    assert_eq!(route_interrupt(0), DriverTarget::Unknown);
    assert_eq!(route_interrupt(1), DriverTarget::Uart);
    assert_eq!(route_interrupt(7), DriverTarget::Uart);
    assert_eq!(route_interrupt(8), DriverTarget::Unknown);
    assert_eq!(route_interrupt(9), DriverTarget::Gpio(0));
    assert_eq!(route_interrupt(39), DriverTarget::Gpio(30));
    assert_eq!(route_interrupt(40), DriverTarget::Unknown);
}

#[test]
fn drain_services_each_latched_source_once() {
    let mut chip = Ibex::new(64);
    chip.enable_plic_interrupts();
    chip.plic.latch(9);
    chip.plic.latch(1);
    chip.plic.latch(3);
    let events = chip.service_pending_interrupts();
    assert_eq!(
        events,
        vec![
            ServicedEvent::External(1, DriverTarget::Uart),
            ServicedEvent::External(3, DriverTarget::Uart),
            ServicedEvent::External(9, DriverTarget::Gpio(0)),
        ]
    );
    assert!(!chip.has_pending_interrupts());
    // A source latching after the drain is handled by the next call.
    chip.plic.latch(17);
    let events = chip.service_pending_interrupts();
    assert_eq!(
        events,
        vec![ServicedEvent::External(17, DriverTarget::Gpio(8))]
    );
    assert!(!chip.has_pending_interrupts());
}

#[test]
fn drain_reports_a_timer_event_first() {
    let mut chip = Ibex::new(64);
    chip.enable_plic_interrupts();
    chip.timer.setup();
    chip.timer.set_alarm(100);
    chip.timer.hw_advance(100);
    chip.timer.hw_match();
    chip.timer.handle_isr();
    chip.plic.latch(2);
    let events = chip.service_pending_interrupts();
    assert_eq!(
        events,
        vec![
            ServicedEvent::TimerFired,
            ServicedEvent::External(2, DriverTarget::Uart),
        ]
    );
    assert!(!chip.timer.is_pending());
}

#[test]
fn second_chip_reports_unhandled_interrupts() {
    let mut chip = JClulow1::new(32);
    assert!(!chip.has_pending_interrupts());
    assert_eq!(chip.service_pending_interrupts(), None);
    chip.nvic.latch(4);
    // Latched but masked: nothing is reported.
    assert!(!chip.has_pending_interrupts());
    chip.nvic.enable(4);
    assert!(chip.has_pending_interrupts());
    assert_eq!(chip.service_pending_interrupts(), Some(4));
    chip.nvic.clear_pending(4);
    assert_eq!(chip.service_pending_interrupts(), None);
}

#[test]
fn second_chip_sleeps_shallow() {
    let mut chip = JClulow1::new(8);
    let enabled = chipcore::regs::bit_set(chip.csr.mstatus, chipcore::csr::MSTATUS_MIE, true);
    chip.csr.write_mstatus(enabled);
    chip.scb_sleepdeep = true;
    chip.sleep();
    assert!(!chip.scb_sleepdeep);
}

#[test]
fn output_area_takes_bytes() {
    let mut ioa = IoArea::new();
    poop(&mut ioa, 0x41);
    assert_eq!(field_get(ioa.poop, 0, 8), 0x41);
    msg(&mut ioa, "computer starting!");
    // The line feed is the last byte written.
    assert_eq!(field_get(ioa.poop, 0, 8), 10);
}

#[test]
fn platforms_map_driver_numbers() {
    let p = Platform {};
    assert_eq!(p.with_driver(0, |d| d), None);
    assert_eq!(p.with_driver(1, |d| d), None);
    let o = OpenTitan {};
    assert_eq!(o.with_driver(0, |d| d), Some(DriverId::Alarm));
    assert_eq!(o.with_driver(1, |d| d), Some(DriverId::Console));
    assert_eq!(o.with_driver(5, |d| d), None);
}

#[test]
fn ms_conversion_matches_the_tick_rate() {
    assert_eq!(ms_to_tick(100), 1000);
    assert_eq!(ms_to_tick(200), 2000);
    assert_eq!(ms_to_tick(0), 0);
    assert_eq!(ms_to_tick(1), 10);
    assert_eq!(ms_to_tick(10000), 100_000);
}
