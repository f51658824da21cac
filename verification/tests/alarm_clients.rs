//! The two virtual-alarm client capsules, driven end to end against the
//! multiplexer and the timer model.

use chipcore::alarm_test::TestAlarm;
use chipcore::csr::Csr;
use chipcore::mux::AlarmMultiplexer;
use chipcore::test_alarm::TestAlarm as IrregularTestAlarm;
use chipcore::timer::RvTimer;

#[test]
fn blinker_arms_and_rearms_on_its_interval() {
    let mut csr = Csr::new();
    let mut timer = RvTimer::new();
    timer.setup();
    let mut mux = AlarmMultiplexer::new();
    let slot = mux.register(&mut csr);
    let mut client = TestAlarm::new(slot, Some(false));

    // Wait 100 ms, then toggle every 200 ms, 100 times.
    client.run(&mut mux, &mut timer, 100, 200, 100);
    assert_eq!(timer.get_alarm(), 1000);
    assert_eq!(client.count, 100);
    assert_eq!(client.interval, 2000);

    timer.hw_advance(1000);
    let order = mux.fired(&mut timer);
    assert_eq!(order, vec![slot]);
    client.fired(&mut mux, &mut timer);
    assert_eq!(client.toggle_pin, Some(true));
    assert_eq!(client.count, 99);
    assert_eq!(timer.get_alarm(), 3000);
}

#[test]
fn blinker_without_pin_counts_down_to_rest() {
    let mut csr = Csr::new();
    let mut timer = RvTimer::new();
    timer.setup();
    let mut mux = AlarmMultiplexer::new();
    let slot = mux.register(&mut csr);
    let mut client = TestAlarm::new(slot, None);

    client.run(&mut mux, &mut timer, 10, 10, 1);
    timer.hw_advance(100);
    mux.fired(&mut timer);
    client.fired(&mut mux, &mut timer);
    assert_eq!(client.count, 0);
    assert_eq!(client.toggle_pin, None);
    // The last notification: the client does not re-arm.
    timer.hw_advance(100);
    mux.fired(&mut timer);
    client.fired(&mut mux, &mut timer);
    assert_eq!(client.count, 0);
    assert!(!mux.clients[slot].enabled);
    assert!(!timer.is_enabled());
}

#[test]
fn irregular_client_follows_its_schedule() {
    let mut csr = Csr::new();
    let mut timer = RvTimer::new();
    timer.setup();
    let mut mux = AlarmMultiplexer::new();
    let slot = mux.register(&mut csr);
    let mut client = IrregularTestAlarm::new(slot);

    client.run(&mut mux, &mut timer);
    assert_eq!(client.ms, 10000);
    assert_eq!(timer.get_alarm(), 100_000);

    timer.hw_advance(100_000);
    mux.fired(&mut timer);
    client.fired(&mut mux, &mut timer);
    // 10 + ((10000 + 137) mod 757) = 306 ms, i.e. 3060 ticks on.
    assert_eq!(client.ms, 306);
    assert_eq!(timer.get_alarm(), 103_060);

    timer.hw_advance(3060);
    mux.fired(&mut timer);
    client.fired(&mut mux, &mut timer);
    // 10 + ((306 + 137) mod 757) = 453.
    assert_eq!(client.ms, 453);
    assert_eq!(timer.get_alarm(), 103_060 + 4530);
}
