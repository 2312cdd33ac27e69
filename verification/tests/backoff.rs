use udp_over_tcp::tcp2udp::{AcceptAction, AcceptCooldown};
use udp_over_tcp::{Delay, ExponentialBackoff};

#[test]
fn delays_double_up_to_max() {
    let mut backoff = ExponentialBackoff::new(Delay::from_millis(50), Delay::from_millis(5000));
    let expected = [50u64, 100, 200, 400, 800, 1600, 3200, 5000, 5000];
    for millis in expected {
        assert_eq!(backoff.next_delay(), Delay::from_millis(millis));
    }
}

#[test]
fn reset_starts_over() {
    let mut backoff = ExponentialBackoff::new(Delay::from_millis(50), Delay::from_millis(5000));
    backoff.next_delay();
    backoff.next_delay();
    backoff.reset();
    assert_eq!(backoff.next_delay(), Delay::from_millis(50));
    assert_eq!(backoff.next_delay(), Delay::from_millis(100));
}

#[test]
fn start_above_max_drops_to_max() {
    let mut backoff = ExponentialBackoff::new(Delay::from_secs(10), Delay::from_secs(1));
    assert_eq!(backoff.next_delay(), Delay::from_secs(10));
    assert_eq!(backoff.next_delay(), Delay::from_secs(1));
    assert_eq!(backoff.next_delay(), Delay::from_secs(1));
}

#[test]
fn zero_start_stays_zero() {
    let mut backoff = ExponentialBackoff::new(Delay::from_nanos(0), Delay::from_secs(3));
    for _ in 0..5 {
        assert_eq!(backoff.next_delay(), Delay::from_nanos(0));
    }
}

#[test]
fn delay_conversions() {
    let d = Delay::new(1, 1_500_000_000);
    assert_eq!(d.as_secs(), 2);
    assert_eq!(d.subsec_nanos(), 500_000_000);
    assert_eq!(d.as_nanos(), 2_500_000_000);
    assert_eq!(Delay::from_millis(1234).as_nanos(), 1_234_000_000);
    assert_eq!(Delay::from_secs(u64::MAX).as_secs(), u64::MAX);
    assert_eq!(Delay::from_nanos(7).subsec_nanos(), 7);
}

#[test]
fn failed_accepts_pause_longer_until_success() {
    let mut cooldown = AcceptCooldown::new();
    let pause = |a: AcceptAction| match a {
        AcceptAction::ReportErrorAndPause(d) => d,
        AcceptAction::ServeConnection => panic!("expected a pause"),
    };
    assert_eq!(pause(cooldown.on_accept(false)), Delay::from_millis(50));
    assert_eq!(pause(cooldown.on_accept(false)), Delay::from_millis(100));
    assert_eq!(pause(cooldown.on_accept(false)), Delay::from_millis(200));
    assert_eq!(cooldown.on_accept(true), AcceptAction::ServeConnection);
    assert_eq!(pause(cooldown.on_accept(false)), Delay::from_millis(50));
    for _ in 0..10 {
        cooldown.on_accept(false);
    }
    assert_eq!(pause(cooldown.on_accept(false)), Delay::from_millis(5000));
}
