use espera::rate::LAG_MAX;
use espera::rate::LAG_MIN;
use espera::Clock;
use espera::Duration;
use espera::Instant;
use espera::Rate;

const MS: u64 = 1_000_000;

fn at_ms(ms: u64) -> Instant {
    Instant::from_nanos(ms * MS)
}

#[test]
fn new_rate_is_fresh() {
    let r = Rate::new(Duration::milliseconds(25), at_ms(7));
    assert_eq!(r.duration(), Duration::milliseconds(25));
    assert_eq!(r.ticks(), 0);
    assert_eq!(r.delta_rem(), 0);
    assert_eq!(r.first_tick(), at_ms(7));
    assert_eq!(r.last_tick(), at_ms(7));
}

#[test]
fn steady_cadence_counts_one_tick_per_call_without_lag() {
    let mut r = Rate::new(Duration::milliseconds(25), at_ms(100));
    for n in 1..=40u64 {
        let fired = r.do_tick(at_ms(100 + 25 * n));
        assert_eq!(fired, Some(Duration::milliseconds(25)));
        assert_eq!(r.ticks(), n);
        assert_eq!(r.delta_rem(), 0);
        assert_eq!(r.last_tick(), at_ms(100 + 25 * n));
    }
    assert_eq!(r.first_tick(), at_ms(100));
}

#[test]
fn do_tick_fast_does_not_fire_before_the_target() {
    let mut r = Rate::new(Duration::milliseconds(25), at_ms(0));
    let before = r;
    assert_eq!(r.do_tick_fast(Instant::from_nanos(25 * MS - 1)), None);
    assert_eq!(r, before);
    assert_eq!(r.do_tick_fast(at_ms(25)), Some(Duration::milliseconds(25)));
    assert_eq!(r.ticks(), 1);
    assert_eq!(r.last_tick(), at_ms(25));
}

#[test]
fn do_tick_does_not_fire_before_the_target_with_lag_counted_in() {
    let mut r = Rate::new(Duration::milliseconds(25), at_ms(0));
    assert_eq!(r.do_tick(at_ms(30)), Some(Duration::milliseconds(30)));
    assert_eq!(r.delta_rem(), 5_000_000);
    let before = r;
    // 19.999999 ms + 5 ms of lag is still short of 25 ms
    assert_eq!(r.do_tick(Instant::from_nanos(50 * MS - 1)), None);
    assert_eq!(r, before);
    assert_eq!(r.ticks(), 1);
    // 20 ms + 5 ms reaches it
    assert_eq!(r.do_tick(at_ms(50)), Some(Duration::milliseconds(20)));
    assert_eq!(r.ticks(), 2);
    assert_eq!(r.delta_rem(), 0);
}

#[test]
fn lag_compensation_fires_an_early_tick() {
    let mut r = Rate::new(Duration::milliseconds(25), at_ms(1000));
    assert_eq!(r.do_tick(at_ms(1040)), Some(Duration::milliseconds(40)));
    assert_eq!(r.ticks(), 1);
    assert_eq!(r.delta_rem(), 15_000_000);
    assert_eq!(r.do_tick(at_ms(1050)), Some(Duration::milliseconds(10)));
    assert_eq!(r.ticks(), 2);
    assert_eq!(r.delta_rem(), 0);
}

#[test]
fn do_tick_fast_leaves_the_lag_alone() {
    let mut r = Rate::new(Duration::milliseconds(25), at_ms(1000));
    assert_eq!(r.do_tick_fast(at_ms(1040)), Some(Duration::milliseconds(40)));
    assert_eq!(r.delta_rem(), 0);
    assert_eq!(r.do_tick_fast(at_ms(1050)), None);
    assert_eq!(r.ticks(), 1);
}

#[test]
fn reset_forgets_ticks_and_lag() {
    let mut r = Rate::new(Duration::milliseconds(25), at_ms(0));
    r.do_tick(at_ms(40));
    r.increment_ticks();
    assert_eq!(r.ticks(), 2);
    assert_ne!(r.delta_rem(), 0);
    r.reset(at_ms(90));
    assert_eq!(r.ticks(), 0);
    assert_eq!(r.delta_rem(), 0);
    assert_eq!(r.first_tick(), at_ms(90));
    assert_eq!(r.last_tick(), at_ms(90));
    assert_eq!(r.duration(), Duration::milliseconds(25));
}

#[test]
fn lag_saturates_at_its_bounds() {
    assert_eq!(LAG_MAX, i32::MAX);
    assert_eq!(LAG_MIN, i32::MIN);
    let mut late = Rate::new(Duration::milliseconds(25), at_ms(0));
    // a stall of ten seconds: the lag of one interval is clamped
    assert_eq!(late.do_tick(at_ms(10_000)), Some(Duration::seconds(10)));
    assert_eq!(late.delta_rem(), LAG_MAX);
    // and the sum of two lags is clamped as well
    assert_eq!(late.do_tick(at_ms(12_000)), Some(Duration::seconds(2)));
    assert_eq!(late.delta_rem(), LAG_MAX);

    let mut early = Rate::new(Duration::seconds(10), at_ms(0));
    early.do_tick(at_ms(12_000));
    assert_eq!(early.delta_rem(), 2_000_000_000);
    // fires after 8 s thanks to the lag, and is then 2 s early
    assert_eq!(early.do_tick(at_ms(20_000)), Some(Duration::seconds(8)));
    assert_eq!(early.delta_rem(), 0);
    let mut under = Rate::new(Duration::seconds(5), at_ms(0));
    under.set_duration(Duration::seconds(-5));
    // a target below zero: an interval of zero is 5 s over it
    assert_eq!(under.do_tick(at_ms(0)), Some(Duration::zero()));
    assert_eq!(under.delta_rem(), LAG_MAX);
}

#[test]
fn lag_is_used_up_but_never_owed() {
    let mut r = Rate::new(Duration::seconds(1), at_ms(0));
    assert_eq!(r.do_tick(at_ms(3_000)), Some(Duration::seconds(3)));
    assert_eq!(r.delta_rem(), 2_000_000_000);
    r.set_duration(Duration::seconds(4));
    // 2 s and 2 s of lag reach the 4 s: the lag is used up
    assert_eq!(r.do_tick(at_ms(5_000)), Some(Duration::seconds(2)));
    assert_eq!(r.delta_rem(), 0);
    // without lag, 3.999 s do not reach them
    assert_eq!(r.do_tick(at_ms(8_999)), None);
    assert_eq!(r.delta_rem(), 0);
    assert_eq!(r.do_tick(at_ms(9_001)), Some(Duration::milliseconds(4_001)));
    assert_eq!(r.delta_rem(), 1_000_000);
    assert_eq!(r.ticks(), 3);
}

#[test]
fn a_clock_that_goes_back_fires_nothing() {
    let mut r = Rate::new(Duration::milliseconds(25), at_ms(500));
    let before = r;
    assert_eq!(r.do_tick(at_ms(500)), None);
    assert_eq!(r.do_tick(at_ms(100)), None);
    assert_eq!(r.do_tick_fast(at_ms(500)), None);
    assert_eq!(r.do_tick_fast(at_ms(100)), None);
    assert_eq!(r, before);
}

#[test]
fn zero_duration_is_always_due() {
    let mut r = Rate::new(Duration::zero(), at_ms(5));
    assert_eq!(r.do_tick(at_ms(5)), Some(Duration::zero()));
    assert_eq!(r.do_tick_fast(at_ms(5)), Some(Duration::zero()));
    assert_eq!(r.do_tick(at_ms(6)), Some(Duration::milliseconds(1)));
    assert_eq!(r.ticks(), 3);
    // every call is due, but for a clock that went back
    assert_eq!(r.do_tick(at_ms(5)), None);
    assert_eq!(r.do_tick_fast(at_ms(5)), None);
    assert_eq!(r.ticks(), 3);
    assert_eq!(r.last_tick(), at_ms(6));
}

#[test]
fn elapsed_times_are_measured_from_the_anchors() {
    let mut r = Rate::new(Duration::milliseconds(25), at_ms(100));
    r.do_tick(at_ms(130));
    assert_eq!(r.first_elapsed(at_ms(150)), Duration::milliseconds(50));
    assert_eq!(r.last_elapsed(at_ms(150)), Duration::milliseconds(20));
    assert_eq!(r.last_elapsed(at_ms(120)), Duration::milliseconds(-10));
    assert_eq!(r.tick_elapsed(4, at_ms(150)), Duration::milliseconds(-50));
    assert_eq!(r.tick_elapsed(1, at_ms(150)), Duration::milliseconds(25));
}

#[test]
fn ticks_are_projected_from_the_first_tick() {
    let r = Rate::new(Duration::milliseconds(25), at_ms(100));
    assert_eq!(r.duration_ticks(0), Duration::zero());
    assert_eq!(r.duration_ticks(40), Duration::seconds(1));
    assert_eq!(r.duration_ticks_checked(40), Some(Duration::seconds(1)));
    assert!(r.duration_ticks_checked(u64::MAX).is_some());
    assert_eq!(Rate::new(Duration::seconds(1), at_ms(0)).duration_ticks_checked(u64::MAX), None);
    assert_eq!(r.instant_tick(0), at_ms(100));
    assert_eq!(r.instant_tick(40), at_ms(1100));
    assert_eq!(r.instant_tick_checked(40), Some(at_ms(1100)));
}

#[test]
fn a_tick_too_far_ahead_has_no_instant() {
    let half_second = Rate::new(Duration::milliseconds(500), at_ms(0));
    assert!(half_second.instant_tick_checked(u64::MAX).is_some());
    let second = Rate::new(Duration::seconds(2), at_ms(1));
    assert_eq!(second.instant_tick_checked(u64::MAX), None);
    assert_eq!(second.instant_tick_checked(u64::MAX / 2), None);
    let backwards = Rate::new(Duration::milliseconds(-1), at_ms(10));
    assert_eq!(backwards.instant_tick_checked(10), Some(at_ms(0)));
    assert_eq!(backwards.instant_tick_checked(11), None);
}

#[test]
fn setters_change_one_field() {
    let mut r = Rate::new(Duration::milliseconds(25), at_ms(100));
    r.set_first_tick(at_ms(1));
    assert_eq!(r.first_tick(), at_ms(1));
    assert_eq!(r.last_tick(), at_ms(100));
    r.set_last_tick(at_ms(2));
    assert_eq!(r.last_tick(), at_ms(2));
    assert_eq!(r.first_tick(), at_ms(1));
    r.set_duration(Duration::seconds(3));
    assert_eq!(r.duration(), Duration::seconds(3));
    r.increment_ticks();
    assert_eq!(r.ticks(), 1);
    assert_eq!(r.delta_rem(), 0);
}

#[test]
fn ticks_at_the_present_instant() {
    let clock = Clock::new();
    let mut r = Rate::new(Duration::zero(), clock.now());
    let before = r.last_tick();
    let delta = r.do_tick_now(&clock).expect("a rate without target is always due");
    assert!(delta >= Duration::zero());
    assert_eq!(r.ticks(), 1);
    assert_eq!(r.last_tick().duration_since(before), delta);
    let delta = r.do_tick_fast_now(&clock).expect("a rate without target is always due");
    assert!(delta >= Duration::zero());
    assert_eq!(r.ticks(), 2);

    let mut slow = Rate::new(Duration::seconds(3600), clock.now());
    assert_eq!(slow.do_tick_now(&clock), None);
    assert_eq!(slow.do_tick_fast_now(&clock), None);
    assert_eq!(slow.ticks(), 0);
}

#[test]
fn a_tick_is_due_when_the_target_is_reached() {
    let mut r = Rate::new(Duration::milliseconds(25), at_ms(0));
    assert!(!r.is_due(Instant::from_nanos(25 * MS - 1)));
    assert!(!r.is_due_fast(Instant::from_nanos(25 * MS - 1)));
    assert!(r.is_due(at_ms(25)));
    assert!(r.is_due_fast(at_ms(25)));
    r.do_tick(at_ms(40));
    // with 15 ms of lag, 10 ms are enough for a compensated tick
    assert!(r.is_due(at_ms(50)));
    assert!(!r.is_due_fast(at_ms(50)));
    assert!(!r.is_due(Instant::from_nanos(50 * MS - 1)));
    assert_eq!(r.ticks(), 1);
}

#[test]
fn a_rate_that_is_due_at_every_instant_fires_whatever_the_clock_shows() {
    let clock = Clock::new();
    // a target below zero, and a last tick at the origin: no instant is too early
    let mut always = Rate::new(Duration::seconds(-1), Instant::origin());
    for n in 1..=3u64 {
        always.set_last_tick(Instant::origin());
        assert!(always.do_tick_now(&clock).is_some());
        always.set_last_tick(Instant::origin());
        assert!(always.do_tick_fast_now(&clock).is_some());
        assert_eq!(always.ticks(), 2 * n);
    }
    // a target that no span between two instants reaches
    let mut never = Rate::new(Duration::seconds(i64::MAX), clock.now());
    never.set_duration(Duration::nanoseconds_i128(espera::duration::MAX_NANOS));
    never.set_last_tick(Instant::from_nanos(1));
    assert_eq!(never.do_tick_now(&clock), None);
    assert_eq!(never.do_tick_fast_now(&clock), None);
    assert_eq!(never.ticks(), 0);
}

#[test]
fn lag_does_not_fire_a_tick_on_a_clock_that_goes_back() {
    let mut r = Rate::new(Duration::milliseconds(25), Instant::from_nanos(0));
    assert_eq!(r.do_tick(Instant::from_nanos(3_000_000_000)), Some(Duration::seconds(3)));
    assert_eq!(r.delta_rem(), LAG_MAX);
    let before = r;
    // a millisecond before the last tick: the lag would cover the target
    assert!(!r.is_due(Instant::from_nanos(2_999_000_000)));
    assert!(!r.has_moved_on(Instant::from_nanos(2_999_000_000)));
    assert_eq!(r.do_tick(Instant::from_nanos(2_999_000_000)), None);
    assert_eq!(r, before);
    // at the last tick itself
    assert!(!r.is_due(Instant::from_nanos(3_000_000_000)));
    assert_eq!(r.do_tick(Instant::from_nanos(3_000_000_000)), None);
    assert_eq!(r.do_tick_fast(Instant::from_nanos(3_000_000_000)), None);
    assert_eq!(r, before);
    assert_eq!(r.ticks(), 1);
    assert_eq!(r.last_tick(), Instant::from_nanos(3_000_000_000));
    assert_eq!(r.delta_rem(), LAG_MAX);
    // one nanosecond on, the lag fires the tick
    assert!(r.has_moved_on(Instant::from_nanos(3_000_000_001)));
    assert!(r.is_due(Instant::from_nanos(3_000_000_001)));
    assert!(!r.is_due_fast(Instant::from_nanos(3_000_000_001)));
    assert_eq!(r.do_tick(Instant::from_nanos(3_000_000_001)), Some(Duration::nanoseconds(1)));
    assert_eq!(r.ticks(), 2);
    assert_eq!(r.delta_rem(), LAG_MAX - 24_999_999);
}

#[test]
fn a_rate_without_target_fires_on_a_clock_that_stands_still_but_not_on_one_that_goes_back() {
    let mut zero = Rate::new(Duration::zero(), at_ms(5));
    assert!(zero.has_moved_on(at_ms(5)));
    assert!(!zero.has_moved_on(Instant::from_nanos(5 * MS - 1)));
    assert_eq!(zero.do_tick(Instant::from_nanos(5 * MS - 1)), None);
    assert_eq!(zero.do_tick_fast(Instant::from_nanos(5 * MS - 1)), None);
    assert_eq!(zero.ticks(), 0);
    assert_eq!(zero.do_tick(at_ms(5)), Some(Duration::zero()));
    assert_eq!(zero.do_tick_fast(at_ms(5)), Some(Duration::zero()));
    assert_eq!(zero.ticks(), 2);
    assert_eq!(zero.last_tick(), at_ms(5));
    // a target below zero is no target either
    let mut under = Rate::new(Duration::seconds(-5), at_ms(10_000));
    assert_eq!(under.do_tick(at_ms(9_000)), None);
    assert_eq!(under.do_tick_fast(at_ms(9_000)), None);
    assert_eq!(under.ticks(), 0);
    assert_eq!(under.last_tick(), at_ms(10_000));
    assert_eq!(under.delta_rem(), 0);
    assert_eq!(under.do_tick_fast(at_ms(10_000)), Some(Duration::zero()));
    assert_eq!(under.do_tick(at_ms(10_001)), Some(Duration::milliseconds(1)));
    assert_eq!(under.ticks(), 2);
}
