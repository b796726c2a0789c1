use espera::key::rate_key;
use espera::Duration;
use espera::EsperaError;
use espera::Instant;
use espera::LoopStatus;
use espera::Looper;
use espera::Rate;
use espera::TickOutcome;

const MS: u64 = 1_000_000;

fn at_ms(ms: u64) -> Instant {
    Instant::from_nanos(ms * MS)
}

#[test]
fn new_looper_is_active_and_empty() {
    let mut l = Looper::new();
    assert_eq!(l.status(), LoopStatus::Active);
    assert_eq!(l.ref_root_rate().ticks(), 0);
    assert_eq!(l.ref_root_rate().duration(), Duration::zero());
    assert_eq!(l.ref_root_rate().first_tick(), l.ref_root_rate().last_tick());
    assert_eq!(l.ref_root_stats().sum_16(), 0);
    assert_eq!(l.fastest_rate_duration(), None);
    assert!(l.rate_keys().is_empty());
    assert!(l.ref_rate("any").is_none());
    assert!(l.mut_rate("any").is_none());
}

#[test]
fn measure_and_sleep_alternate() {
    let mut l = Looper::new();
    // active: nothing to measure
    assert_eq!(l.measure(), None);
    assert_eq!(l.status(), LoopStatus::Active);
    assert_eq!(l.ref_root_rate().ticks(), 0);
    // the first sleep is to be performed, the second is not
    let d = Duration::milliseconds(2);
    assert_eq!(l.sleep(d), Some(d));
    assert_eq!(l.status(), LoopStatus::Asleep);
    assert_eq!(l.sleep(d), None);
    assert_eq!(l.status(), LoopStatus::Asleep);
    let last = l.ref_root_rate().last_tick();
    let (now, delta) = l.measure().expect("asleep, a measure is taken");
    assert_eq!(l.status(), LoopStatus::Active);
    assert_eq!(l.ref_root_rate().ticks(), 1);
    assert_eq!(l.ref_root_rate().last_tick(), now);
    assert_eq!(delta, now.duration_since(last));
    assert!(delta >= Duration::zero());
    // measured once only
    assert_eq!(l.measure(), None);
    assert_eq!(l.ref_root_rate().ticks(), 1);
}

#[test]
fn sleep_without_a_positive_duration_waits_for_nothing() {
    let mut l = Looper::new();
    assert_eq!(l.sleep(Duration::zero()), None);
    assert_eq!(l.status(), LoopStatus::Asleep);
    assert!(l.measure_at(at_ms(1_000)).is_some());
    assert_eq!(l.sleep(Duration::milliseconds(-5)), None);
    assert_eq!(l.status(), LoopStatus::Asleep);
}

#[test]
fn measure_at_feeds_the_root_statistics() {
    let mut l = Looper::new();
    l.reset_root_at(at_ms(0));
    assert_eq!(l.status(), LoopStatus::Asleep);
    for n in 1..=16u64 {
        let r = l.measure_at(at_ms(10 * n));
        assert_eq!(r, Some((at_ms(10 * n), Duration::milliseconds(10))));
        assert_eq!(l.measure_at(at_ms(10 * n + 1)), None);
        assert_eq!(l.ref_root_rate().ticks(), n);
        assert_eq!(l.ref_root_rate().last_tick(), at_ms(10 * n));
        if n < 16 {
            assert_eq!(l.ref_root_stats().sum_16(), 0);
        }
        assert_eq!(l.sleep(Duration::milliseconds(9)), Some(Duration::milliseconds(9)));
    }
    assert_eq!(l.ref_root_stats().sum_16(), 160_000_000);
    assert_eq!(l.ref_root_stats().max_ns_16(), 10_000_000);
    assert_eq!(l.ref_root_rate().first_tick(), at_ms(0));
    assert_eq!(l.ref_root_rate().delta_rem(), 0);
}

#[test]
fn a_measure_before_the_last_tick_leaves_the_low_bits_as_sample() {
    let mut l = Looper::new();
    l.reset_root_at(at_ms(10));
    for _ in 0..16 {
        assert_eq!(l.measure_at(at_ms(10)), Some((at_ms(10), Duration::zero())));
        l.sleep(Duration::zero());
    }
    assert_eq!(l.ref_root_stats().max_ns_16(), 0);
    l.reset_root_at(at_ms(10));
    let back = Instant::from_nanos(10 * MS - 1);
    assert_eq!(l.measure_at(back), Some((back, Duration::nanoseconds(-1))));
    for _ in 1..16 {
        l.sleep(Duration::zero());
        l.measure_at(back);
    }
    assert_eq!(l.ref_root_stats().max_ns_16(), u64::MAX);
}

#[test]
fn reset_touches_the_root_only() {
    let mut l = Looper::new();
    l.add_rate("kept", Rate::new(Duration::milliseconds(5), at_ms(0)), true).unwrap();
    assert!(l.do_tick(at_ms(7), "kept").is_some());
    l.sleep(Duration::zero());
    l.measure_at(at_ms(100));
    assert_eq!(l.ref_root_rate().ticks(), 1);
    l.reset();
    assert_eq!(l.status(), LoopStatus::Asleep);
    assert_eq!(l.ref_root_rate().ticks(), 0);
    assert_eq!(l.ref_root_rate().delta_rem(), 0);
    assert_eq!(l.ref_root_rate().first_tick(), l.ref_root_rate().last_tick());
    let kept = l.ref_rate("kept").unwrap();
    assert_eq!(kept.ticks(), 1);
    assert_eq!(kept.last_tick(), at_ms(7));
    assert_eq!(kept.delta_rem(), 2_000_000);
    l.reset_root_at(at_ms(3));
    assert_eq!(l.ref_root_rate().last_tick(), at_ms(3));
    assert_eq!(l.ref_root_rate().first_tick(), at_ms(3));
    l.reset_root();
    assert_eq!(l.status(), LoopStatus::Asleep);
    let (now, delta) = l.now_delta();
    assert_eq!(delta, now.duration_since(l.ref_root_rate().last_tick()));
    assert!(delta >= Duration::zero());
}

#[test]
fn a_name_that_is_too_long_is_refused() {
    let mut l = Looper::new();
    let rate = Rate::new(Duration::milliseconds(25), at_ms(0));
    let r = l.add_rate("this_name_is_way_too_long_123456", rate, false);
    assert!(matches!(r, Err(EsperaError::RateName(sixbit::EncodeError::TooLong))));
    assert!(l.rate_keys().is_empty());
    assert!(l.ref_rate("this_name_is_way_too_long_123456").is_none());
    assert_eq!(l.do_tick(at_ms(100), "this_name_is_way_too_long_123456"), None);
    assert_eq!(l.do_tick_fast(at_ms(100), "this_name_is_way_too_long_123456"), None);
}

#[test]
fn a_valid_name_is_accepted() {
    let mut l = Looper::new();
    let rate = Rate::new(Duration::milliseconds(25), at_ms(0));
    assert_eq!(l.add_rate("valid_name", rate, true).unwrap(), None);
    assert_eq!(l.ref_rate("valid_name").unwrap().duration(), Duration::milliseconds(25));
    assert_eq!(l.ref_rate("valid_name"), Some(&rate));
    assert!(l.ref_stats("valid_name").is_some());
    // the longest name there is
    assert_eq!(l.add_rate("ascii_name_max_length", rate, false).unwrap(), None);
    assert!(l.ref_rate("ascii_name_max_length").is_some());
    assert!(l.ref_stats("ascii_name_max_length").is_none());
    assert!(l.add_rate("ascii_name_max_length_", rate, false).is_err());
    // characters that no code page holds
    assert!(matches!(
        l.add_rate("no-dash", rate, false),
        Err(EsperaError::RateName(sixbit::EncodeError::MissingFromPage('-')))
    ));
    assert!(matches!(
        l.add_rate(" x", rate, false),
        Err(EsperaError::RateName(sixbit::EncodeError::NoCodePageFor(' ')))
    ));
    assert!(l.ref_rate("no-dash").is_none());
    assert_eq!(l.rate_keys().len(), 2);
}

#[test]
fn keys_tell_names_apart() {
    let a = rate_key("physics").unwrap();
    let b = rate_key("render").unwrap();
    assert_ne!(a, b);
    assert_eq!(a, rate_key("physics").unwrap());
    assert_ne!(rate_key("a").unwrap(), rate_key("A").unwrap());
    assert_ne!(rate_key("a").unwrap(), rate_key("aa").unwrap());
    assert!(rate_key("спасибо").is_err());
    let mut l = Looper::new();
    l.add_rate("physics", Rate::new(Duration::milliseconds(4), at_ms(0)), false).unwrap();
    l.add_rate("render", Rate::new(Duration::milliseconds(16), at_ms(0)), false).unwrap();
    assert_eq!(l.ref_rate_keyed(a).unwrap().duration(), Duration::milliseconds(4));
    assert_eq!(l.ref_rate_keyed(b).unwrap().duration(), Duration::milliseconds(16));
    let mut keys = l.rate_keys();
    keys.sort();
    let mut expected = vec![a, b];
    expected.sort();
    assert_eq!(keys, expected);
}

#[test]
fn add_rate_replaces_and_returns_the_previous_rate() {
    let mut l = Looper::new();
    let first = Rate::new(Duration::milliseconds(25), at_ms(0));
    let second = Rate::new(Duration::milliseconds(50), at_ms(1));
    assert_eq!(l.add_rate("r", first, true).unwrap(), None);
    for n in 1..=16u64 {
        assert!(l.do_tick(at_ms(25 * n), "r").is_some());
    }
    assert_eq!(l.ref_stats("r").unwrap().sum_16(), 400_000_000);
    let previous = l.add_rate("r", second, false).unwrap().unwrap();
    assert_eq!(previous.ticks(), 16);
    assert_eq!(previous.duration(), Duration::milliseconds(25));
    assert_eq!(l.ref_rate("r"), Some(&second));
    // without new statistics the old ones stay
    assert_eq!(l.ref_stats("r").unwrap().sum_16(), 400_000_000);
    assert_eq!(l.add_rate("r", first, true).unwrap(), Some(second));
    assert_eq!(l.ref_stats("r").unwrap().sum_16(), 0);
    assert_eq!(l.rate_keys().len(), 1);
    let key = rate_key("r").unwrap();
    assert_eq!(l.add_rate_keyed(key, second, false), Some(first));
    assert_eq!(l.ref_rate("r"), Some(&second));
}

#[test]
fn a_named_rate_ticks_and_feeds_its_statistics() {
    let mut l = Looper::new();
    l.add_rate("with", Rate::new(Duration::milliseconds(25), at_ms(0)), true).unwrap();
    l.add_rate("without", Rate::new(Duration::milliseconds(25), at_ms(0)), false).unwrap();
    // not yet due
    assert_eq!(l.do_tick(at_ms(24), "with"), None);
    assert_eq!(l.do_tick_fast(at_ms(24), "with"), None);
    assert_eq!(l.ref_rate("with").unwrap().ticks(), 0);
    // not there
    assert_eq!(l.do_tick(at_ms(1_000), "absent"), None);
    assert_eq!(l.do_tick_fast(at_ms(1_000), "absent"), None);
    // due: lag compensation as in a rate on its own
    assert_eq!(l.do_tick(at_ms(40), "with"), Some(Duration::milliseconds(40)));
    assert_eq!(l.do_tick(at_ms(50), "with"), Some(Duration::milliseconds(10)));
    assert_eq!(l.do_tick(at_ms(60), "with"), None);
    assert_eq!(l.ref_rate("with").unwrap().ticks(), 2);
    assert_eq!(l.ref_rate("with").unwrap().delta_rem(), 0);
    assert_eq!(l.ref_rate("with").unwrap().last_tick(), at_ms(50));
    // the other rate has not moved
    assert_eq!(l.ref_rate("without").unwrap().ticks(), 0);
    assert_eq!(l.do_tick_fast(at_ms(40), "without"), Some(Duration::milliseconds(40)));
    assert_eq!(l.do_tick_fast(at_ms(50), "without"), None);
    assert_eq!(l.ref_rate("without").unwrap().delta_rem(), 0);
    for n in 3..=16u64 {
        assert_eq!(
            l.do_tick_fast(at_ms(50 + 30 * (n - 2)), "with"),
            Some(Duration::milliseconds(30))
        );
    }
    let stats = l.ref_stats("with").unwrap();
    assert_eq!(stats.sum_16(), 40_000_000 + 10_000_000 + 14 * 30_000_000);
    assert_eq!(stats.max_ns_16(), 40_000_000);
    assert_eq!(stats.sum_128(), 0);
    assert!(l.ref_stats("without").is_none());
    // the root is not touched by named rates
    assert_eq!(l.ref_root_rate().ticks(), 0);
    assert_eq!(l.status(), LoopStatus::Active);
}

#[test]
fn keyed_ticks_do_what_named_ticks_do() {
    let mut l = Looper::new();
    let key = rate_key("keyed").unwrap();
    let other = rate_key("other").unwrap();
    assert_eq!(l.add_rate_keyed(key, Rate::new(Duration::milliseconds(25), at_ms(0)), true), None);
    assert_eq!(l.do_tick_keyed(at_ms(10), key), None);
    assert_eq!(l.do_tick_keyed(at_ms(40), other), None);
    assert_eq!(l.do_tick_keyed(at_ms(40), key), Some(Duration::milliseconds(40)));
    assert_eq!(l.do_tick_fast_keyed(at_ms(50), key), None);
    assert_eq!(l.do_tick_fast_keyed(at_ms(50), other), None);
    assert_eq!(l.do_tick_fast_keyed(at_ms(70), key), Some(Duration::milliseconds(30)));
    assert_eq!(l.ref_rate("keyed").unwrap().ticks(), 2);
    assert_eq!(l.ref_rate("keyed").unwrap().delta_rem(), 15_000_000);
    assert!(l.ref_stats_keyed(key).is_some());
    assert!(l.ref_stats_keyed(other).is_none());
    assert_eq!(l.mut_rate_keyed(key).map(|r| r.ticks()), Some(2));
    assert!(l.mut_rate_keyed(other).is_none());
}

#[test]
fn the_clock_of_a_looper_is_the_one_it_reads() {
    let mut l = Looper::new();
    let clock = l.clock();
    let before = clock.now();
    l.sleep(Duration::zero());
    let (now, _) = l.measure().expect("asleep, a measure is taken");
    let after = clock.now();
    // the looper's reading lies between two readings of its clock
    assert!(before <= now);
    assert!(now <= after);
}

#[test]
fn named_ticks_at_the_present_instant() {
    let mut l = Looper::new();
    let now = l.clock().now();
    l.add_rate("often", Rate::new(Duration::zero(), now), true).unwrap();
    l.add_rate("seldom", Rate::new(Duration::seconds(3600), now), true).unwrap();
    let delta = l.do_tick_now("often").expect("a rate without target is always due");
    assert!(delta >= Duration::zero());
    assert!(l.do_tick_fast_now("often").is_some());
    assert_eq!(l.ref_rate("often").unwrap().ticks(), 2);
    assert_eq!(l.do_tick_now("seldom"), None);
    assert_eq!(l.do_tick_fast_now("seldom"), None);
    assert_eq!(l.do_tick_now("absent"), None);
    assert_eq!(l.ref_rate("seldom").unwrap().ticks(), 0);
}

#[test]
fn rates_are_changed_in_place() {
    let mut l = Looper::new();
    l.add_rate("r", Rate::new(Duration::milliseconds(25), at_ms(0)), false).unwrap();
    l.mut_rate("r").unwrap().set_duration(Duration::milliseconds(5));
    assert_eq!(l.ref_rate("r").unwrap().duration(), Duration::milliseconds(5));
    assert!(l.mut_rate("absent").is_none());
    assert!(l.mut_rate("not a name").is_none());
    l.mut_root_rate().set_duration(Duration::milliseconds(16));
    l.mut_root_rate().increment_ticks();
    assert_eq!(l.ref_root_rate().duration(), Duration::milliseconds(16));
    assert_eq!(l.ref_root_rate().ticks(), 1);
}

#[test]
fn the_fastest_rate_has_the_shortest_duration() {
    let mut l = Looper::new();
    assert_eq!(l.fastest_rate_duration(), None);
    l.add_rate("slow", Rate::new(Duration::milliseconds(100), at_ms(0)), false).unwrap();
    assert_eq!(l.fastest_rate_duration(), Some(Duration::milliseconds(100)));
    l.add_rate("fast", Rate::new(Duration::milliseconds(4), at_ms(0)), false).unwrap();
    l.add_rate("mid", Rate::new(Duration::milliseconds(16), at_ms(0)), false).unwrap();
    l.add_rate("mid2", Rate::new(Duration::milliseconds(16), at_ms(0)), false).unwrap();
    assert_eq!(l.fastest_rate_duration(), Some(Duration::milliseconds(4)));
    l.mut_rate("fast").unwrap().set_duration(Duration::seconds(1));
    assert_eq!(l.fastest_rate_duration(), Some(Duration::milliseconds(16)));
    // the root rate does not count
    l.mut_root_rate().set_duration(Duration::milliseconds(1));
    assert_eq!(l.fastest_rate_duration(), Some(Duration::milliseconds(16)));
}

#[test]
fn a_clone_is_a_looper_of_its_own() {
    let mut l = Looper::new();
    l.add_rate("r", Rate::new(Duration::milliseconds(25), at_ms(0)), true).unwrap();
    let mut c = l.clone();
    assert!(c.do_tick(at_ms(30), "r").is_some());
    assert_eq!(c.ref_rate("r").unwrap().ticks(), 1);
    assert_eq!(l.ref_rate("r").unwrap().ticks(), 0);
    assert_eq!(c.status(), l.status());
}

#[test]
fn a_tick_tells_what_became_of_it() {
    let mut l = Looper::new();
    l.add_rate("r", Rate::new(Duration::milliseconds(25), at_ms(0)), true).unwrap();
    assert_eq!(l.tick(at_ms(10), "not a name"), TickOutcome::InvalidName);
    assert_eq!(l.tick(at_ms(10), "this_name_is_way_too_long_123456"), TickOutcome::InvalidName);
    assert_eq!(l.tick(at_ms(10), "absent"), TickOutcome::UnknownRate);
    assert_eq!(l.tick(at_ms(10), "r"), TickOutcome::NotDue);
    assert_eq!(l.ref_rate("r").unwrap().ticks(), 0);
    assert_eq!(l.tick(at_ms(40), "r"), TickOutcome::Fired(Duration::milliseconds(40)));
    // the lag of 15 ms makes a tick due after 10 ms, and the fast tick ignores it
    assert_eq!(l.tick_fast(at_ms(50), "r"), TickOutcome::NotDue);
    assert_eq!(l.tick(at_ms(50), "r"), TickOutcome::Fired(Duration::milliseconds(10)));
    assert_eq!(l.tick_fast(at_ms(75), "r"), TickOutcome::Fired(Duration::milliseconds(25)));
    assert_eq!(l.tick_fast(at_ms(75), "absent"), TickOutcome::UnknownRate);
    assert_eq!(l.tick_fast(at_ms(75), "not-a-name"), TickOutcome::InvalidName);
    assert_eq!(l.ref_rate("r").unwrap().ticks(), 3);
    assert_eq!(TickOutcome::Fired(Duration::zero()).fired(), Some(Duration::zero()));
    assert_eq!(TickOutcome::NotDue.fired(), None);
    assert_eq!(TickOutcome::CounterFull.fired(), None);
    assert_eq!(TickOutcome::UnknownRate.fired(), None);
    assert_eq!(TickOutcome::InvalidName.fired(), None);
}

#[test]
fn a_named_rate_with_lag_does_not_tick_on_a_clock_that_goes_back() {
    let mut l = Looper::new();
    l.add_rate("r", Rate::new(Duration::milliseconds(25), at_ms(0)), true).unwrap();
    assert_eq!(l.do_tick(at_ms(3_000), "r"), Some(Duration::seconds(3)));
    let before = *l.ref_rate("r").unwrap();
    assert_eq!(l.do_tick(at_ms(2_999), "r"), None);
    assert_eq!(l.tick(at_ms(2_999), "r"), TickOutcome::NotDue);
    assert_eq!(l.tick(at_ms(3_000), "r"), TickOutcome::NotDue);
    assert_eq!(l.tick_fast(at_ms(2_999), "r"), TickOutcome::NotDue);
    let key = rate_key("r").unwrap();
    assert_eq!(l.do_tick_keyed(at_ms(2_999), key), None);
    assert_eq!(l.do_tick_fast_keyed(at_ms(3_000), key), None);
    assert_eq!(l.ref_rate("r"), Some(&before));
    assert_eq!(l.ref_stats("r").unwrap().len(), 1);
    assert_eq!(l.tick(at_ms(3_001), "r"), TickOutcome::Fired(Duration::milliseconds(1)));
    assert_eq!(l.ref_stats("r").unwrap().len(), 2);
}
