//! A loop manager with a root rate and any number of named rates.

use vstd::prelude::*;
use ahash::AHashMap;
use crate::clock::Clock;
use crate::duration::Duration;
use crate::duration::MAX_NANOS;
use crate::error::EsperaResult;
use crate::instant::is_instant;
use crate::instant::Instant;
use crate::key::is_identifier;
use crate::key::rate_key;
use crate::key::NAME_MAX_LEN;
use crate::key::sixbit_key;
use crate::rate::Rate;
use crate::rate::RateView;
use crate::stats::low_u64;
use crate::stats::RateStats;
use crate::stats::StatsView;
use crate::table::rate_table;
use crate::table::rates_get;
use crate::table::rates_get_mut;
use crate::table::rates_insert;
use crate::table::rates_keys;
use crate::table::rates_new;
use crate::table::stats_get;
use crate::table::stats_get_mut;
use crate::table::stats_insert;
use crate::table::stats_new;
use crate::table::stats_table;

verus! {

/// The state of the loop: at work, or yielded until the next wake-up.
#[derive(Clone, Copy, Debug, PartialEq, Eq, Structural)]
pub enum LoopStatus {
    Active,
    Asleep,
}

/// What became of showing an instant to a named rate.
#[derive(Clone, Copy, Debug, PartialEq, Eq, Structural)]
pub enum TickOutcome {
    /// A tick fired, this long after the rate's last tick.
    Fired(Duration),
    /// The rate is there, and no tick is due: the target is not reached,
    /// or the clock has not moved on since the rate's last tick.
    NotDue,
    /// A tick is due, and the rate's count of ticks has no room for it.
    CounterFull,
    /// The name has a key, and no rate stands under it.
    UnknownRate,
    /// The name has no key.
    InvalidName,
}

impl TickOutcome {
    /// The time since the rate's last tick, where a tick fired.
    pub fn fired(self) -> (delta: Option<Duration>)
        ensures
            delta == (match self {
                TickOutcome::Fired(delta) => Some(delta),
                _ => None,
            }),
    {
        match self {
            TickOutcome::Fired(delta) => Some(delta),
            _ => None,
        }
    }
}

/// What a [`Looper`] holds.
pub struct LooperView {
    /// The clock that the looper reads.
    pub clock: Clock,
    /// The state of the loop.
    pub status: LoopStatus,
    /// The root rate.
    pub root_rate: RateView,
    /// The statistics of the root rate.
    pub root_stats: StatsView,
    /// The named rates, each under its key.
    pub rates: Map<u128, RateView>,
    /// The statistics of those named rates that have any.
    pub stats: Map<u128, StatsView>,
}

impl LooperView {
    /// The sample that a tick after `elapsed` nanoseconds leaves in the
    /// statistics: the low 64 bits of the count.
    pub open spec fn sample(elapsed: int) -> u64 {
        low_u64(elapsed) as u64
    }

    /// The looper after a measure was taken at `now`: asleep, it wakes, the
    /// root rate counts a tick at `now`, and the time since its last tick
    /// goes into the root statistics, which are updated at the new count;
    /// active, it stays as it is.
    pub open spec fn measured(self, now: int) -> LooperView {
        match self.status {
            LoopStatus::Active => self,
            LoopStatus::Asleep => LooperView {
                status: LoopStatus::Active,
                root_rate: RateView {
                    last_tick: now,
                    ticks: self.root_rate.ticks + 1,
                    ..self.root_rate
                },
                root_stats: self.root_stats.added(
                    LooperView::sample(now - self.root_rate.last_tick),
                ).updated(self.root_rate.ticks + 1),
                ..self
            },
        }
    }

    /// The looper after `rate` was put under `key`: it stands in place of
    /// what was there, and fresh statistics stand beside it if `with_stats`;
    /// if not, the statistics under `key` are as they were.
    pub open spec fn with_rate(self, key: u128, rate: RateView, with_stats: bool) -> LooperView {
        LooperView {
            rates: self.rates.insert(key, rate),
            stats: if with_stats {
                self.stats.insert(key, StatsView::empty())
            } else {
                self.stats
            },
            ..self
        }
    }

    /// The looper after a tick of the rate under `key` has fired at `now`
    /// and left the rate as `ticked`: the time since the rate's last tick
    /// has gone into its statistics, if it has any, and they were updated at
    /// the new count.
    pub open spec fn fired(self, key: u128, now: int, ticked: RateView) -> LooperView {
        LooperView {
            rates: self.rates.insert(key, ticked),
            stats: if self.stats.contains_key(key) {
                self.stats.insert(
                    key,
                    self.stats[key].added(
                        LooperView::sample(now - self.rates[key].last_tick),
                    ).updated(ticked.ticks),
                )
            } else {
                self.stats
            },
            ..self
        }
    }

    /// The looper after `do_tick` was shown `now` for the rate under `key`:
    /// as it was where there is no such rate or no tick is due.
    pub open spec fn after_tick(self, key: u128, now: int) -> LooperView {
        if self.rates.contains_key(key) && self.rates[key].is_due(now) {
            self.fired(key, now, self.rates[key].ticked(now))
        } else {
            self
        }
    }

    /// The looper after `do_tick_fast` was shown `now` for the rate under
    /// `key`: as it was where there is no such rate or no tick is due.
    pub open spec fn after_tick_fast(self, key: u128, now: int) -> LooperView {
        if self.rates.contains_key(key) && self.rates[key].is_due_fast(now) {
            self.fired(key, now, self.rates[key].ticked_fast(now))
        } else {
            self
        }
    }

    /// Whether `do_tick`, shown `now` for a name whose key is `key`, fires a
    /// tick: the name has a key, a rate that can count one more tick stands
    /// under it, and a lag-compensated tick of that rate is due.
    pub open spec fn fires(self, key: Option<u128>, now: int) -> bool {
        &&& key matches Some(k)
        &&& self.rates.contains_key(k)
        &&& self.rates[k].ticks < u64::MAX
        &&& self.rates[k].is_due(now)
    }

    /// Whether `do_tick_fast`, shown `now` for a name whose key is `key`,
    /// fires a tick: as [`LooperView::fires`], with an uncompensated tick.
    pub open spec fn fires_fast(self, key: Option<u128>, now: int) -> bool {
        &&& key matches Some(k)
        &&& self.rates.contains_key(k)
        &&& self.rates[k].ticks < u64::MAX
        &&& self.rates[k].is_due_fast(now)
    }

    /// Whether `outcome` is what becomes of showing `now` to the rate of a
    /// name whose key is `key`, a lag-compensated tick being asked for.
    /// Exactly one outcome is.
    pub open spec fn comes_to(self, key: Option<u128>, now: int, outcome: TickOutcome) -> bool {
        match outcome {
            TickOutcome::InvalidName => key is None,
            TickOutcome::UnknownRate => key matches Some(k) && !self.rates.contains_key(k),
            TickOutcome::NotDue => key matches Some(k) && self.rates.contains_key(k)
                && !self.rates[k].is_due(now),
            TickOutcome::CounterFull => key matches Some(k) && self.rates.contains_key(k)
                && self.rates[k].is_due(now) && self.rates[k].ticks >= u64::MAX,
            TickOutcome::Fired(delta) => self.fires(key, now) && delta@ == now
                - self.rates[key->0].last_tick,
        }
    }

    /// Whether `outcome` is what becomes of showing `now` to the rate of a
    /// name whose key is `key`, an uncompensated tick being asked for.
    /// Exactly one outcome is.
    pub open spec fn comes_to_fast(
        self,
        key: Option<u128>,
        now: int,
        outcome: TickOutcome,
    ) -> bool {
        match outcome {
            TickOutcome::InvalidName => key is None,
            TickOutcome::UnknownRate => key matches Some(k) && !self.rates.contains_key(k),
            TickOutcome::NotDue => key matches Some(k) && self.rates.contains_key(k)
                && !self.rates[k].is_due_fast(now),
            TickOutcome::CounterFull => key matches Some(k) && self.rates.contains_key(k)
                && self.rates[k].is_due_fast(now) && self.rates[k].ticks >= u64::MAX,
            TickOutcome::Fired(delta) => self.fires_fast(key, now) && delta@ == now
                - self.rates[key->0].last_tick,
        }
    }

    /// Whether `do_tick` fires for a name whose key is `key` whatever
    /// instant the clock shows.
    pub open spec fn fires_at_every_instant(self, key: Option<u128>) -> bool {
        forall|now: int| is_instant(now) ==> #[trigger] self.fires(key, now)
    }

    /// Whether `do_tick` does not fire for a name whose key is `key`
    /// whatever instant the clock shows: the name has no key, no rate
    /// stands under it, the rate's count is full, or no tick is due at any
    /// instant.
    pub open spec fn fires_at_no_instant(self, key: Option<u128>) -> bool {
        forall|now: int| is_instant(now) ==> !#[trigger] self.fires(key, now)
    }

    /// Whether `do_tick_fast` fires for a name whose key is `key` whatever
    /// instant the clock shows.
    pub open spec fn fires_fast_at_every_instant(self, key: Option<u128>) -> bool {
        forall|now: int| is_instant(now) ==> #[trigger] self.fires_fast(key, now)
    }

    /// Whether `do_tick_fast` does not fire for a name whose key is `key`
    /// whatever instant the clock shows.
    pub open spec fn fires_fast_at_no_instant(self, key: Option<u128>) -> bool {
        forall|now: int| is_instant(now) ==> !#[trigger] self.fires_fast(key, now)
    }

    /// The looper after `do_tick` was shown `now` for a name whose key is
    /// `key`: changed only where a tick fires.
    pub open spec fn after_named_tick(self, key: Option<u128>, now: int) -> LooperView {
        if self.fires(key, now) {
            self.after_tick(key->0, now)
        } else {
            self
        }
    }

    /// The looper after `do_tick_fast` was shown `now` for a name whose key
    /// is `key`: changed only where a tick fires.
    pub open spec fn after_named_tick_fast(self, key: Option<u128>, now: int) -> LooperView {
        if self.fires_fast(key, now) {
            self.after_tick_fast(key->0, now)
        } else {
            self
        }
    }

    /// Whether `nanos` is the shortest target among the named rates.
    pub open spec fn is_fastest(self, nanos: int) -> bool {
        &&& exists|key: u128| #[trigger]
            self.rates.contains_key(key) && self.rates[key].duration == nanos
        &&& forall|key: u128| #[trigger]
            self.rates.contains_key(key) ==> nanos <= self.rates[key].duration
    }

    /// The looper put to sleep: nothing else changes.
    pub open spec fn asleep(self) -> LooperView {
        LooperView { status: LoopStatus::Asleep, ..self }
    }

    /// The looper after its root was reset at `now`: asleep, the root rate
    /// fresh at `now` with its target kept, the root statistics cleared.
    pub open spec fn root_reset(self, now: int) -> LooperView {
        LooperView {
            status: LoopStatus::Asleep,
            root_rate: RateView::fresh(self.root_rate.duration, now),
            root_stats: self.root_stats.cleared(),
            ..self
        }
    }
}

/// Showing an instant to a named rate comes to one outcome: of two outcomes
/// that both describe what becomes of it, one is of the kind of the other,
/// and where a tick fired both give the same time.
pub proof fn law_one_outcome(
    looper: LooperView,
    key: Option<u128>,
    now: int,
    a: TickOutcome,
    b: TickOutcome,
)
    requires
        looper.comes_to(key, now, a) && looper.comes_to(key, now, b) || looper.comes_to_fast(
            key,
            now,
            a,
        ) && looper.comes_to_fast(key, now, b),
    ensures
        a is Fired <==> b is Fired,
        a is NotDue <==> b is NotDue,
        a is CounterFull <==> b is CounterFull,
        a is UnknownRate <==> b is UnknownRate,
        a is InvalidName <==> b is InvalidName,
        a matches TickOutcome::Fired(x) ==> (b matches TickOutcome::Fired(y) ==> x@ == y@),
{
}

/// Named rates tick each on its own: showing an instant to the rate under
/// one key leaves the rates and the statistics under every other key, the
/// root rate, its statistics and the state of the loop as they were.
pub proof fn law_named_rates_are_independent(looper: LooperView, key: u128, other: u128, now: int)
    requires
        key != other,
    ensures
        looper.after_tick(key, now).rates.contains_key(other) == looper.rates.contains_key(other),
        looper.after_tick(key, now).rates[other] == looper.rates[other],
        looper.after_tick(key, now).stats.contains_key(other) == looper.stats.contains_key(other),
        looper.after_tick(key, now).stats[other] == looper.stats[other],
        looper.after_tick(key, now).root_rate == looper.root_rate,
        looper.after_tick(key, now).root_stats == looper.root_stats,
        looper.after_tick(key, now).status == looper.status,
        looper.after_tick_fast(key, now).rates.contains_key(other) == looper.rates.contains_key(
            other,
        ),
        looper.after_tick_fast(key, now).rates[other] == looper.rates[other],
        looper.after_tick_fast(key, now).stats.contains_key(other) == looper.stats.contains_key(
            other,
        ),
        looper.after_tick_fast(key, now).stats[other] == looper.stats[other],
        looper.after_tick_fast(key, now).root_rate == looper.root_rate,
        looper.after_tick_fast(key, now).root_stats == looper.root_stats,
        looper.after_tick_fast(key, now).status == looper.status,
{
}

/// A rate that was added is found: under its key stands the rate as it was
/// given, with fresh statistics if they were asked for, and what stands
/// under the other keys is as it was.
pub proof fn law_added_rate_is_found(
    looper: LooperView,
    key: u128,
    rate: RateView,
    with_stats: bool,
    other: u128,
)
    requires
        key != other,
    ensures
        looper.with_rate(key, rate, with_stats).rates.contains_key(key),
        looper.with_rate(key, rate, with_stats).rates[key] == rate,
        with_stats ==> looper.with_rate(key, rate, with_stats).stats.contains_key(key)
            && looper.with_rate(key, rate, with_stats).stats[key] == StatsView::empty(),
        looper.with_rate(key, rate, with_stats).rates.contains_key(other)
            == looper.rates.contains_key(other),
        looper.with_rate(key, rate, with_stats).rates[other] == looper.rates[other],
        looper.with_rate(key, rate, with_stats).stats.contains_key(other)
            == looper.stats.contains_key(other),
        looper.with_rate(key, rate, with_stats).stats[other] == looper.stats[other],
{
}

/// Statistics belong to rates: where every key that has statistics has a
/// rate, as in a new looper, that is so after every operation too.
pub proof fn law_statistics_belong_to_rates(
    looper: LooperView,
    key: u128,
    rate: RateView,
    with_stats: bool,
    now: int,
)
    requires
        looper.stats.dom().subset_of(looper.rates.dom()),
    ensures
        looper.with_rate(key, rate, with_stats).stats.dom().subset_of(
            looper.with_rate(key, rate, with_stats).rates.dom(),
        ),
        looper.after_tick(key, now).stats.dom().subset_of(looper.after_tick(key, now).rates.dom()),
        looper.after_tick_fast(key, now).stats.dom().subset_of(
            looper.after_tick_fast(key, now).rates.dom(),
        ),
        looper.measured(now).stats.dom().subset_of(looper.measured(now).rates.dom()),
        looper.root_reset(now).stats.dom().subset_of(looper.root_reset(now).rates.dom()),
        looper.asleep().stats.dom().subset_of(looper.asleep().rates.dom()),
{
}

/// Whether a tick of a named rate fires at every instant, or at none, is
/// told by the first and by the last instant there is: a tick that fires at
/// an instant fires at every later one.
pub proof fn law_fires_at_every_instant_or_none(looper: LooperView, key: Option<u128>)
    ensures
        looper.fires_at_every_instant(key) <==> looper.fires(key, 0),
        looper.fires_at_no_instant(key) <==> !looper.fires(key, MAX_NANOS as int),
        looper.fires_fast_at_every_instant(key) <==> looper.fires_fast(key, 0),
        looper.fires_fast_at_no_instant(key) <==> !looper.fires_fast(key, MAX_NANOS as int),
{
    assert(is_instant(0) && is_instant(MAX_NANOS as int));
}

/// Measure and sleep alternate. A measure wakes the looper, and a second
/// one in a row changes nothing: each wake-up is counted once. A sleep puts
/// it to sleep and leaves everything else alone, so that of two sleeps in a
/// row the second changes nothing. Whatever the looper's state, a sleep and
/// a measure after it count exactly one tick of the root rate.
pub proof fn law_measure_and_sleep_alternate(looper: LooperView, now: int, later: int)
    ensures
        looper.measured(now).status == LoopStatus::Active,
        looper.measured(now).measured(later) == looper.measured(now),
        looper.asleep().status == LoopStatus::Asleep,
        looper.asleep().asleep() == looper.asleep(),
        looper.asleep().measured(now).root_rate.ticks == looper.root_rate.ticks + 1,
        looper.asleep().measured(now).root_rate.last_tick == now,
        looper.asleep().measured(now).rates == looper.rates,
        looper.asleep().measured(now).stats == looper.stats,
{
}

/// A measure counts one wake-up: taken at `now` by a looper that is asleep,
/// it wakes the looper, counts exactly one tick of the root rate and moves
/// its last tick to `now`, puts the time since the root's last tick once
/// into the root statistics and updates them at the new count, and leaves
/// the rest of the root rate, the named rates, their statistics and the
/// clock as they were.
pub proof fn law_measure_counts_one_wake_up(looper: LooperView, now: int)
    requires
        looper.status == LoopStatus::Asleep,
    ensures
        looper.measured(now).status == LoopStatus::Active,
        looper.measured(now).root_rate.ticks == looper.root_rate.ticks + 1,
        looper.measured(now).root_rate.last_tick == now,
        looper.measured(now).root_rate.first_tick == looper.root_rate.first_tick,
        looper.measured(now).root_rate.duration == looper.root_rate.duration,
        looper.measured(now).root_rate.delta_rem == looper.root_rate.delta_rem,
        looper.measured(now).root_stats == looper.root_stats.added(
            LooperView::sample(now - looper.root_rate.last_tick),
        ).updated(looper.root_rate.ticks + 1),
        looper.measured(now).rates == looper.rates,
        looper.measured(now).stats == looper.stats,
        looper.measured(now).clock == looper.clock,
{
}

/// A loop manager: a two-state machine that alternates between one active
/// period and one sleep, with a root rate that counts the wake-ups and a
/// table of named rates, each with statistics of its own if it was given
/// any.
#[derive(Clone, Debug)]
pub struct Looper {
    clock: Clock,
    status: LoopStatus,
    root_rate: Rate,
    root_stats: RateStats,
    rates: AHashMap<u128, Rate>,
    stats: AHashMap<u128, RateStats>,
}

impl View for Looper {
    type V = LooperView;

    closed spec fn view(&self) -> LooperView {
        LooperView {
            clock: self.clock,
            status: self.status,
            root_rate: self.root_rate@,
            root_stats: self.root_stats@,
            rates: rate_table(self.rates),
            stats: stats_table(self.stats),
        }
    }
}

impl Looper {
    /// A looper with a clock of its own, started now: active, with a root
    /// rate without target whose ticks are the present instant, and without
    /// named rates.
    pub fn new() -> (looper: Looper)
        ensures
            looper@.status == LoopStatus::Active,
            looper@.root_rate == RateView::fresh(0, looper@.root_rate.last_tick),
            looper@.root_stats == StatsView::empty(),
            looper@.rates == Map::<u128, RateView>::empty(),
            looper@.stats == Map::<u128, StatsView>::empty(),
    {
        let clock = Clock::new();
        let now = clock.now();
        Looper {
            clock,
            status: LoopStatus::Active,
            root_rate: Rate::new(Duration::zero(), now),
            root_stats: RateStats::new(),
            rates: rates_new(),
            stats: stats_new(),
        }
    }

    /// The clock that this looper reads. Instants shown to the looper and
    /// to its rates are to be instants of this clock.
    pub fn clock(&self) -> (clock: Clock)
        ensures
            clock == self@.clock,
    {
        self.clock
    }

    /// The state of the loop.
    pub fn status(&self) -> (status: LoopStatus)
        ensures
            status == self@.status,
    {
        self.status
    }

    /// Takes a measure at the present instant: see [`Looper::measure_at`].
    /// The instant read is the first of the pair returned.
    pub fn measure(&mut self) -> (r: Option<(Instant, Duration)>)
        requires
            old(self)@.status == LoopStatus::Asleep ==> old(self)@.root_rate.ticks < u64::MAX,
        ensures
            old(self)@.status == LoopStatus::Active ==> r is None && final(self)@ == old(self)@,
            old(self)@.status == LoopStatus::Asleep ==> r is Some,
            r matches Some((now, delta)) ==> delta@ == now@ - old(self)@.root_rate.last_tick
                && final(self)@ == old(self)@.measured(now@),
    {
        let now = self.clock.now();
        self.measure_at(now)
    }

    /// Takes a measure at `now`.
    ///
    /// Asleep, the looper wakes: the root rate counts a tick and takes `now`
    /// as its last, the time since its last tick goes into the root
    /// statistics, which are updated at the new count, and `now` is returned
    /// with that time. Active, nothing changes and `None` is returned: each
    /// wake-up is measured once.
    pub fn measure_at(&mut self, now: Instant) -> (r: Option<(Instant, Duration)>)
        requires
            old(self)@.status == LoopStatus::Asleep ==> old(self)@.root_rate.ticks < u64::MAX,
        ensures
            r is Some <==> old(self)@.status == LoopStatus::Asleep,
            r matches Some((instant, delta)) ==> instant == now && delta@ == now@ - old(
                self,
            )@.root_rate.last_tick,
            final(self)@ == old(self)@.measured(now@),
    {
        match self.status {
            LoopStatus::Asleep => {
                let delta = self.root_rate.last_elapsed(now);
                self.root_rate.set_last_tick(now);
                self.root_rate.increment_ticks();
                self.status = LoopStatus::Active;
                let sample: u64 = crate::stats::truncate_to_u64(delta.whole_nanoseconds());
                self.root_stats.add_ns(sample);
                self.root_stats.update(self.root_rate.ticks());
                Some((now, delta))
            },
            LoopStatus::Active => None,
        }
    }

    /// The present instant and the time since the last measure.
    pub fn now_delta(&self) -> (r: (Instant, Duration))
        ensures
            r.1@ == r.0@ - self@.root_rate.last_tick,
    {
        let now = self.clock.now();
        let delta = self.root_rate.last_elapsed(now);
        (now, delta)
    }

    /// Resets the accumulated times and statistics: those of the root. The
    /// named rates are left as they are.
    pub fn reset(&mut self)
        ensures
            final(self)@ == old(self)@.root_reset(final(self)@.root_rate.last_tick),
    {
        self.reset_root();
    }

    /// Puts the looper to sleep and resets the root rate and its statistics
    /// at the present instant. The named rates are left as they are.
    pub fn reset_root(&mut self)
        ensures
            final(self)@ == old(self)@.root_reset(final(self)@.root_rate.last_tick),
    {
        let now = self.clock.now();
        self.reset_root_at(now);
    }

    /// Puts the looper to sleep and resets the root rate and its statistics
    /// at `now`. The named rates are left as they are.
    pub fn reset_root_at(&mut self, now: Instant)
        ensures
            final(self)@ == old(self)@.root_reset(now@),
    {
        self.status = LoopStatus::Asleep;
        self.root_rate.reset(now);
        self.root_stats.reset();
    }

    /// Asks to sleep for `duration`.
    ///
    /// Active, the looper falls asleep, and the wait that the caller is to
    /// perform is returned: `duration` where it is positive, none where it
    /// is not. Asleep already, nothing changes and there is no wait: a
    /// measure must come before the next sleep.
    pub fn sleep(&mut self, duration: Duration) -> (wait: Option<Duration>)
        ensures
            final(self)@ == old(self)@.asleep(),
            wait == (if old(self)@.status == LoopStatus::Active && duration@ > 0 {
                Some(duration)
            } else {
                None
            }),
    {
        match self.status {
            LoopStatus::Active => {
                self.status = LoopStatus::Asleep;
                if duration.is_positive() {
                    Some(duration)
                } else {
                    None
                }
            },
            LoopStatus::Asleep => None,
        }
    }

    /// The root rate.
    pub fn ref_root_rate(&self) -> (rate: &Rate)
        ensures
            rate@ == self@.root_rate,
    {
        &self.root_rate
    }

    /// The statistics of the root rate.
    pub fn ref_root_stats(&self) -> (stats: &RateStats)
        ensures
            stats@ == self@.root_stats,
    {
        &self.root_stats
    }

    /// The root rate, to be changed in place.
    pub fn mut_root_rate(&mut self) -> (rate: &mut Rate)
        ensures
            rate@ == old(self)@.root_rate,
            final(self)@ == (LooperView { root_rate: final(rate)@, ..old(self)@ }),
    {
        &mut self.root_rate
    }

    /// Adds `rate` under `name`, with statistics of its own if `stats`.
    ///
    /// A rate that stood under that name is replaced and returned. The name
    /// needs a key: at most 21 ASCII letters, digits and underscores always
    /// have one. Where the name has none, nothing changes and the encoder's
    /// reason is returned.
    pub fn add_rate(&mut self, name: &str, rate: Rate, stats: bool) -> (r: EsperaResult<
        Option<Rate>,
    >)
        ensures
            r is Ok <==> sixbit_key(name@) is Some,
            is_identifier(name@) ==> r is Ok,
            name@.len() > NAME_MAX_LEN ==> r is Err,
            r is Err ==> final(self)@ == old(self)@,
            r matches Ok(previous) ==> final(self)@ == old(self)@.with_rate(
                sixbit_key(name@)->0,
                rate@,
                stats,
            ) && (previous is Some <==> old(self)@.rates.contains_key(sixbit_key(name@)->0))
                && (previous matches Some(p) ==> p@ == old(self)@.rates[sixbit_key(name@)->0]),
    {
        match rate_key(name) {
            Ok(key) => Ok(self.add_rate_keyed(key, rate, stats)),
            Err(err) => Err(err),
        }
    }

    /// Adds `rate` under `key`, with statistics of its own if `stats`. A
    /// rate that stood under that key is replaced and returned.
    pub fn add_rate_keyed(&mut self, key: u128, rate: Rate, stats: bool) -> (previous: Option<
        Rate,
    >)
        ensures
            final(self)@ == old(self)@.with_rate(key, rate@, stats),
            previous is Some <==> old(self)@.rates.contains_key(key),
            previous matches Some(p) ==> p@ == old(self)@.rates[key],
    {
        if stats {
            let _ = stats_insert(&mut self.stats, key, RateStats::new());
        }
        rates_insert(&mut self.rates, key, rate)
    }

    /// The rate named `name`, or `None` where the name has no key or no
    /// rate stands under it.
    pub fn ref_rate(&self, name: &str) -> (r: Option<&Rate>)
        ensures
            r is Some <==> sixbit_key(name@) is Some && self@.rates.contains_key(
                sixbit_key(name@)->0,
            ),
            r matches Some(rate) ==> rate@ == self@.rates[sixbit_key(name@)->0],
    {
        match rate_key(name) {
            Ok(key) => self.ref_rate_keyed(key),
            Err(_) => None,
        }
    }

    /// The rate under `key`, if there is one.
    pub fn ref_rate_keyed(&self, key: u128) -> (r: Option<&Rate>)
        ensures
            r is Some <==> self@.rates.contains_key(key),
            r matches Some(rate) ==> rate@ == self@.rates[key],
    {
        rates_get(&self.rates, key)
    }

    /// The statistics of the rate named `name`, or `None` where the name
    /// has no key or the rate under it has no statistics.
    pub fn ref_stats(&self, name: &str) -> (r: Option<&RateStats>)
        ensures
            r is Some <==> sixbit_key(name@) is Some && self@.stats.contains_key(
                sixbit_key(name@)->0,
            ),
            r matches Some(stats) ==> stats@ == self@.stats[sixbit_key(name@)->0],
    {
        match rate_key(name) {
            Ok(key) => self.ref_stats_keyed(key),
            Err(_) => None,
        }
    }

    /// The statistics under `key`, if there are any.
    pub fn ref_stats_keyed(&self, key: u128) -> (r: Option<&RateStats>)
        ensures
            r is Some <==> self@.stats.contains_key(key),
            r matches Some(stats) ==> stats@ == self@.stats[key],
    {
        stats_get(&self.stats, key)
    }

    /// The rate named `name`, to be changed in place, or `None` where the
    /// name has no key or no rate stands under it.
    pub fn mut_rate(&mut self, name: &str) -> (r: Option<&mut Rate>)
        ensures
            r is Some <==> sixbit_key(name@) is Some && old(self)@.rates.contains_key(
                sixbit_key(name@)->0,
            ),
            r matches Some(rate) ==> rate@ == old(self)@.rates[sixbit_key(name@)->0]
                && final(self)@ == (LooperView {
                rates: old(self)@.rates.insert(sixbit_key(name@)->0, final(rate)@),
                ..old(self)@
            }),
            r is None ==> final(self)@ == old(self)@,
    {
        match rate_key(name) {
            Ok(key) => self.mut_rate_keyed(key),
            Err(_) => None,
        }
    }

    /// The rate under `key`, if there is one, to be changed in place.
    pub fn mut_rate_keyed(&mut self, key: u128) -> (r: Option<&mut Rate>)
        ensures
            r is Some <==> old(self)@.rates.contains_key(key),
            r matches Some(rate) ==> rate@ == old(self)@.rates[key] && final(self)@ == (LooperView {
                rates: old(self)@.rates.insert(key, final(rate)@),
                ..old(self)@
            }),
            r is None ==> final(self)@ == old(self)@,
    {
        rates_get_mut(&mut self.rates, key)
    }

    /// Puts the time `delta` of a tick that took the rate under `key` to
    /// `ticks` into the statistics under `key`, if there are any, and
    /// updates them at that count.
    fn record(&mut self, key: u128, delta: Duration, ticks: u64)
        ensures
            final(self)@ == (LooperView {
                stats: if old(self)@.stats.contains_key(key) {
                    old(self)@.stats.insert(
                        key,
                        old(self)@.stats[key].added(LooperView::sample(delta@)).updated(
                            ticks as int,
                        ),
                    )
                } else {
                    old(self)@.stats
                },
                ..old(self)@
            }),
    {
        match stats_get_mut(&mut self.stats, key) {
            Some(stats) => {
                stats.add_ns(crate::stats::truncate_to_u64(delta.whole_nanoseconds()));
                stats.update(ticks);
            },
            None => {},
        }
    }

    /// Shows `now` to the rate named `name` and tells what became of it: a
    /// lag-compensated tick fired (see [`Looper::do_tick_keyed`]), or
    /// nothing changed, for the reason given.
    pub fn tick(&mut self, now: Instant, name: &str) -> (outcome: TickOutcome)
        ensures
            old(self)@.comes_to(sixbit_key(name@), now@, outcome),
            final(self)@ == old(self)@.after_named_tick(sixbit_key(name@), now@),
    {
        let key = match rate_key(name) {
            Ok(key) => key,
            Err(_) => {
                return TickOutcome::InvalidName;
            },
        };
        match rates_get(&self.rates, key) {
            None => TickOutcome::UnknownRate,
            Some(rate) => if !rate.is_due(now) {
                TickOutcome::NotDue
            } else if rate.ticks() == u64::MAX {
                TickOutcome::CounterFull
            } else {
                match self.do_tick_keyed(now, key) {
                    Some(delta) => TickOutcome::Fired(delta),
                    None => TickOutcome::NotDue,
                }
            },
        }
    }

    /// Shows `now` to the rate named `name`: see [`Looper::do_tick_keyed`].
    ///
    /// Returns `None`, and changes nothing, where the name has no key, where
    /// no rate stands under it, where no tick is due, and where the rate's
    /// count of ticks has no room for one more: [`Looper::tick`] tells
    /// which.
    pub fn do_tick(&mut self, now: Instant, name: &str) -> (r: Option<Duration>)
        ensures
            r is Some <==> old(self)@.fires(sixbit_key(name@), now@),
            r matches Some(delta) ==> delta@ == now@ - old(self)@.rates[sixbit_key(
                name@,
            )->0].last_tick,
            final(self)@ == old(self)@.after_named_tick(sixbit_key(name@), now@),
    {
        self.tick(now, name).fired()
    }

    /// Shows `now` to the rate under `key`.
    ///
    /// Where a lag-compensated tick is due (see [`Rate::do_tick`]) it fires:
    /// the time since the rate's last tick is returned and, where the rate
    /// has statistics, goes into them, and they are updated at the rate's
    /// new count. Where there is no rate under `key`, or no tick is due,
    /// nothing changes and `None` is returned.
    pub fn do_tick_keyed(&mut self, now: Instant, key: u128) -> (r: Option<Duration>)
        requires
            old(self)@.rates.contains_key(key) && old(self)@.rates[key].is_due(now@) ==> old(
                self,
            )@.rates[key].ticks < u64::MAX,
        ensures
            r is Some <==> old(self)@.rates.contains_key(key) && old(self)@.rates[key].is_due(now@),
            r matches Some(delta) ==> delta@ == now@ - old(self)@.rates[key].last_tick,
            final(self)@ == old(self)@.after_tick(key, now@),
    {
        let fired = match rates_get_mut(&mut self.rates, key) {
            Some(rate) => match rate.do_tick(now) {
                Some(delta) => Some((delta, rate.ticks())),
                None => None,
            },
            None => None,
        };
        assert(self@.rates == old(self)@.after_tick(key, now@).rates);
        match fired {
            Some((delta, ticks)) => {
                self.record(key, delta, ticks);
                Some(delta)
            },
            None => None,
        }
    }

    /// [`Looper::do_tick`] at the present instant of the looper's clock.
    ///
    /// Which instant that is, the clock decides. A tick that would fire at
    /// every instant fires, and one that would fire at none does not. Where
    /// a tick fired, the instant read is the rate's last tick plus the span
    /// returned, and the looper is as [`Looper::do_tick`] leaves it at that
    /// instant; where none fired, nothing changed.
    pub fn do_tick_now(&mut self, name: &str) -> (r: Option<Duration>)
        ensures
            old(self)@.fires_at_every_instant(sixbit_key(name@)) ==> r is Some,
            old(self)@.fires_at_no_instant(sixbit_key(name@)) ==> r is None,
            r is None ==> final(self)@ == old(self)@,
            r matches Some(delta) ==> is_instant(
                old(self)@.rates[sixbit_key(name@)->0].last_tick + delta@,
            ) && old(self)@.fires(
                sixbit_key(name@),
                old(self)@.rates[sixbit_key(name@)->0].last_tick + delta@,
            ) && final(self)@ == old(self)@.after_named_tick(
                sixbit_key(name@),
                old(self)@.rates[sixbit_key(name@)->0].last_tick + delta@,
            ),
    {
        let now = self.clock.now();
        proof {
            use_type_invariant(&now);
        }
        self.do_tick(now, name)
    }

    /// Shows `now` to the rate named `name` and tells what became of it: an
    /// uncompensated tick fired (see [`Looper::do_tick_fast_keyed`]), or
    /// nothing changed, for the reason given.
    pub fn tick_fast(&mut self, now: Instant, name: &str) -> (outcome: TickOutcome)
        ensures
            old(self)@.comes_to_fast(sixbit_key(name@), now@, outcome),
            final(self)@ == old(self)@.after_named_tick_fast(sixbit_key(name@), now@),
    {
        let key = match rate_key(name) {
            Ok(key) => key,
            Err(_) => {
                return TickOutcome::InvalidName;
            },
        };
        match rates_get(&self.rates, key) {
            None => TickOutcome::UnknownRate,
            Some(rate) => if !rate.is_due_fast(now) {
                TickOutcome::NotDue
            } else if rate.ticks() == u64::MAX {
                TickOutcome::CounterFull
            } else {
                match self.do_tick_fast_keyed(now, key) {
                    Some(delta) => TickOutcome::Fired(delta),
                    None => TickOutcome::NotDue,
                }
            },
        }
    }

    /// Shows `now` to the rate named `name`: see
    /// [`Looper::do_tick_fast_keyed`].
    ///
    /// Returns `None`, and changes nothing, where the name has no key, where
    /// no rate stands under it, where no tick is due, and where the rate's
    /// count of ticks has no room for one more: [`Looper::tick_fast`] tells
    /// which.
    pub fn do_tick_fast(&mut self, now: Instant, name: &str) -> (r: Option<Duration>)
        ensures
            r is Some <==> old(self)@.fires_fast(sixbit_key(name@), now@),
            r matches Some(delta) ==> delta@ == now@ - old(self)@.rates[sixbit_key(
                name@,
            )->0].last_tick,
            final(self)@ == old(self)@.after_named_tick_fast(sixbit_key(name@), now@),
    {
        self.tick_fast(now, name).fired()
    }

    /// Shows `now` to the rate under `key`.
    ///
    /// Where an uncompensated tick is due (see [`Rate::do_tick_fast`]) it
    /// fires: the time since the rate's last tick is returned and, where the
    /// rate has statistics, goes into them, and they are updated at the
    /// rate's new count. Where there is no rate under `key`, or no tick is
    /// due, nothing changes and `None` is returned.
    pub fn do_tick_fast_keyed(&mut self, now: Instant, key: u128) -> (r: Option<Duration>)
        requires
            old(self)@.rates.contains_key(key) && old(self)@.rates[key].is_due_fast(now@) ==> old(
                self,
            )@.rates[key].ticks < u64::MAX,
        ensures
            r is Some <==> old(self)@.rates.contains_key(key) && old(self)@.rates[key].is_due_fast(
                now@,
            ),
            r matches Some(delta) ==> delta@ == now@ - old(self)@.rates[key].last_tick,
            final(self)@ == old(self)@.after_tick_fast(key, now@),
    {
        let fired = match rates_get_mut(&mut self.rates, key) {
            Some(rate) => match rate.do_tick_fast(now) {
                Some(delta) => Some((delta, rate.ticks())),
                None => None,
            },
            None => None,
        };
        assert(self@.rates == old(self)@.after_tick_fast(key, now@).rates);
        match fired {
            Some((delta, ticks)) => {
                self.record(key, delta, ticks);
                Some(delta)
            },
            None => None,
        }
    }

    /// [`Looper::do_tick_fast`] at the present instant of the looper's
    /// clock.
    ///
    /// Which instant that is, the clock decides. A tick that would fire at
    /// every instant fires, and one that would fire at none does not. Where
    /// a tick fired, the instant read is the rate's last tick plus the span
    /// returned, and the looper is as [`Looper::do_tick_fast`] leaves it at
    /// that instant; where none fired, nothing changed.
    pub fn do_tick_fast_now(&mut self, name: &str) -> (r: Option<Duration>)
        ensures
            old(self)@.fires_fast_at_every_instant(sixbit_key(name@)) ==> r is Some,
            old(self)@.fires_fast_at_no_instant(sixbit_key(name@)) ==> r is None,
            r is None ==> final(self)@ == old(self)@,
            r matches Some(delta) ==> is_instant(
                old(self)@.rates[sixbit_key(name@)->0].last_tick + delta@,
            ) && old(self)@.fires_fast(
                sixbit_key(name@),
                old(self)@.rates[sixbit_key(name@)->0].last_tick + delta@,
            ) && final(self)@ == old(self)@.after_named_tick_fast(
                sixbit_key(name@),
                old(self)@.rates[sixbit_key(name@)->0].last_tick + delta@,
            ),
    {
        let now = self.clock.now();
        proof {
            use_type_invariant(&now);
        }
        self.do_tick_fast(now, name)
    }

    /// The shortest target among the named rates, or `None` where there is
    /// no named rate.
    pub fn fastest_rate_duration(&self) -> (r: Option<Duration>)
        ensures
            r is None <==> self@.rates.dom() == Set::<u128>::empty(),
            r matches Some(fastest) ==> self@.is_fastest(fastest@),
    {
        let keys = rates_keys(&self.rates);
        let ghost rates = self@.rates;
        assert(keys@.to_set() == rates.dom());
        let mut fastest: Option<Duration> = None;
        let mut i: usize = 0;
        while i < keys.len()
            invariant
                i <= keys.len(),
                rates == self@.rates,
                keys@.to_set() == rates.dom(),
                fastest is None <==> i == 0,
                fastest matches Some(d) ==> (exists|j: int|
                    0 <= j < i && rates[#[trigger] keys[j]].duration == d@) && (forall|j: int|
                    0 <= j < i ==> d@ <= rates[#[trigger] keys[j]].duration),
            decreases keys.len() - i,
        {
            let key = keys[i];
            assert(keys@.to_set().contains(keys@[i as int]));
            if let Some(rate) = rates_get(&self.rates, key) {
                let target = rate.duration();
                fastest = match fastest {
                    Some(d) => if target.whole_nanoseconds() < d.whole_nanoseconds() {
                        Some(target)
                    } else {
                        Some(d)
                    },
                    None => Some(target),
                };
            }
            i = i + 1;
        }
        proof {
            if keys.len() == 0 {
                assert forall|key: u128| !rates.contains_key(key) by {
                    if rates.contains_key(key) {
                        assert(keys@.to_set().contains(key));
                    }
                }
                assert(rates.dom() =~= Set::<u128>::empty());
            } else {
                assert(keys@.to_set().contains(keys@[0]));
                let d = fastest->0;
                let j = choose|j: int| 0 <= j < i && rates[#[trigger] keys[j]].duration == d@;
                assert(keys@.to_set().contains(keys@[j]));
                assert(rates.contains_key(keys[j]));
                assert forall|key: u128| #[trigger] rates.contains_key(key) implies d@
                    <= rates[key].duration by {
                    assert(keys@.to_set().contains(key));
                    let m = choose|m: int| 0 <= m < keys@.len() && keys@[m] == key;
                    assert(d@ <= rates[keys[m]].duration);
                }
            }
        }
        fastest
    }

    /// The keys of the named rates: each once, in no particular order.
    pub fn rate_keys(&self) -> (keys: Vec<u128>)
        ensures
            keys@.no_duplicates(),
            keys@.to_set() == self@.rates.dom(),
    {
        rates_keys(&self.rates)
    }
}

impl Default for Looper {
    /// A new looper: see [`Looper::new`].
    fn default() -> (looper: Looper)
        ensures
            looper@.status == LoopStatus::Active,
            looper@.root_rate == RateView::fresh(0, looper@.root_rate.last_tick),
            looper@.root_stats == StatsView::empty(),
            looper@.rates == Map::<u128, RateView>::empty(),
            looper@.stats == Map::<u128, StatsView>::empty(),
    {
        Looper::new()
    }
}

} // verus!
