//! One timing cadence: a target duration per tick, with lag compensation.

use vstd::prelude::*;
use crate::clock::Clock;
use crate::duration::is_span;
use crate::duration::Duration;
use crate::duration::MAX_NANOS;
use crate::instant::is_instant;
use crate::instant::Instant;

verus! {

/// The least lag, in nanoseconds, that a rate carries forward.
pub const LAG_MIN: i32 = -2_147_483_648;

/// The most lag, in nanoseconds, that a rate carries forward.
pub const LAG_MAX: i32 = 2_147_483_647;

/// `n` brought into the range from [`LAG_MIN`] to [`LAG_MAX`].
pub open spec fn clamp_lag(n: int) -> int {
    if n < LAG_MIN {
        LAG_MIN as int
    } else if n > LAG_MAX {
        LAG_MAX as int
    } else {
        n
    }
}

/// What a [`Rate`] holds, in nanoseconds and counts.
pub struct RateView {
    /// Target nanoseconds per tick; zero leaves every call due.
    pub duration: int,
    /// The instant of the first tick.
    pub first_tick: int,
    /// The instant of the last tick.
    pub last_tick: int,
    /// Ticks fired since the last reset.
    pub ticks: int,
    /// Accumulated lag, between [`LAG_MIN`] and [`LAG_MAX`].
    pub delta_rem: int,
}

impl RateView {
    /// The rate as it is made or reset at `now`.
    pub open spec fn fresh(duration: int, now: int) -> RateView {
        RateView { duration, first_tick: now, last_tick: now, ticks: 0, delta_rem: 0 }
    }

    /// Whether the clock has moved on since the last tick as far as any tick
    /// asks for: `now` lies after the last tick, or, for a rate without a
    /// positive target, of which every call is due, at the last tick itself.
    /// No tick fires at an instant before the last tick, and with a
    /// positive target none fires at the last tick's own instant.
    pub open spec fn has_moved_on(self, now: int) -> bool {
        now > self.last_tick || (now == self.last_tick && self.duration <= 0)
    }

    /// Whether a tick is due at `now`, the accumulated lag counted in: the
    /// clock has moved on, and the time since the last tick and the lag
    /// together reach the target.
    pub open spec fn is_due(self, now: int) -> bool {
        self.has_moved_on(now) && (now - self.last_tick) + self.delta_rem >= self.duration
    }

    /// Whether a tick is due at `now`, the accumulated lag left aside: the
    /// clock has moved on, and the time since the last tick reaches the
    /// target.
    pub open spec fn is_due_fast(self, now: int) -> bool {
        self.has_moved_on(now) && now - self.last_tick >= self.duration
    }

    /// Whether a tick is due whatever instant the clock shows, the
    /// accumulated lag counted in.
    pub open spec fn is_due_at_every_instant(self) -> bool {
        forall|now: int| is_instant(now) ==> #[trigger] self.is_due(now)
    }

    /// Whether no tick is due whatever instant the clock shows, the
    /// accumulated lag counted in.
    pub open spec fn is_due_at_no_instant(self) -> bool {
        forall|now: int| is_instant(now) ==> !#[trigger] self.is_due(now)
    }

    /// Whether a tick is due whatever instant the clock shows, the
    /// accumulated lag left aside.
    pub open spec fn is_due_fast_at_every_instant(self) -> bool {
        forall|now: int| is_instant(now) ==> #[trigger] self.is_due_fast(now)
    }

    /// Whether no tick is due whatever instant the clock shows, the
    /// accumulated lag left aside.
    pub open spec fn is_due_fast_at_no_instant(self) -> bool {
        forall|now: int| is_instant(now) ==> !#[trigger] self.is_due_fast(now)
    }

    /// The lag carried forward once a tick has fired at `now`: the old lag
    /// plus what this interval ran over or under the target, each clamped.
    pub open spec fn lag_after(self, now: int) -> int {
        clamp_lag(self.delta_rem + clamp_lag((now - self.last_tick) - self.duration))
    }

    /// The rate after a lag-compensated tick has fired at `now`.
    pub open spec fn ticked(self, now: int) -> RateView {
        RateView {
            last_tick: now,
            ticks: self.ticks + 1,
            delta_rem: self.lag_after(now),
            ..self
        }
    }

    /// The rate after an uncompensated tick has fired at `now`.
    pub open spec fn ticked_fast(self, now: int) -> RateView {
        RateView { last_tick: now, ticks: self.ticks + 1, ..self }
    }

    /// The rate after `do_tick` was shown `now`.
    pub open spec fn after_tick(self, now: int) -> RateView {
        if self.is_due(now) {
            self.ticked(now)
        } else {
            self
        }
    }

    /// The rate after `do_tick_fast` was shown `now`.
    pub open spec fn after_tick_fast(self, now: int) -> RateView {
        if self.is_due_fast(now) {
            self.ticked_fast(now)
        } else {
            self
        }
    }

    /// The span of `ticks` ticks at the target duration.
    pub open spec fn span_of(self, ticks: int) -> int {
        self.duration * ticks
    }

    /// The instant at which tick number `tick` falls, counted from the first.
    pub open spec fn instant_of(self, tick: int) -> int {
        self.first_tick + self.duration * tick
    }
}

/// A rate controls a periodic repetition in time.
///
/// It holds the target duration per tick, the instants of the first and of
/// the last tick, the number of ticks fired, and the lag that late or early
/// ticks left behind.
#[derive(Clone, Copy, Debug, PartialEq, Eq, Structural, PartialOrd, Ord)]
pub struct Rate {
    duration: Duration,
    last_tick: Instant,
    first_tick: Instant,
    ticks: u64,
    delta_rem: i32,
}

impl View for Rate {
    type V = RateView;

    closed spec fn view(&self) -> RateView {
        RateView {
            duration: self.duration@,
            first_tick: self.first_tick@,
            last_tick: self.last_tick@,
            ticks: self.ticks as int,
            delta_rem: self.delta_rem as int,
        }
    }
}

impl Rate {
    /// A rate of `duration_per_tick` whose first and last tick are `now`,
    /// with no tick counted and no lag.
    pub fn new(duration_per_tick: Duration, now: Instant) -> (rate: Rate)
        ensures
            rate@ == RateView::fresh(duration_per_tick@, now@),
    {
        Rate {
            duration: duration_per_tick,
            first_tick: now,
            last_tick: now,
            ticks: 0,
            delta_rem: 0,
        }
    }

    /// Forgets the ticks counted and the lag, and moves the first and the
    /// last tick to `now`. The target duration stays.
    pub fn reset(&mut self, now: Instant)
        ensures
            final(self)@ == RateView::fresh(old(self)@.duration, now@),
            final(self)@.ticks == 0,
            final(self)@.delta_rem == 0,
            final(self)@.first_tick == now@,
            final(self)@.last_tick == now@,
    {
        self.ticks = 0;
        self.first_tick = now;
        self.last_tick = now;
        self.delta_rem = 0;
    }

    /// The number of ticks fired since the last reset.
    pub fn ticks(&self) -> (n: u64)
        ensures
            n == self@.ticks,
    {
        self.ticks
    }

    /// Counts one more tick.
    pub fn increment_ticks(&mut self)
        requires
            old(self)@.ticks < u64::MAX,
        ensures
            final(self)@ == (RateView { ticks: old(self)@.ticks + 1, ..old(self)@ }),
    {
        self.ticks = self.ticks + 1;
    }

    /// The instant of the first tick.
    pub fn first_tick(&self) -> (i: Instant)
        ensures
            i@ == self@.first_tick,
    {
        self.first_tick
    }

    /// Moves the first tick to `instant`.
    pub fn set_first_tick(&mut self, instant: Instant)
        ensures
            final(self)@ == (RateView { first_tick: instant@, ..old(self)@ }),
    {
        self.first_tick = instant;
    }

    /// The instant of the last tick.
    pub fn last_tick(&self) -> (i: Instant)
        ensures
            i@ == self@.last_tick,
    {
        self.last_tick
    }

    /// Moves the last tick to `instant`.
    pub fn set_last_tick(&mut self, instant: Instant)
        ensures
            final(self)@ == (RateView { last_tick: instant@, ..old(self)@ }),
    {
        self.last_tick = instant;
    }

    /// The target duration per tick.
    pub fn duration(&self) -> (d: Duration)
        ensures
            d@ == self@.duration,
    {
        self.duration
    }

    /// Sets the target duration per tick.
    pub fn set_duration(&mut self, duration_per_tick: Duration)
        ensures
            final(self)@ == (RateView { duration: duration_per_tick@, ..old(self)@ }),
    {
        self.duration = duration_per_tick;
    }

    /// The lag carried forward, in nanoseconds.
    pub fn delta_rem(&self) -> (n: i32)
        ensures
            n == self@.delta_rem,
    {
        self.delta_rem
    }

    /// Whether the clock has moved on since the last tick as far as any tick
    /// asks for: `instant` lies after the last tick, or, for a rate without
    /// a positive target, at the last tick itself.
    pub fn has_moved_on(&self, instant: Instant) -> (moved: bool)
        ensures
            moved == self@.has_moved_on(instant@),
    {
        let elapsed: i128 = self.last_elapsed(instant).whole_nanoseconds();
        elapsed > 0 || (elapsed == 0 && self.duration.whole_nanoseconds() <= 0)
    }

    /// Whether a tick is due at `instant`, the accumulated lag counted in:
    /// whether the clock has moved on since the last tick, and the time
    /// since then and the lag together reach the target. However much lag
    /// there is, no tick is due at an instant before the last tick, nor,
    /// with a positive target, at the last tick's own instant.
    pub fn is_due(&self, instant: Instant) -> (due: bool)
        ensures
            due == self@.is_due(instant@),
    {
        if !self.has_moved_on(instant) {
            return false;
        }
        let elapsed: i128 = self.last_elapsed(instant).whole_nanoseconds();
        elapsed + self.delta_rem as i128 >= self.duration.whole_nanoseconds()
    }

    /// Whether a tick is due at `instant`, the accumulated lag left aside:
    /// whether the clock has moved on since the last tick, and the time
    /// since then reaches the target.
    pub fn is_due_fast(&self, instant: Instant) -> (due: bool)
        ensures
            due == self@.is_due_fast(instant@),
    {
        if !self.has_moved_on(instant) {
            return false;
        }
        self.last_elapsed(instant).whole_nanoseconds() >= self.duration.whole_nanoseconds()
    }

    /// Fires a tick at `instant` if one is due, the accumulated lag counted
    /// in, and returns the time since the last tick; returns `None`, and
    /// changes nothing, if none is due.
    ///
    /// A tick is due where the clock has moved on since the last tick and
    /// the time since then and the lag together reach the target. A clock
    /// that went back fires nothing, however much lag there is; a clock
    /// that stands still fires only a rate without a positive target, of
    /// which every call is due.
    ///
    /// A tick that fires adds what its interval ran over or under the target
    /// to the lag, counts one more tick and moves the last tick to `instant`.
    /// The lag is kept between [`LAG_MIN`] and [`LAG_MAX`].
    pub fn do_tick(&mut self, instant: Instant) -> (r: Option<Duration>)
        requires
            old(self)@.is_due(instant@) ==> old(self)@.ticks < u64::MAX,
        ensures
            r is Some <==> old(self)@.is_due(instant@),
            r matches Some(delta) ==> delta@ == instant@ - old(self)@.last_tick,
            r is None ==> final(self)@ == old(self)@,
            final(self)@ == old(self)@.after_tick(instant@),
    {
        let delta = self.last_elapsed(instant);
        if self.is_due(instant) {
            let lag: i32 = clamp_to_lag(
                delta.whole_nanoseconds() - self.duration.whole_nanoseconds(),
            );
            self.delta_rem = clamp_to_lag(self.delta_rem as i128 + lag as i128);
            self.increment_ticks();
            self.set_last_tick(instant);
            Some(delta)
        } else {
            None
        }
    }

    /// [`Rate::do_tick`] at the instant that `clock` shows.
    ///
    /// Which instant that is, the clock decides. A rate that is due at every
    /// instant fires, and one that is due at none does not. Where a tick
    /// fired, the instant shown is the last tick plus the span returned, and
    /// the rate is as [`Rate::do_tick`] leaves it at that instant; where
    /// none fired, nothing changed.
    pub fn do_tick_now(&mut self, clock: &Clock) -> (r: Option<Duration>)
        requires
            old(self)@.ticks < u64::MAX,
        ensures
            old(self)@.is_due_at_every_instant() ==> r is Some,
            old(self)@.is_due_at_no_instant() ==> r is None,
            r matches Some(delta) ==> is_instant(old(self)@.last_tick + delta@) && old(
                self,
            )@.is_due(old(self)@.last_tick + delta@) && final(self)@ == old(self)@.ticked(
                old(self)@.last_tick + delta@,
            ),
            r is None ==> final(self)@ == old(self)@,
    {
        let now = clock.now();
        proof {
            use_type_invariant(&now);
        }
        self.do_tick(now)
    }

    /// Fires a tick at `instant` if the time since the last tick has reached
    /// the target, and returns that time; returns `None`, and changes
    /// nothing, if it has not.
    ///
    /// A clock that went back fires nothing; a clock that stands still
    /// fires only a rate without a positive target. The lag is neither read
    /// nor changed: under jitter the rate falls behind its target.
    pub fn do_tick_fast(&mut self, instant: Instant) -> (r: Option<Duration>)
        requires
            old(self)@.is_due_fast(instant@) ==> old(self)@.ticks < u64::MAX,
        ensures
            r is Some <==> old(self)@.is_due_fast(instant@),
            r matches Some(delta) ==> delta@ == instant@ - old(self)@.last_tick,
            r is None ==> final(self)@ == old(self)@,
            final(self)@ == old(self)@.after_tick_fast(instant@),
    {
        let delta = self.last_elapsed(instant);
        if self.is_due_fast(instant) {
            self.increment_ticks();
            self.set_last_tick(instant);
            Some(delta)
        } else {
            None
        }
    }

    /// [`Rate::do_tick_fast`] at the instant that `clock` shows.
    ///
    /// Which instant that is, the clock decides. A rate that is due at every
    /// instant fires, and one that is due at none does not. Where a tick
    /// fired, the instant shown is the last tick plus the span returned, and
    /// the rate is as [`Rate::do_tick_fast`] leaves it at that instant;
    /// where none fired, nothing changed.
    pub fn do_tick_fast_now(&mut self, clock: &Clock) -> (r: Option<Duration>)
        requires
            old(self)@.ticks < u64::MAX,
        ensures
            old(self)@.is_due_fast_at_every_instant() ==> r is Some,
            old(self)@.is_due_fast_at_no_instant() ==> r is None,
            r matches Some(delta) ==> is_instant(old(self)@.last_tick + delta@) && old(
                self,
            )@.is_due_fast(old(self)@.last_tick + delta@) && final(self)@ == old(
                self,
            )@.ticked_fast(old(self)@.last_tick + delta@),
            r is None ==> final(self)@ == old(self)@,
    {
        let now = clock.now();
        proof {
            use_type_invariant(&now);
        }
        self.do_tick_fast(now)
    }

    /// The time from the first tick to `instant`.
    pub fn first_elapsed(&self, instant: Instant) -> (d: Duration)
        ensures
            d@ == instant@ - self@.first_tick,
    {
        instant.duration_since(self.first_tick)
    }

    /// The time from the last tick to `instant`.
    pub fn last_elapsed(&self, instant: Instant) -> (d: Duration)
        ensures
            d@ == instant@ - self@.last_tick,
    {
        instant.duration_since(self.last_tick)
    }

    /// The time from tick number `tick` to `instant`; negative while that
    /// tick lies ahead. The tick's instant must be one that can be held.
    pub fn tick_elapsed(&self, tick: u64, instant: Instant) -> (d: Duration)
        requires
            is_instant(self@.instant_of(tick as int)),
        ensures
            d@ == instant@ - self@.instant_of(tick as int),
    {
        instant.duration_since(self.instant_tick(tick))
    }

    /// The span of `ticks` ticks at the target duration, which a
    /// [`Duration`] must be able to hold.
    pub fn duration_ticks(&self, ticks: u64) -> (d: Duration)
        requires
            is_span(self@.span_of(ticks as int)),
        ensures
            d@ == self@.span_of(ticks as int),
    {
        Duration::nanoseconds_i128(self.duration.whole_nanoseconds() * (ticks as i128))
    }

    /// The span of `ticks` ticks at the target duration, or `None` where no
    /// [`Duration`] can hold it.
    pub fn duration_ticks_checked(&self, ticks: u64) -> (r: Option<Duration>)
        ensures
            r is Some <==> is_span(self@.span_of(ticks as int)),
            r matches Some(d) ==> d@ == self@.span_of(ticks as int),
    {
        self.duration.checked_mul(ticks)
    }

    /// The instant at which tick number `tick` falls: the first tick plus
    /// `tick` target durations. It must be one that can be held.
    pub fn instant_tick(&self, tick: u64) -> (i: Instant)
        requires
            is_instant(self@.instant_of(tick as int)),
        ensures
            i@ == self@.instant_of(tick as int),
    {
        proof {
            use_type_invariant(&self.first_tick);
        }
        self.first_tick.plus(self.duration_ticks(tick))
    }

    /// The instant at which tick number `tick` falls, or `None` where no
    /// instant can hold it.
    pub fn instant_tick_checked(&self, tick: u64) -> (r: Option<Instant>)
        ensures
            r is Some <==> is_instant(self@.instant_of(tick as int)),
            r matches Some(i) ==> i@ == self@.instant_of(tick as int),
    {
        proof {
            use_type_invariant(&self.first_tick);
        }
        match self.duration_ticks_checked(tick) {
            Some(span) => self.first_tick.checked_add(span),
            None => None,
        }
    }
}

/// The rate `v` after `n` calls of `do_tick`, each shown the instant that lies
/// exactly one target duration after the last tick.
pub open spec fn after_steady_ticks(v: RateView, n: nat) -> RateView
    decreases n,
{
    if n == 0 {
        v
    } else {
        let before = after_steady_ticks(v, (n - 1) as nat);
        before.after_tick(before.last_tick + v.duration)
    }
}

/// A tick on time: a rate without lag that is shown the instant exactly one
/// target duration after its last tick fires, returns that duration as the
/// time since the last tick, counts exactly one tick, takes the instant as
/// its last tick and stays without lag, so that the same holds of the next
/// call one target duration later. The target is a span of time that
/// passes: it is not negative.
pub proof fn law_tick_on_time(v: RateView, now: int)
    requires
        v.duration >= 0,
        v.delta_rem == 0,
        now == v.last_tick + v.duration,
    ensures
        v.is_due(now),
        now - v.last_tick == v.duration,
        v.after_tick(now).ticks == v.ticks + 1,
        v.after_tick(now).last_tick == now,
        v.after_tick(now).delta_rem == 0,
        v.after_tick(now).duration == v.duration,
        v.after_tick(now).first_tick == v.first_tick,
{
}

/// A steady cadence: a rate without lag that is shown, call after call, the
/// instant exactly one target duration after its last tick fires every time,
/// counts exactly one tick per call and stays without lag. The target is a
/// span of time that passes: it is not negative.
pub proof fn law_steady_cadence(v: RateView, n: nat)
    requires
        v.duration >= 0,
        v.delta_rem == 0,
    ensures
        after_steady_ticks(v, n).ticks == v.ticks + n,
        after_steady_ticks(v, n).delta_rem == 0,
        after_steady_ticks(v, n).last_tick == v.last_tick + n * v.duration,
        after_steady_ticks(v, n).duration == v.duration,
        after_steady_ticks(v, n).first_tick == v.first_tick,
        after_steady_ticks(v, n).is_due(after_steady_ticks(v, n).last_tick + v.duration),
    decreases n,
{
    if n > 0 {
        law_steady_cadence(v, (n - 1) as nat);
        assert((n - 1) * v.duration + v.duration == n * v.duration) by (nonlinear_arith);
    }
}

/// Whether a tick is due at every instant, or at none, is told by the first
/// and by the last instant there is: a tick that is due at an instant is
/// due at every later one.
pub proof fn law_due_at_every_instant_or_none(v: RateView)
    ensures
        v.is_due_at_every_instant() <==> v.is_due(0),
        v.is_due_at_no_instant() <==> !v.is_due(MAX_NANOS as int),
        v.is_due_fast_at_every_instant() <==> v.is_due_fast(0),
        v.is_due_fast_at_no_instant() <==> !v.is_due_fast(MAX_NANOS as int),
{
    assert(is_instant(0) && is_instant(MAX_NANOS as int));
}

/// A call never takes a tick back: the count after `do_tick` or
/// `do_tick_fast` is the count before, or one more.
pub proof fn law_ticks_never_decrease(v: RateView, now: int)
    ensures
        v.after_tick(now).ticks == v.ticks || v.after_tick(now).ticks == v.ticks + 1,
        v.after_tick_fast(now).ticks == v.ticks || v.after_tick_fast(now).ticks == v.ticks + 1,
{
}

/// The lag stays in its range: a rate whose lag lies between [`LAG_MIN`] and
/// [`LAG_MAX`] has it there after `do_tick` too, whatever instant it is shown.
pub proof fn law_lag_stays_clamped(v: RateView, now: int)
    requires
        LAG_MIN <= v.delta_rem <= LAG_MAX,
    ensures
        LAG_MIN <= v.after_tick(now).delta_rem <= LAG_MAX,
{
}

/// Lag is used up but never owed: a rate whose lag is not negative has, after
/// `do_tick`, a lag that is not negative either. A tick fires only where the
/// interval and the lag together reach the target, so what the interval fell
/// short by is never more than the lag that was there.
pub proof fn law_lag_is_never_owed(v: RateView, now: int)
    requires
        0 <= v.delta_rem <= LAG_MAX,
    ensures
        0 <= v.after_tick(now).delta_rem <= LAG_MAX,
{
}

/// A clock that stands still or goes back fires nothing and spoils nothing,
/// however much lag there is: shown an instant before its last tick, a rate
/// is left as it was by `do_tick` and by `do_tick_fast`, its count, its last
/// tick and its lag with it; and so is a rate with a positive target that
/// is shown the instant of its last tick.
pub proof fn law_backward_clock_is_ignored(v: RateView, now: int)
    requires
        now < v.last_tick || (now == v.last_tick && v.duration > 0),
    ensures
        !v.is_due(now),
        !v.is_due_fast(now),
        v.after_tick(now) == v,
        v.after_tick_fast(now) == v,
{
}

/// Only a rate without a positive target, of which every call is due, fires
/// at the instant of its last tick: there it fires where its lag is not
/// below its target, and the fast tick fires always.
pub proof fn law_unconstrained_rate_fires_at_once(v: RateView)
    requires
        v.duration <= 0,
    ensures
        v.is_due(v.last_tick) <==> v.delta_rem >= v.duration,
        v.is_due_fast(v.last_tick),
{
}

/// The last tick is never rewound: whatever the target and the lag, and
/// whatever instant is shown, the last tick after `do_tick` or
/// `do_tick_fast` is not before the last tick that was.
pub proof fn law_last_tick_moves_forward(v: RateView, now: int)
    ensures
        v.after_tick(now).last_tick >= v.last_tick,
        v.after_tick_fast(now).last_tick >= v.last_tick,
{
}

/// `n` as a lag, brought into the range that a rate carries.
fn clamp_to_lag(n: i128) -> (lag: i32)
    ensures
        lag == clamp_lag(n as int),
{
    if n < LAG_MIN as i128 {
        LAG_MIN
    } else if n > LAG_MAX as i128 {
        LAG_MAX
    } else {
        n as i32
    }
}

} // verus!
