//! Windowed statistics of the time between ticks.

use vstd::prelude::*;
use arraydeque::ArrayDeque;
use arraydeque::Wrapping;
use crate::duration::Duration;

verus! {

/// The number of samples that the statistics keep: the widest window.
pub const RING_CAPACITY: usize = 1024;

/// The ring of the most recent samples, oldest first: an
/// `arraydeque::ArrayDeque` of 1024 `u64` that wraps.
#[derive(Debug)]
#[verifier::external_body]
pub struct SampleRing {
    inner: ArrayDeque<[u64; 1024], Wrapping>,
}

/// The samples that a ring holds, oldest first.
pub uninterp spec fn ring_samples(ring: SampleRing) -> Seq<u64>;

/// The samples after one more was pushed at the back: where the ring was
/// full, the oldest has left.
pub open spec fn pushed(samples: Seq<u64>, sample: u64) -> Seq<u64> {
    if samples.len() < RING_CAPACITY {
        samples.push(sample)
    } else {
        samples.skip(1).push(sample)
    }
}

/// `ArrayDeque::clone`: a ring of the same samples in the same order.
#[verifier::external_body]
fn ring_clone(ring: &SampleRing) -> (copy: SampleRing)
    ensures
        ring_samples(copy) == ring_samples(*ring),
{
    SampleRing { inner: ring.inner.clone() }
}

/// An empty ring, by `ArrayDeque::new`.
#[verifier::external_body]
fn ring_new() -> (ring: SampleRing)
    ensures
        ring_samples(ring) == Seq::<u64>::empty(),
{
    SampleRing { inner: ArrayDeque::new() }
}

/// `ArrayDeque::push_back` with the wrapping behaviour: the sample goes to
/// the back, and where the ring already held its 1024 the front one is
/// popped first. The call does not panic.
#[verifier::external_body]
fn ring_push_back(ring: &mut SampleRing, sample: u64)
    ensures
        ring_samples(*final(ring)) == pushed(ring_samples(*old(ring)), sample),
    no_unwind
{
    ring.inner.push_back(sample);
}

/// `ArrayDeque::len`: the number of samples held.
#[verifier::external_body]
fn ring_len(ring: &SampleRing) -> (n: usize)
    ensures
        n == ring_samples(*ring).len(),
{
    ring.inner.len()
}

/// `ArrayDeque::get`: the sample at `index`, counted from the front, or
/// `None` at or beyond the length.
#[verifier::external_body]
fn ring_get(ring: &SampleRing, index: usize) -> (r: Option<u64>)
    ensures
        r == (if index < ring_samples(*ring).len() {
            Some(ring_samples(*ring)[index as int])
        } else {
            None
        }),
{
    ring.inner.get(index).copied()
}

/// The ring keeps to its capacity: one more sample never takes it beyond
/// [`RING_CAPACITY`], and is then the newest.
pub proof fn law_ring_keeps_capacity(samples: Seq<u64>, sample: u64)
    requires
        samples.len() <= RING_CAPACITY,
    ensures
        pushed(samples, sample).len() <= RING_CAPACITY,
        pushed(samples, sample).last() == sample,
        samples.len() < RING_CAPACITY ==> pushed(samples, sample).len() == samples.len() + 1,
        samples.len() == RING_CAPACITY ==> pushed(samples, sample).len() == RING_CAPACITY,
{
}

/// The sum of the last `window` samples; samples that are not there count
/// as zero.
pub open spec fn tail_sum(samples: Seq<u64>, window: nat) -> int
    decreases window,
{
    if window == 0 || samples.len() == 0 {
        0
    } else {
        samples.last() + tail_sum(samples.drop_last(), (window - 1) as nat)
    }
}

/// The greatest of the last `window` samples, or zero where there is none.
pub open spec fn tail_max(samples: Seq<u64>, window: nat) -> int
    decreases window,
{
    if window == 0 || samples.len() == 0 {
        0
    } else {
        let rest = tail_max(samples.drop_last(), (window - 1) as nat);
        if samples.last() > rest {
            samples.last() as int
        } else {
            rest
        }
    }
}

/// A window does not look past its size: the sum and the maximum of the
/// last `window` samples are those of the samples without the oldest, where
/// more than `window` samples are there.
proof fn lemma_window_ignores_the_oldest(samples: Seq<u64>, window: nat)
    requires
        window < samples.len(),
    ensures
        tail_sum(samples.skip(1), window) == tail_sum(samples, window),
        tail_max(samples.skip(1), window) == tail_max(samples, window),
    decreases window,
{
    if window > 0 {
        assert(samples.skip(1).last() == samples.last());
        assert(samples.skip(1).drop_last() == samples.drop_last().skip(1));
        lemma_window_ignores_the_oldest(samples.drop_last(), (window - 1) as nat);
    }
}

/// A window holds the newest sample: after one more sample was added, the
/// sum of the last `window` samples is the new sample plus the sum of the
/// `window - 1` samples that were last before, and its maximum the greater
/// of the new sample and their maximum. What left the ring when it was full
/// is beyond every window.
pub proof fn law_window_holds_the_newest(samples: Seq<u64>, sample: u64, window: nat)
    requires
        samples.len() <= RING_CAPACITY,
        1 <= window <= RING_CAPACITY,
    ensures
        tail_sum(pushed(samples, sample), window) == sample + tail_sum(
            samples,
            (window - 1) as nat,
        ),
        tail_max(pushed(samples, sample), window) == (if sample > tail_max(
            samples,
            (window - 1) as nat,
        ) {
            sample as int
        } else {
            tail_max(samples, (window - 1) as nat)
        }),
{
    if samples.len() < RING_CAPACITY {
        assert(samples.push(sample).drop_last() == samples);
    } else {
        assert(samples.skip(1).push(sample).drop_last() == samples.skip(1));
        lemma_window_ignores_the_oldest(samples, (window - 1) as nat);
    }
}

/// The mean of a window is not above its maximum: the sum of the last
/// `window` samples is at most `window` times the greatest of them.
pub proof fn law_mean_is_at_most_the_maximum(samples: Seq<u64>, window: nat)
    ensures
        0 <= tail_sum(samples, window) <= window * tail_max(samples, window),
        0 <= tail_max(samples, window) <= u64::MAX,
    decreases window,
{
    if window > 0 && samples.len() > 0 {
        let rest = (window - 1) as nat;
        law_mean_is_at_most_the_maximum(samples.drop_last(), rest);
        let top = tail_max(samples, window);
        assert(rest * tail_max(samples.drop_last(), rest) <= rest * top) by (nonlinear_arith)
            requires
                0 <= tail_max(samples.drop_last(), rest) <= top,
        ;
        assert(rest * top + top == window * top) by (nonlinear_arith)
            requires
                rest + 1 == window,
        ;
    } else {
        assert(window * tail_max(samples, window) == 0) by (nonlinear_arith)
            requires
                tail_max(samples, window) == 0,
        ;
    }
}

/// The low 64 bits of `n`: what is left of a count of nanoseconds that is
/// kept in a `u64`.
pub open spec fn low_u64(n: int) -> int {
    n % 0x1_0000_0000_0000_0000
}

/// The sample that a span of `nanos` nanoseconds leaves: zero for a span
/// that is not positive, else its low 64 bits.
pub open spec fn sample_of(nanos: int) -> int {
    if nanos <= 0 {
        0
    } else {
        low_u64(nanos)
    }
}

/// What a [`RateStats`] holds.
pub struct StatsView {
    /// The samples kept, oldest first; never more than [`RING_CAPACITY`].
    pub samples: Seq<u64>,
    /// The sum of the 16-sample window, as last recomputed.
    pub sum_16: int,
    /// The sum of the 128-sample window, as last recomputed.
    pub sum_128: int,
    /// The sum of the 1024-sample window, as last recomputed.
    pub sum_1024: int,
    /// The maximum of the 16-sample window, as last recomputed.
    pub max_ns_16: int,
    /// The maximum of the 128-sample window, as last recomputed.
    pub max_ns_128: int,
    /// The maximum of the 1024-sample window, as last recomputed.
    pub max_ns_1024: int,
}

impl StatsView {
    /// Statistics with no sample and nothing computed.
    pub open spec fn empty() -> StatsView {
        StatsView {
            samples: Seq::empty(),
            sum_16: 0,
            sum_128: 0,
            sum_1024: 0,
            max_ns_16: 0,
            max_ns_128: 0,
            max_ns_1024: 0,
        }
    }

    /// The statistics after `sample` was added: only the samples change.
    pub open spec fn added(self, sample: u64) -> StatsView {
        StatsView { samples: pushed(self.samples, sample), ..self }
    }

    /// The statistics after an update at `tick_count`: each window whose
    /// size divides the count is recomputed from the samples, the others
    /// stay as they were.
    pub open spec fn updated(self, tick_count: int) -> StatsView {
        StatsView {
            samples: self.samples,
            sum_16: if tick_count % 16 == 0 {
                tail_sum(self.samples, 16)
            } else {
                self.sum_16
            },
            sum_128: if tick_count % 128 == 0 {
                tail_sum(self.samples, 128)
            } else {
                self.sum_128
            },
            sum_1024: if tick_count % 1024 == 0 {
                tail_sum(self.samples, 1024)
            } else {
                self.sum_1024
            },
            max_ns_16: if tick_count % 16 == 0 {
                tail_max(self.samples, 16)
            } else {
                self.max_ns_16
            },
            max_ns_128: if tick_count % 128 == 0 {
                tail_max(self.samples, 128)
            } else {
                self.max_ns_128
            },
            max_ns_1024: if tick_count % 1024 == 0 {
                tail_max(self.samples, 1024)
            } else {
                self.max_ns_1024
            },
        }
    }

    /// The statistics after a reset: the sums and the maxima of the two
    /// wider windows are zero; the samples and the maximum of the narrowest
    /// window stay.
    pub open spec fn cleared(self) -> StatsView {
        StatsView { sum_16: 0, sum_128: 0, sum_1024: 0, max_ns_128: 0, max_ns_1024: 0, ..self }
    }
}

/// Statistics for one rate: the most recent samples of the time between
/// ticks, and the sum and maximum of the last 16, 128 and 1024 of them.
///
/// The rolling average of a window is its sum divided by its size. Sum and
/// maximum of a window are recomputed only by an [`RateStats::update`] whose
/// tick count the window's size divides, and are stale in between.
#[derive(Debug)]
pub struct RateStats {
    ring: SampleRing,
    sum_16: u128,
    sum_128: u128,
    sum_1024: u128,
    max_ns_16: u64,
    max_ns_128: u64,
    max_ns_1024: u64,
}

impl View for RateStats {
    type V = StatsView;

    closed spec fn view(&self) -> StatsView {
        StatsView {
            samples: ring_samples(self.ring),
            sum_16: self.sum_16 as int,
            sum_128: self.sum_128 as int,
            sum_1024: self.sum_1024 as int,
            max_ns_16: self.max_ns_16 as int,
            max_ns_128: self.max_ns_128 as int,
            max_ns_1024: self.max_ns_1024 as int,
        }
    }
}

impl RateStats {
    /// What holds of all statistics: the ring is not over its capacity.
    #[verifier::type_invariant]
    pub open spec fn within_capacity(self) -> bool {
        self@.samples.len() <= RING_CAPACITY
    }

    /// Statistics with no sample and nothing computed.
    pub fn new() -> (stats: RateStats)
        ensures
            stats@ == StatsView::empty(),
    {
        RateStats {
            ring: ring_new(),
            sum_16: 0,
            sum_128: 0,
            sum_1024: 0,
            max_ns_16: 0,
            max_ns_128: 0,
            max_ns_1024: 0,
        }
    }

    /// Adds the time `duration` as a sample: zero where it is not positive,
    /// else its nanoseconds, of which a `u64` keeps the low 64 bits. Where
    /// the ring is full the oldest sample leaves. Nothing is recomputed.
    pub fn add(&mut self, duration: Duration)
        ensures
            final(self)@ == old(self)@.added(sample_of(duration@) as u64),
    {
        let nanos: i128 = duration.whole_nanoseconds();
        let sample: u64 = if nanos <= 0 {
            0
        } else {
            truncate_to_u64(nanos)
        };
        self.add_ns(sample);
    }

    /// Adds `nanoseconds` as a sample. Where the ring is full the oldest
    /// sample leaves. Nothing is recomputed.
    pub fn add_ns(&mut self, nanoseconds: u64)
        ensures
            final(self)@ == old(self)@.added(nanoseconds),
    {
        proof {
            use_type_invariant(&*self);
        }
        ring_push_back(&mut self.ring, nanoseconds);
    }

    /// Sum and maximum of the last `window` samples, read from the newest
    /// backward.
    fn scan(&self, window: usize) -> (r: (u128, u64))
        requires
            window <= RING_CAPACITY,
        ensures
            r.0 == tail_sum(self@.samples, window as nat),
            r.1 == tail_max(self@.samples, window as nat),
    {
        let len = ring_len(&self.ring);
        let ghost samples = self@.samples;
        let mut sum: u128 = 0;
        let mut max: u64 = 0;
        let mut k: usize = 0;
        assert(samples.take(len as int) == samples);
        while k < window && k < len
            invariant
                window <= RING_CAPACITY,
                samples == ring_samples(self.ring),
                len == samples.len(),
                k <= window,
                k <= len,
                sum <= k * u64::MAX,
                sum + tail_sum(samples.take(len - k), (window - k) as nat) == tail_sum(
                    samples,
                    window as nat,
                ),
                tail_max(samples, window as nat) == (if max > tail_max(
                    samples.take(len - k),
                    (window - k) as nat,
                ) {
                    max as int
                } else {
                    tail_max(samples.take(len - k), (window - k) as nat)
                }),
            decreases window - k,
        {
            let sample = match ring_get(&self.ring, len - 1 - k) {
                Some(sample) => sample,
                None => 0,
            };
            proof {
                let rest = samples.take(len - k);
                assert(rest.last() == sample);
                assert(rest.drop_last() == samples.take(len - k - 1));
                assert(sum + sample <= (k + 1) * u64::MAX) by (nonlinear_arith)
                    requires
                        sum <= k * u64::MAX,
                        sample <= u64::MAX,
                ;
            }
            sum = sum + sample as u128;
            if sample > max {
                max = sample;
            }
            k = k + 1;
        }
        (sum, max)
    }

    /// Recomputes, for each window size among 16, 128 and 1024 that divides
    /// `tick_count`, the sum and the maximum of that window from the most
    /// recent samples. A window that holds fewer samples than its size
    /// counts the missing ones as zero. The other windows stay as they were.
    pub fn update(&mut self, tick_count: u64)
        ensures
            final(self)@ == old(self)@.updated(tick_count as int),
            tick_count % 16 != 0 ==> final(self)@ == old(self)@,
    {
        proof {
            use_type_invariant(&*self);
        }
        if tick_count % 16 == 0 {
            let (sum, max) = self.scan(16);
            self.sum_16 = sum;
            self.max_ns_16 = max;
        }
        if tick_count % 128 == 0 {
            let (sum, max) = self.scan(128);
            self.sum_128 = sum;
            self.max_ns_128 = max;
        }
        if tick_count % 1024 == 0 {
            let (sum, max) = self.scan(1024);
            self.sum_1024 = sum;
            self.max_ns_1024 = max;
        }
    }

    /// Zeroes the three sums and the maxima of the 128- and 1024-sample
    /// windows. The samples stay, and so does the maximum of the 16-sample
    /// window.
    pub fn reset(&mut self)
        ensures
            final(self)@ == old(self)@.cleared(),
    {
        proof {
            use_type_invariant(&*self);
        }
        self.sum_16 = 0;
        self.sum_128 = 0;
        self.sum_1024 = 0;
        self.max_ns_128 = 0;
        self.max_ns_1024 = 0;
    }

    /// The number of samples held: at most [`RING_CAPACITY`].
    pub fn len(&self) -> (n: usize)
        ensures
            n == self@.samples.len(),
            n <= RING_CAPACITY,
    {
        proof {
            use_type_invariant(self);
        }
        ring_len(&self.ring)
    }

    /// The sum of the 16-sample window, in nanoseconds, as last recomputed.
    pub fn sum_16(&self) -> (n: u128)
        ensures
            n == self@.sum_16,
    {
        self.sum_16
    }

    /// The sum of the 128-sample window, in nanoseconds, as last recomputed.
    pub fn sum_128(&self) -> (n: u128)
        ensures
            n == self@.sum_128,
    {
        self.sum_128
    }

    /// The sum of the 1024-sample window, in nanoseconds, as last
    /// recomputed.
    pub fn sum_1024(&self) -> (n: u128)
        ensures
            n == self@.sum_1024,
    {
        self.sum_1024
    }

    /// The maximum of the 16-sample window, in nanoseconds, as last
    /// recomputed.
    pub fn max_ns_16(&self) -> (n: u64)
        ensures
            n == self@.max_ns_16,
    {
        self.max_ns_16
    }

    /// The maximum of the 128-sample window, in nanoseconds, as last
    /// recomputed.
    pub fn max_ns_128(&self) -> (n: u64)
        ensures
            n == self@.max_ns_128,
    {
        self.max_ns_128
    }

    /// The maximum of the 1024-sample window, in nanoseconds, as last
    /// recomputed.
    pub fn max_ns_1024(&self) -> (n: u64)
        ensures
            n == self@.max_ns_1024,
    {
        self.max_ns_1024
    }
}

impl Clone for RateStats {
    fn clone(&self) -> (stats: RateStats)
        ensures
            stats@ == self@,
    {
        proof {
            use_type_invariant(self);
        }
        RateStats {
            ring: ring_clone(&self.ring),
            sum_16: self.sum_16,
            sum_128: self.sum_128,
            sum_1024: self.sum_1024,
            max_ns_16: self.max_ns_16,
            max_ns_128: self.max_ns_128,
            max_ns_1024: self.max_ns_1024,
        }
    }
}

impl Default for RateStats {
    fn default() -> (stats: RateStats)
        ensures
            stats@ == StatsView::empty(),
    {
        RateStats::new()
    }
}

/// The low 64 bits of `n`.
pub(crate) fn truncate_to_u64(n: i128) -> (r: u64)
    ensures
        r == low_u64(n as int),
{
    let r = #[verifier::truncate]
    (n as u64);
    assert(r as int == (n as int) % 0x1_0000_0000_0000_0000) by (bit_vector)
        requires
            r == #[verifier::truncate]
            (n as u64),
    ;
    r
}

} // verus!
