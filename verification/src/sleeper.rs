//! What a sleep should be like: how accurate the native sleep is taken to
//! be, and whether to spin for the rest.

use vstd::prelude::*;
use crate::duration::Duration;

verus! {

/// The sum of `samples`.
pub open spec fn sum_of(samples: Seq<u32>) -> int
    decreases samples.len(),
{
    if samples.len() == 0 {
        0
    } else {
        sum_of(samples.drop_last()) + samples.last()
    }
}

/// The mean of `samples`, rounded down; zero where there is none.
pub open spec fn mean_of(samples: Seq<u32>) -> int {
    if samples.len() == 0 {
        0
    } else {
        sum_of(samples) / (samples.len() as int)
    }
}

/// `a + b`, or `u32::MAX` where that is less.
pub open spec fn saturating_sum(a: int, b: int) -> int {
    if a + b > u32::MAX {
        u32::MAX as int
    } else {
        a + b
    }
}

/// What a [`Sleeper`] holds.
pub struct SleeperView {
    /// The accuracy of the native sleep, in nanoseconds.
    pub accuracy_ns: int,
    /// Whether the rest of a sleep, up to that accuracy, is spent spinning.
    pub spin: bool,
}

/// The settings of a sleep: the accuracy that the native, yielding sleep is
/// taken to have, and whether the time that it cannot be trusted with is
/// spent in a spin loop.
#[derive(Clone, Copy, Debug)]
pub struct Sleeper {
    accuracy_ns: u32,
    spin: bool,
}

impl View for Sleeper {
    type V = SleeperView;

    closed spec fn view(&self) -> SleeperView {
        SleeperView { accuracy_ns: self.accuracy_ns as int, spin: self.spin }
    }
}

impl Sleeper {
    /// A sleeper for a native sleep that is accurate to `accuracy`
    /// nanoseconds, which spins after the native sleep if `do_spin`.
    pub fn new(accuracy: u32, do_spin: bool) -> (sleeper: Sleeper)
        ensures
            sleeper@ == (SleeperView { accuracy_ns: accuracy as int, spin: do_spin }),
    {
        Sleeper { accuracy_ns: accuracy, spin: do_spin }
    }

    /// The wait to perform for a sleep of `duration`: `duration` itself
    /// where it is positive, none where it is not.
    pub fn sleep(&self, duration: Duration) -> (wait: Option<Duration>)
        ensures
            wait == (if duration@ > 0 {
                Some(duration)
            } else {
                None
            }),
    {
        if duration.is_positive() {
            Some(duration)
        } else {
            None
        }
    }

    /// The accuracy of the native sleep.
    pub fn accuracy(&self) -> (accuracy: Duration)
        ensures
            accuracy@ == self@.accuracy_ns,
    {
        Duration::nanoseconds(self.accuracy_ns as i64)
    }

    /// The accuracy of the native sleep, in nanoseconds.
    pub fn accuracy_ns(&self) -> (accuracy: u32)
        ensures
            accuracy == self@.accuracy_ns,
    {
        self.accuracy_ns
    }

    /// Whether the sleeper spins after the native sleep.
    pub fn spins(&self) -> (spin: bool)
        ensures
            spin == self@.spin,
    {
        self.spin
    }

    /// Sets the accuracy from measurements: `samples` are the nanoseconds
    /// that minimal native sleeps were seen to take, and the accuracy
    /// becomes their mean plus `extra_nanos`, or `u32::MAX` where that is
    /// less. The sleeper spins from now on.
    pub fn calculate_accuracy(&mut self, samples: &[u32], extra_nanos: u32)
        ensures
            final(self)@ == (SleeperView {
                accuracy_ns: saturating_sum(mean_of(samples@), extra_nanos as int),
                spin: true,
            }),
    {
        let mean = mean(samples);
        let accuracy: u32 = if mean as u64 + extra_nanos as u64 > u32::MAX as u64 {
            u32::MAX
        } else {
            mean + extra_nanos
        };
        self.accuracy_ns = accuracy;
        self.spin = true;
    }
}

/// The mean of `list`, rounded down; zero where it is empty.
fn mean(list: &[u32]) -> (mean: u32)
    ensures
        mean == mean_of(list@),
{
    let len = list.len();
    if len == 0 {
        return 0;
    }
    let mut sum: u128 = 0;
    let mut i: usize = 0;
    while i < len
        invariant
            len == list@.len(),
            i <= len,
            sum == sum_of(list@.take(i as int)),
            sum <= i * u32::MAX,
        decreases len - i,
    {
        proof {
            assert(list@.take(i + 1).drop_last() == list@.take(i as int));
            assert(sum + list@[i as int] <= (i + 1) * u32::MAX) by (nonlinear_arith)
                requires
                    sum <= i * u32::MAX,
                    list@[i as int] <= u32::MAX,
            ;
            assert(i * u32::MAX <= usize::MAX * u32::MAX) by (nonlinear_arith)
                requires
                    i <= usize::MAX,
            ;
        }
        sum = sum + list[i] as u128;
        i = i + 1;
    }
    proof {
        assert(list@.take(len as int) == list@);
        assert(sum / (len as u128) <= u32::MAX) by (nonlinear_arith)
            requires
                sum <= len * u32::MAX,
                len > 0,
        ;
    }
    (sum / len as u128) as u32
}

} // verus!
