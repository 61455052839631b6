use vstd::prelude::*;

verus! {

/// A span of dispatcher-observed time, counted in nanoseconds.
///
/// The dispatcher never reads a wall clock itself: every duration it works
/// with (a scheduling delay, the time elapsed between two ticks, the
/// scheduling precision) is carried as a plain nanosecond count, so that all
/// arithmetic on time stays inside verified code.
#[derive(Clone, Copy, PartialEq, Eq, Structural, Debug)]
pub struct Delay {
    pub nanos: u128,
}

impl Delay {
    /// The delay left once `elapsed` time has passed: subtraction floored at
    /// zero.
    pub open spec fn decreased_by(self, elapsed: Delay) -> Delay {
        if self.nanos > elapsed.nanos {
            Delay { nanos: (self.nanos - elapsed.nanos) as u128 }
        } else {
            Delay { nanos: 0 }
        }
    }

    pub fn zero() -> (d: Delay)
        ensures
            d.nanos == 0,
    {
        Delay { nanos: 0 }
    }

    pub fn from_nanos(nanos: u128) -> (d: Delay)
        ensures
            d.nanos == nanos,
    {
        Delay { nanos }
    }

    pub fn from_millis(millis: u64) -> (d: Delay)
        ensures
            d.nanos == millis * 1_000_000,
    {
        proof {
            assert((millis as int) * 1_000_000 <= (u64::MAX as int) * 1_000_000)
                by (nonlinear_arith)
                requires
                    millis <= u64::MAX,
            ;
        }
        Delay { nanos: (millis as u128) * 1_000_000 }
    }

    pub fn is_zero(&self) -> (r: bool)
        ensures
            r == (self.nanos == 0),
    {
        self.nanos == 0
    }

    /// Subtraction floored at zero, as the scheduler uses it to burn down a
    /// remaining delay.
    pub fn saturating_sub(self, elapsed: Delay) -> (r: Delay)
        ensures
            r == self.decreased_by(elapsed),
    {
        if self.nanos > elapsed.nanos {
            Delay { nanos: self.nanos - elapsed.nanos }
        } else {
            Delay { nanos: 0 }
        }
    }
}

/// The delay left after a whole run of elapsed intervals has been applied,
/// one tick at a time, oldest first.
pub open spec fn decreased_by_all(initial: Delay, elapsed: Seq<Delay>) -> Delay
    decreases elapsed.len(),
{
    if elapsed.len() == 0 {
        initial
    } else {
        decreased_by_all(initial, elapsed.drop_last()).decreased_by(elapsed.last())
    }
}

/// The total time a run of elapsed intervals stands for.
pub open spec fn total_elapsed(elapsed: Seq<Delay>) -> int
    decreases elapsed.len(),
{
    if elapsed.len() == 0 {
        0
    } else {
        total_elapsed(elapsed.drop_last()) + elapsed.last().nanos
    }
}

proof fn lemma_decreased_by_all_bound(initial: Delay, elapsed: Seq<Delay>)
    ensures
        decreased_by_all(initial, elapsed).nanos >= initial.nanos - total_elapsed(elapsed),
    decreases elapsed.len(),
{
    if elapsed.len() > 0 {
        lemma_decreased_by_all_bound(initial, elapsed.drop_last());
    }
}

/// Law: a delay is burnt down to zero only once the total elapsed time the
/// dispatcher has observed reaches the delay that was asked for — a delayed
/// event never becomes ready early.
pub proof fn lemma_delay_lower_bound(initial: Delay, elapsed: Seq<Delay>)
    ensures
        decreased_by_all(initial, elapsed).nanos == 0 ==> total_elapsed(elapsed) >= initial.nanos,
{
    lemma_decreased_by_all_bound(initial, elapsed);
}

} // verus!
