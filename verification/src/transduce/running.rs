//! A bounded running sum over external inputs: a worked step-with-input
//! object.

use either::Either;
use vstd::prelude::*;

use crate::accum::Overflow;
use crate::transduce::StepFnWith;

verus! {

/// A step object keeping a running total of its inputs: each call adds the
/// input to the total and yields the new total — unless that would exceed the
/// bound, in which case it terminates with an [`Overflow`] report, handing the
/// input back unconsumed.
pub struct RunningSum {
    total: u64,
    bound: u64,
}

impl RunningSum {
    /// The running total so far.
    pub closed spec fn total(self) -> u64 {
        self.total
    }

    /// The bound the total may not exceed.
    pub closed spec fn bound(self) -> u64 {
        self.bound
    }

    /// A running sum starting at zero with the given bound.
    pub fn new(bound: u32) -> (r: RunningSum)
        ensures
            r.inv(),
            r.total() == 0,
            r.bound() == bound as u64,
    {
        RunningSum { total: 0, bound: bound as u64 }
    }
}

/// What one step of a [`RunningSum`] does: a total within the bound advances
/// the sum and is yielded; one beyond it terminates with the report and the
/// unconsumed input.
pub proof fn lemma_running_sum_step(s: RunningSum, input: u32)
    ensures
        s.total() + input <= s.bound() ==> (s.spec_call(input).0.total() == s.total() + input
            && s.spec_call(input).0.bound() == s.bound()
            && s.spec_call(input).1 == Either::<u32, (Overflow, u32)>::Left(
                (s.total() + input) as u32,
            )),
        s.total() + input > s.bound() ==> (s.spec_call(input).0 == s
            && s.spec_call(input).1 == Either::<u32, (Overflow, u32)>::Right(
                (
                    Overflow { total: (s.total() + input) as u64, bound: s.bound() },
                    input,
                ),
            )),
{
}

impl StepFnWith<u32> for RunningSum {
    type Output = u32;

    type Terminal = Overflow;

    closed spec fn inv(self) -> bool {
        self.total <= self.bound && self.bound <= u32::MAX
    }

    closed spec fn spec_call(self, input: u32) -> (Self, Either<u32, (Overflow, u32)>) {
        let next = self.total + input;
        if next <= self.bound {
            (RunningSum { total: next as u64, bound: self.bound }, Either::Left(next as u32))
        } else {
            (self, Either::Right((Overflow { total: next as u64, bound: self.bound }, input)))
        }
    }

    fn call(&mut self, input: u32) -> (r: Either<u32, (Overflow, u32)>) {
        let next: u64 = self.total + input as u64;
        if next <= self.bound {
            self.total = next;
            Either::Left(next as u32)
        } else {
            Either::Right((Overflow { total: next, bound: self.bound }, input))
        }
    }
}

} // verus!
