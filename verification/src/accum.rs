//! A bounded running sum: a worked stateful step object.

use either::Either;
use vstd::prelude::*;
use vstd::string::StringExecFns;

use crate::digits::{decimal_digits, u64_to_string};
use crate::fnmut::StepFn;

verus! {

/// The text of an overflow report: `overflow: <total> > <bound>`.
pub open spec fn overflow_message(total: int, bound: int) -> Seq<char> {
    "overflow: "@ + decimal_digits(total) + " > "@ + decimal_digits(bound)
}

/// The report a bounded accumulator terminates with: the total that exceeded
/// the bound, and the bound itself.
#[derive(Debug, PartialEq, Eq, Structural)]
pub struct Overflow {
    /// The accumulated total at the step that exceeded the bound.
    pub total: u64,
    /// The bound that was exceeded.
    pub bound: u64,
}

impl Overflow {
    /// The report as text: `overflow: <total> > <bound>`.
    pub fn message(&self) -> (s: String)
        ensures
            s@ == overflow_message(self.total as int, self.bound as int),
    {
        let mut s = String::from_str("overflow: ");
        let total_digits = u64_to_string(self.total);
        s.append(total_digits.as_str());
        s.append(" > ");
        let bound_digits = u64_to_string(self.bound);
        s.append(bound_digits.as_str());
        proof {
            assert(s@ =~= overflow_message(self.total as int, self.bound as int));
        }
        s
    }
}

/// The items a counting sum still produces: each step adds the next count
/// (`step + 1`, then `step + 2`, ...) to the running total and yields it,
/// until the total would exceed the bound.
pub open spec fn ramp_items(total: int, step: int, bound: int) -> Seq<u64>
    decreases bound - total,
        when 0 <= step
{
    let next = total + step + 1;
    if next > bound {
        Seq::empty()
    } else {
        seq![next as u64] + ramp_items(next, step + 1, bound)
    }
}

/// The total at which a counting sum first exceeds its bound.
pub open spec fn ramp_total(total: int, step: int, bound: int) -> int
    decreases bound - total,
        when 0 <= step
{
    let next = total + step + 1;
    if next > bound {
        next
    } else {
        ramp_total(next, step + 1, bound)
    }
}

/// A step object keeping a running total: each call adds 1, then 2, then 3,
/// and so on, and yields the new total — until the total would exceed the
/// bound, at which point it terminates with an [`Overflow`] report.
pub struct CountingSum {
    total: u64,
    step: u64,
    bound: u64,
}

impl CountingSum {
    /// A counting sum starting at zero with the given bound.
    pub fn new(bound: u32) -> (c: CountingSum)
        ensures
            c.inv(),
            c.items() == ramp_items(0, 0, bound as int),
            c.terminal() == (Overflow {
                total: ramp_total(0, 0, bound as int) as u64,
                bound: bound as u64,
            }),
    {
        CountingSum { total: 0, step: 0, bound: bound as u64 }
    }
}

impl StepFn for CountingSum {
    type Item = u64;

    type Terminal = Overflow;

    closed spec fn inv(self) -> bool {
        &&& self.total <= self.bound
        &&& self.step <= self.total + 1
        &&& self.bound <= u32::MAX
    }

    closed spec fn items(self) -> Seq<u64> {
        ramp_items(self.total as int, self.step as int, self.bound as int)
    }

    closed spec fn terminal(self) -> Overflow {
        Overflow {
            total: ramp_total(self.total as int, self.step as int, self.bound as int) as u64,
            bound: self.bound,
        }
    }

    fn call(&mut self) -> (r: Either<u64, Overflow>) {
        let next: u64 = self.total + self.step + 1;
        if next > self.bound {
            Either::Right(Overflow { total: next, bound: self.bound })
        } else {
            proof {
                assert(ramp_items(next as int, self.step + 1, self.bound as int)
                    =~= ramp_items(self.total as int, self.step as int, self.bound as int)
                        .drop_first());
            }
            self.step = self.step + 1;
            self.total = next;
            Either::Left(next)
        }
    }
}

} // verus!
