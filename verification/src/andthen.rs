//! Concatenation of two [`Sequential`] values.

use either::Either;
use vstd::prelude::*;

use crate::sequential::Sequential;
use crate::update::Update;

verus! {

/// Compose a pair of [`Sequential`] values in sequence, producing all of `U`'s
/// items and then all of `D`'s.
///
/// `D` never steps before `U` has fully terminated, and the switch from one to
/// the other is invisible to the caller: no separate step and no item marks
/// it.  `U`'s terminal value is held unmodified until the entire [`AndThen`]
/// terminates with the pair of both terminals.
#[verifier::reject_recursive_types(U)]
pub struct AndThen<U, D> where U: Sequential {
    upstate: Either<U, <U as Sequential>::Terminal>,
    down: D,
}

impl<U, D> AndThen<U, D> where U: Sequential, D: Sequential<Item = <U as Sequential>::Item> {
    /// Concatenate `upstream` and `downstream`: the result emits all of
    /// `upstream`'s items, then all of `downstream`'s, and terminates with the
    /// pair of the two terminals.
    pub fn new(upstream: U, downstream: D) -> (r: AndThen<U, D>)
        requires
            upstream.inv(),
            downstream.inv(),
        ensures
            r.inv(),
            r.items() == upstream.items() + downstream.items(),
            r.terminal() == (upstream.terminal(), downstream.terminal()),
    {
        AndThen { upstate: Either::Left(upstream), down: downstream }
    }
}

impl<U, D> Sequential for AndThen<U, D> where
    U: Sequential,
    D: Sequential<Item = <U as Sequential>::Item>,
 {
    type Item = <U as Sequential>::Item;

    type Terminal = (<U as Sequential>::Terminal, <D as Sequential>::Terminal);

    closed spec fn inv(self) -> bool {
        match self.upstate {
            Either::Left(up) => up.inv() && self.down.inv(),
            Either::Right(_) => self.down.inv(),
        }
    }

    closed spec fn items(self) -> Seq<Self::Item> {
        match self.upstate {
            Either::Left(up) => up.items() + self.down.items(),
            Either::Right(_) => self.down.items(),
        }
    }

    closed spec fn terminal(self) -> Self::Terminal {
        match self.upstate {
            Either::Left(up) => (up.terminal(), self.down.terminal()),
            Either::Right(t) => (t, self.down.terminal()),
        }
    }

    fn into_next(self) -> (u: Update<Self, Self::Item, Self::Terminal>) {
        let AndThen { upstate, down } = self;
        match upstate {
            Either::Left(up) => match up.into_next() {
                Update::Next(up_new, item) => {
                    proof {
                        assert(up_new.items() + down.items()
                            =~= (up.items() + down.items()).drop_first());
                        assert(item == (up.items() + down.items()).first());
                    }
                    Update::Next(AndThen { upstate: Either::Left(up_new), down }, item)
                },
                // Upstream is exhausted: switch to downstream within the same
                // logical step, so the caller never observes the boundary.
                Update::Terminate(up_term) => {
                    proof {
                        assert(up.items() + down.items() =~= down.items());
                    }
                    match down.into_next() {
                        Update::Next(down_new, item) => {
                            proof {
                                assert(down_new.items() =~= down.items().drop_first());
                            }
                            Update::Next(
                                AndThen { upstate: Either::Right(up_term), down: down_new },
                                item,
                            )
                        },
                        Update::Terminate(down_term) => Update::Terminate((up_term, down_term)),
                    }
                },
            },
            Either::Right(up_term) => match down.into_next() {
                Update::Next(down_new, item) => Update::Next(
                    AndThen { upstate: Either::Right(up_term), down: down_new },
                    item,
                ),
                Update::Terminate(down_term) => Update::Terminate((up_term, down_term)),
            },
        }
    }
}

} // verus!
