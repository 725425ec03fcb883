//! A finite-sequence source: lifts a plain `Vec` into a [`Sequential`].

use vstd::prelude::*;

use crate::sequential::Sequential;
use crate::update::Update;

verus! {

/// A [`Sequential`] that emits the elements of a `Vec` in order and then
/// terminates with `()`, the "no residual information" marker.
pub struct VecSequential<I> {
    entries: Vec<I>,
}

impl<I> VecSequential<I> {
    /// Lift `entries` into a [`Sequential`] emitting them in order.
    pub fn new(entries: Vec<I>) -> (s: VecSequential<I>)
        ensures
            s.inv(),
            s.items() == entries@,
    {
        VecSequential { entries }
    }
}

impl<I> Sequential for VecSequential<I> {
    type Item = I;

    type Terminal = ();

    closed spec fn items(self) -> Seq<I> {
        self.entries@
    }

    closed spec fn terminal(self) -> () {
        ()
    }

    fn into_next(self) -> (u: Update<Self, I, ()>) {
        let mut cur = self;
        let ghost before = cur.entries@;
        if cur.entries.len() > 0 {
            let item = cur.entries.remove(0);
            proof {
                assert(cur.entries@ =~= before.drop_first());
            }
            Update::Next(cur, item)
        } else {
            Update::Terminate(())
        }
    }
}

} // verus!
