//! Lifting a stateful step object into a [`Sequential`].

use either::Either;
use vstd::prelude::*;

use crate::sequential::Sequential;
use crate::update::Update;

verus! {

/// A stateful step object: each call produces the next item or a terminal.
///
/// This is the escape hatch for ad hoc sequences without defining a dedicated
/// [`Sequential`] type: implement `StepFn` for the state the steps carry and
/// lift it with [`from_fn_mut`].  Its model is the same as a [`Sequential`]'s:
/// the items the remaining calls produce, and the terminal after them.
pub trait StepFn: Sized {
    /// Each non-terminal call produces an `Item`.
    type Item;

    /// The last call produces a `Terminal`.
    type Terminal;

    /// Well-formedness; preserved by every call.
    open spec fn inv(self) -> bool {
        true
    }

    /// The items the remaining calls produce, in order.
    spec fn items(self) -> Seq<Self::Item>;

    /// The terminal that the call after the last item produces.
    spec fn terminal(self) -> Self::Terminal;

    /// One step: the next item (`Left`) or the terminal (`Right`).
    fn call(&mut self) -> (r: Either<Self::Item, Self::Terminal>)
        requires
            old(self).inv(),
        ensures
            final(self).inv(),
            old(self).items().len() > 0 ==> (r matches Either::Left(item)
                && item == old(self).items().first()
                && final(self).items() == old(self).items().drop_first()
                && final(self).terminal() == old(self).terminal()),
            old(self).items().len() == 0 ==> (r matches Either::Right(t)
                && t == old(self).terminal()),
    ;
}

/// Wraps a [`StepFn`], making it a [`Sequential`] with the same model.
pub struct SequentialFnMut<F>(F);

/// Wrap a step object which returns [`Sequential`] items or a terminal.
pub fn from_fn_mut<F>(f: F) -> (s: SequentialFnMut<F>)
    where F: StepFn
    requires
        f.inv(),
    ensures
        s.inv(),
        s.items() == f.items(),
        s.terminal() == f.terminal(),
{
    SequentialFnMut(f)
}

impl<F> Sequential for SequentialFnMut<F> where F: StepFn {
    type Item = <F as StepFn>::Item;

    type Terminal = <F as StepFn>::Terminal;

    closed spec fn inv(self) -> bool {
        self.0.inv()
    }

    closed spec fn items(self) -> Seq<Self::Item> {
        self.0.items()
    }

    closed spec fn terminal(self) -> Self::Terminal {
        self.0.terminal()
    }

    fn into_next(self) -> (u: Update<Self, Self::Item, Self::Terminal>) {
        let SequentialFnMut(mut f) = self;
        match f.call() {
            Either::Left(item) => Update::Next(SequentialFnMut(f), item),
            Either::Right(t) => Update::Terminate(t),
        }
    }
}

} // verus!
