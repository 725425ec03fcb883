//! The [`Sequential`] trait: abstract step-wise emission of items with an
//! explicit, typed terminal value.

use either::Either;
use vstd::prelude::*;

use crate::consume::{consumed, ctl_breaks, ctl_state, ctl_steps, lemma_ctl_steps_bounds, Consumer};
use crate::update::Update;

verus! {

/// A [`Sequential`] produces a sequence of [`Item`](Sequential::Item) values
/// and then a single [`Terminal`](Sequential::Terminal).
///
/// Implementors provide a mathematical model of the value — the items still to
/// come ([`items`](Sequential::items)) and the terminal that follows them
/// ([`terminal`](Sequential::terminal)) — and one operation,
/// [`into_next`](Sequential::into_next), that follows the model.
///
/// `into_next` consumes the value and, on a non-final step, returns a new one.
/// Ownership transfer makes stepping past the end structurally impossible: a
/// value that has been stepped is gone, and the only valid continuation is the
/// state that the step returned.
pub trait Sequential: Sized {
    /// Each non-terminal step of a sequence produces an `Item`.
    type Item;

    /// A `Terminal` is produced when a sequence terminates.
    type Terminal;

    /// Well-formedness of the value; constructors establish it and every step
    /// preserves it.
    open spec fn inv(self) -> bool {
        true
    }

    /// The items that stepping this value to its end produces, in order.
    spec fn items(self) -> Seq<Self::Item>;

    /// The terminal value that stepping this value to its end produces.
    spec fn terminal(self) -> Self::Terminal;

    /// Consume the [`Sequential`] to produce either a continuation (type
    /// `Self`) with one [`Item`](Sequential::Item), or a
    /// [`Terminal`](Sequential::Terminal) and nothing else.
    fn into_next(self) -> (u: Update<Self, Self::Item, Self::Terminal>)
        requires
            self.inv(),
        ensures
            self.items().len() == 0 ==> (u matches Update::Terminate(t)
                && t == self.terminal()),
            self.items().len() > 0 ==> (u matches Update::Next(next, item)
                && item == self.items().first()
                && next.inv()
                && next.items() == self.items().drop_first()
                && next.terminal() == self.terminal()),
    ;

    /// Process each item with `consumer`, then return the terminal.
    ///
    /// Every item is handed to the consumer; the continue signal is not
    /// consulted here — see [`for_each_ctl`](Sequential::for_each_ctl) for
    /// breaking early.  A sequence with infinitely many items would never
    /// return; the model, a finite sequence of items, rules that out.
    #[verifier::loop_isolation(false)]
    fn for_each<C: Consumer<Self::Item>>(self, consumer: &mut C) -> (t: Self::Terminal)
        requires
            self.inv(),
            old(consumer).inv(),
        ensures
            t == self.terminal(),
            final(consumer).inv(),
            final(consumer).model()
                == consumed::<Self::Item, C>(old(consumer).model(), self.items()),
    {
        let ghost target = consumed::<Self::Item, C>(old(consumer).model(), self.items());
        let ghost term = self.terminal();
        let mut cur = self;
        loop
            invariant
                cur.inv(),
                consumer.inv(),
                cur.terminal() == term,
                consumed::<Self::Item, C>(consumer.model(), cur.items()) == target,
            decreases cur.items().len(),
        {
            match cur.into_next() {
                Update::Next(next, item) => {
                    let _ = consumer.consume(item);
                    cur = next;
                },
                Update::Terminate(t) => {
                    return t;
                },
            }
        }
    }

    /// Process items with `consumer` until the sequence terminates or the
    /// consumer asks to break.
    ///
    /// On a break, the remaining, unconsumed sequence comes back (`Left`), so
    /// the caller may resume or discard it; otherwise the terminal (`Right`).
    #[verifier::loop_isolation(false)]
    fn for_each_ctl<C: Consumer<Self::Item>>(self, consumer: &mut C) -> (r: Either<
        Self,
        Self::Terminal,
    >)
        requires
            self.inv(),
            old(consumer).inv(),
        ensures
            final(consumer).inv(),
            final(consumer).model()
                == ctl_state::<Self::Item, C>(old(consumer).model(), self.items()),
            ctl_breaks::<Self::Item, C>(old(consumer).model(), self.items())
                ==> (r matches Either::Left(rest)
                && rest.inv()
                && rest.items() == self.items().skip(
                    ctl_steps::<Self::Item, C>(old(consumer).model(), self.items()),
                )
                && rest.terminal() == self.terminal()),
            !ctl_breaks::<Self::Item, C>(old(consumer).model(), self.items())
                ==> (r matches Either::Right(t)
                && t == self.terminal()),
    {
        let ghost whole = self.items();
        let ghost start = old(consumer).model();
        let ghost term = self.terminal();
        let mut cur = self;
        loop
            invariant
                cur.inv(),
                consumer.inv(),
                cur.terminal() == term,
                ctl_breaks::<Self::Item, C>(start, whole)
                    == ctl_breaks::<Self::Item, C>(consumer.model(), cur.items()),
                ctl_state::<Self::Item, C>(start, whole)
                    == ctl_state::<Self::Item, C>(consumer.model(), cur.items()),
                ctl_breaks::<Self::Item, C>(start, whole) ==> cur.items().skip(
                    ctl_steps::<Self::Item, C>(consumer.model(), cur.items()),
                ) == whole.skip(ctl_steps::<Self::Item, C>(start, whole)),
            decreases cur.items().len(),
        {
            match cur.into_next() {
                Update::Next(next, item) => {
                    let more = consumer.consume(item);
                    proof {
                        assert(next.items() =~= cur.items().skip(1));
                    }
                    if !more {
                        return Either::Left(next);
                    }
                    proof {
                        if ctl_breaks::<Self::Item, C>(start, whole) {
                            let k = ctl_steps::<Self::Item, C>(consumer.model(), next.items());
                            lemma_ctl_steps_bounds::<Self::Item, C>(consumer.model(), next.items());
                            assert(cur.items().skip(1 + k) =~= next.items().skip(k));
                        }
                    }
                    cur = next;
                },
                Update::Terminate(t) => {
                    return Either::Right(t);
                },
            }
        }
    }

    /// Drop all items and return the terminal.
    #[verifier::loop_isolation(false)]
    fn terminate(self) -> (t: Self::Terminal)
        requires
            self.inv(),
        ensures
            t == self.terminal(),
    {
        let ghost term = self.terminal();
        let mut cur = self;
        loop
            invariant
                cur.inv(),
                cur.terminal() == term,
            decreases cur.items().len(),
        {
            match cur.into_next() {
                Update::Next(next, _item) => {
                    cur = next;
                },
                Update::Terminate(t) => {
                    return t;
                },
            }
        }
    }
}

} // verus!
