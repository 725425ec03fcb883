//! Item consumers: the callbacks that drive a [`Sequential`](crate::Sequential)
//! to its terminal.

use vstd::prelude::*;

verus! {

/// A stateful consumer of items with a deterministic mathematical model.
///
/// A consumer stands where an ad hoc callback would: a driver hands it one
/// item per step.  Its ghost state is [`Model`](Consumer::Model); one step of
/// it is [`spec_consume`](Consumer::spec_consume), which also says whether the
/// consumer asks the driver to go on (`true`) or to break (`false`).
pub trait Consumer<I>: Sized {
    /// The mathematical state of the consumer.
    type Model;

    /// Well-formedness; preserved by every call of `consume`.
    open spec fn inv(self) -> bool {
        true
    }

    /// The abstraction of the consumer's current state.
    spec fn model(self) -> Self::Model;

    /// One consuming step of the model: the next model and the continue
    /// signal.
    spec fn spec_consume(m: Self::Model, item: I) -> (Self::Model, bool);

    /// Consume one item, following the model.
    fn consume(&mut self, item: I) -> (more: bool)
        requires
            old(self).inv(),
        ensures
            final(self).inv(),
            (final(self).model(), more) == Self::spec_consume(old(self).model(), item),
    ;
}

/// The consumer model after consuming all of `items` in order, continue
/// signals disregarded.
pub open spec fn consumed<I, C: Consumer<I>>(m: C::Model, items: Seq<I>) -> C::Model
    decreases items.len(),
{
    if items.len() == 0 {
        m
    } else {
        consumed::<I, C>(C::spec_consume(m, items.first()).0, items.drop_first())
    }
}

/// Whether a consumer starting at model `m` breaks somewhere in `items`.
pub open spec fn ctl_breaks<I, C: Consumer<I>>(m: C::Model, items: Seq<I>) -> bool
    decreases items.len(),
{
    if items.len() == 0 {
        false
    } else {
        let (m2, more) = C::spec_consume(m, items.first());
        !more || ctl_breaks::<I, C>(m2, items.drop_first())
    }
}

/// How many of `items` a driver hands a consumer starting at model `m` before
/// it breaks or `items` run out: at least 1 if `items` is non-empty, at most
/// `items.len()`.
pub open spec fn ctl_steps<I, C: Consumer<I>>(m: C::Model, items: Seq<I>) -> int
    decreases items.len(),
{
    if items.len() == 0 {
        0
    } else {
        let (m2, more) = C::spec_consume(m, items.first());
        if !more {
            1
        } else {
            1 + ctl_steps::<I, C>(m2, items.drop_first())
        }
    }
}

/// The consumer model after a driver starting it at `m` ran over `items`,
/// stopping at the consumer's first break.
pub open spec fn ctl_state<I, C: Consumer<I>>(m: C::Model, items: Seq<I>) -> C::Model
    decreases items.len(),
{
    if items.len() == 0 {
        m
    } else {
        let (m2, more) = C::spec_consume(m, items.first());
        if !more {
            m2
        } else {
            ctl_state::<I, C>(m2, items.drop_first())
        }
    }
}

/// A driver hands the consumer at least one item of a non-empty sequence and
/// never more than there are.
pub proof fn lemma_ctl_steps_bounds<I, C: Consumer<I>>(m: C::Model, items: Seq<I>)
    ensures
        0 <= ctl_steps::<I, C>(m, items) <= items.len(),
        items.len() > 0 ==> 1 <= ctl_steps::<I, C>(m, items),
    decreases items.len(),
{
    if items.len() > 0 {
        let (m2, more) = C::spec_consume(m, items.first());
        if more {
            lemma_ctl_steps_bounds::<I, C>(m2, items.drop_first());
        }
    }
}

/// A consumer that collects every item into a `Vec` and always continues.
pub struct VecCollector<I> {
    entries: Vec<I>,
}

impl<I> VecCollector<I> {
    /// An empty collector.
    pub fn new() -> (c: VecCollector<I>)
        ensures
            c.inv(),
            c.model() == Seq::<I>::empty(),
    {
        VecCollector { entries: Vec::new() }
    }

    /// The collected items, in the order they were consumed.
    pub fn into_vec(self) -> (v: Vec<I>)
        ensures
            v@ == self.model(),
    {
        self.entries
    }
}

impl<I> Consumer<I> for VecCollector<I> {
    type Model = Seq<I>;

    closed spec fn model(self) -> Seq<I> {
        self.entries@
    }

    open spec fn spec_consume(m: Seq<I>, item: I) -> (Seq<I>, bool) {
        (m.push(item), true)
    }

    fn consume(&mut self, item: I) -> (more: bool) {
        self.entries.push(item);
        true
    }
}

/// Collecting is folding by append: a [`VecCollector`] that has collected `m`
/// and then consumes all of `items` has collected exactly `m + items`.
pub proof fn lemma_vec_collector_consumed<I>(m: Seq<I>, items: Seq<I>)
    ensures
        consumed::<I, VecCollector<I>>(m, items) == m + items,
    decreases items.len(),
{
    if items.len() == 0 {
        assert(m + items =~= m);
    } else {
        lemma_vec_collector_consumed(m.push(items.first()), items.drop_first());
        assert(m.push(items.first()) + items.drop_first() =~= m + items);
    }
}

/// A consumer that collects at most a fixed number of items and then asks the
/// driver to break.
pub struct BoundedCollector<I> {
    entries: Vec<I>,
    room: usize,
}

impl<I> BoundedCollector<I> {
    /// An empty collector with room for `capacity` items.
    pub fn new(capacity: usize) -> (c: BoundedCollector<I>)
        ensures
            c.inv(),
            c.model() == (Seq::<I>::empty(), capacity as nat),
    {
        BoundedCollector { entries: Vec::new(), room: capacity }
    }

    /// The collected items, in the order they were consumed.
    pub fn into_vec(self) -> (v: Vec<I>)
        ensures
            v@ == self.model().0,
    {
        self.entries
    }
}

impl<I> Consumer<I> for BoundedCollector<I> {
    type Model = (Seq<I>, nat);

    closed spec fn model(self) -> (Seq<I>, nat) {
        (self.entries@, self.room as nat)
    }

    open spec fn spec_consume(m: (Seq<I>, nat), item: I) -> ((Seq<I>, nat), bool) {
        if m.1 == 0 {
            ((m.0, 0), false)
        } else {
            ((m.0.push(item), (m.1 - 1) as nat), m.1 > 1)
        }
    }

    fn consume(&mut self, item: I) -> (more: bool) {
        if self.room == 0 {
            false
        } else {
            self.entries.push(item);
            self.room = self.room - 1;
            self.room > 0
        }
    }
}

} // verus!
