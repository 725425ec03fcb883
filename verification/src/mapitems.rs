//! Mapping the items of a [`Sequential`].

use vstd::prelude::*;

use crate::func::{fn_precise, lemma_spec_apply, spec_apply};
use crate::sequential::Sequential;
use crate::update::Update;

verus! {

/// Map each [`Item`](Sequential::Item) of a [`Sequential`] with a function,
/// leaving control flow and the terminal untouched.
///
/// The function is applied exactly once per produced item, never to a
/// terminal.
#[verifier::reject_recursive_types(P)]
pub struct MapItems<S, F, P> where S: Sequential, F: Fn(S::Item) -> P {
    seq: S,
    f: F,
}

impl<S, F, P> MapItems<S, F, P> where S: Sequential, F: Fn(S::Item) -> P {
    /// The wrapped [`Sequential`].
    pub closed spec fn inner(self) -> S {
        self.seq
    }

    /// The carried function value.
    pub closed spec fn func(self) -> F {
        self.f
    }

    /// Wrap `seq` so that every item is passed through `f`.
    pub fn new(seq: S, f: F) -> (r: MapItems<S, F, P>)
        requires
            seq.inv(),
            fn_precise::<F, S::Item, P>(f),
        ensures
            r.inv(),
            r.inner() == seq,
            r.func() == f,
            r.items() == seq.items().map_values(|a: S::Item| spec_apply(f, a)),
            r.terminal() == seq.terminal(),
    {
        MapItems { seq, f }
    }
}

impl<S, F, P> Sequential for MapItems<S, F, P> where S: Sequential, F: Fn(S::Item) -> P {
    type Item = P;

    type Terminal = <S as Sequential>::Terminal;

    closed spec fn inv(self) -> bool {
        self.seq.inv() && fn_precise::<F, S::Item, P>(self.f)
    }

    closed spec fn items(self) -> Seq<P> {
        self.seq.items().map_values(|a: S::Item| spec_apply(self.f, a))
    }

    closed spec fn terminal(self) -> Self::Terminal {
        self.seq.terminal()
    }

    fn into_next(self) -> (u: Update<Self, P, Self::Terminal>) {
        let MapItems { seq, f } = self;
        match seq.into_next() {
            Update::Next(next, item) => {
                let mapped = f(item);
                proof {
                    lemma_spec_apply(f, item, mapped);
                    assert(next.items().map_values(|a: S::Item| spec_apply(f, a))
                        =~= seq.items().map_values(|a: S::Item| spec_apply(f, a)).drop_first());
                }
                Update::Next(MapItems { seq: next, f }, mapped)
            },
            Update::Terminate(t) => Update::Terminate(t),
        }
    }
}

/// Map composition law: mapping items with `f` and then with `g` is observably
/// identical — same items in the same order, same step count, same terminal —
/// to mapping once with any function `h` that agrees pointwise with the
/// composition of `f` then `g`.
pub proof fn lemma_map_items_compose<S, F, G, H, P, Q>(
    twice: MapItems<MapItems<S, F, P>, G, Q>,
    once: MapItems<S, H, Q>,
)
    where S: Sequential, F: Fn(S::Item) -> P, G: Fn(P) -> Q, H: Fn(S::Item) -> Q
    requires
        twice.inner().inner() == once.inner(),
        forall|a: S::Item| #[trigger] spec_apply(once.func(), a)
            == spec_apply(twice.func(), spec_apply(twice.inner().func(), a)),
    ensures
        twice.items() == once.items(),
        twice.terminal() == once.terminal(),
{
    let s = once.inner().items();
    assert forall|i: int| 0 <= i < s.len() implies twice.items()[i] == once.items()[i] by {
        assert(twice.inner().items()[i] == spec_apply(twice.inner().func(), s[i]));
        assert(twice.items()[i] == spec_apply(twice.func(), twice.inner().items()[i]));
        assert(once.items()[i] == spec_apply(once.func(), s[i]));
    };
    assert(twice.items() =~= once.items());
}

} // verus!
