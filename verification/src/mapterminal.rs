//! Mapping the terminal of a [`Sequential`].

use vstd::prelude::*;

use crate::func::{fn_precise, lemma_spec_apply, spec_apply};
use crate::sequential::Sequential;
use crate::update::Update;

verus! {

/// Map the [`Terminal`](Sequential::Terminal) of a [`Sequential`] with a
/// function, passing every item through unchanged.
///
/// The function is applied exactly once, to the terminal, never to an item.
#[verifier::reject_recursive_types(U)]
pub struct MapTerminal<S, F, U> where S: Sequential, F: Fn(S::Terminal) -> U {
    seq: S,
    f: F,
}

impl<S, F, U> MapTerminal<S, F, U> where S: Sequential, F: Fn(S::Terminal) -> U {
    /// The wrapped [`Sequential`].
    pub closed spec fn inner(self) -> S {
        self.seq
    }

    /// The carried function value.
    pub closed spec fn func(self) -> F {
        self.f
    }

    /// Wrap `seq` so that its terminal is passed through `f`.
    pub fn new(seq: S, f: F) -> (r: MapTerminal<S, F, U>)
        requires
            seq.inv(),
            fn_precise::<F, S::Terminal, U>(f),
        ensures
            r.inv(),
            r.inner() == seq,
            r.func() == f,
            r.items() == seq.items(),
            r.terminal() == spec_apply(f, seq.terminal()),
    {
        MapTerminal { seq, f }
    }
}

impl<S, F, U> Sequential for MapTerminal<S, F, U> where S: Sequential, F: Fn(S::Terminal) -> U {
    type Item = <S as Sequential>::Item;

    type Terminal = U;

    closed spec fn inv(self) -> bool {
        self.seq.inv() && fn_precise::<F, S::Terminal, U>(self.f)
    }

    closed spec fn items(self) -> Seq<Self::Item> {
        self.seq.items()
    }

    closed spec fn terminal(self) -> U {
        spec_apply(self.f, self.seq.terminal())
    }

    fn into_next(self) -> (u: Update<Self, Self::Item, U>) {
        let MapTerminal { seq, f } = self;
        match seq.into_next() {
            Update::Next(next, item) => Update::Next(MapTerminal { seq: next, f }, item),
            Update::Terminate(t) => {
                let mapped = f(t);
                proof {
                    lemma_spec_apply(f, t, mapped);
                }
                Update::Terminate(mapped)
            },
        }
    }
}

} // verus!
