//! Early termination on the first failure-shaped item.

use core::marker::PhantomData;
use vstd::prelude::*;

use crate::sequential::Sequential;
use crate::update::Update;

verus! {

/// The successful values of `rs` before its first `Err`, in order.
pub open spec fn ok_prefix<X, E>(rs: Seq<Result<X, E>>) -> Seq<X>
    decreases rs.len(),
{
    if rs.len() == 0 {
        Seq::empty()
    } else {
        match rs.first() {
            Ok(x) => seq![x] + ok_prefix(rs.drop_first()),
            Err(_) => Seq::empty(),
        }
    }
}

/// The terminal of early termination over `rs`: the first `Err` of `rs` if
/// there is one, otherwise `Ok(t)`.
pub open spec fn early_terminal<X, E, T>(rs: Seq<Result<X, E>>, t: T) -> Result<T, E>
    decreases rs.len(),
{
    if rs.len() == 0 {
        Ok(t)
    } else {
        match rs.first() {
            Ok(_) => early_terminal(rs.drop_first(), t),
            Err(e) => Err(e),
        }
    }
}

/// A [`Sequential`] which terminates with the first failure-shaped item.
///
/// `Ok` items of the wrapped sequence pass through as plain items.  The first
/// `Err(e)` item terminates the whole sequence with terminal `Err(e)`,
/// discarding the unconsumed inner state: after that step there is no way to
/// obtain a further item.  If the inner sequence terminates without an `Err`,
/// its terminal `t` is wrapped as `Ok(t)`.
#[derive(Debug)]
#[verifier::reject_recursive_types(E)]
pub struct TerminateOnErr<S, E> {
    seq: S,
    phantom: PhantomData<E>,
}

impl<S, X, E> TerminateOnErr<S, E> where S: Sequential<Item = Result<X, E>> {
    /// The wrapped [`Sequential`].
    pub closed spec fn inner(self) -> S {
        self.seq
    }

    /// Wrap `seq`: items until its first `Err`, which becomes the terminal.
    pub fn from(seq: S) -> (r: TerminateOnErr<S, E>)
        requires
            seq.inv(),
        ensures
            r.inv(),
            r.inner() == seq,
            r.items() == ok_prefix(seq.items()),
            r.terminal() == early_terminal(seq.items(), seq.terminal()),
    {
        TerminateOnErr { seq, phantom: PhantomData }
    }
}

impl<S, X, E> Sequential for TerminateOnErr<S, E> where S: Sequential<Item = Result<X, E>> {
    type Item = X;

    type Terminal = Result<<S as Sequential>::Terminal, E>;

    closed spec fn inv(self) -> bool {
        self.seq.inv()
    }

    closed spec fn items(self) -> Seq<X> {
        ok_prefix(self.seq.items())
    }

    closed spec fn terminal(self) -> Self::Terminal {
        early_terminal(self.seq.items(), self.seq.terminal())
    }

    fn into_next(self) -> (u: Update<Self, X, Self::Terminal>) {
        let TerminateOnErr { seq, phantom } = self;
        match seq.into_next() {
            Update::Next(next, Ok(x)) => {
                proof {
                    assert(ok_prefix(seq.items()).drop_first() =~= ok_prefix(next.items()));
                }
                Update::Next(TerminateOnErr { seq: next, phantom }, x)
            },
            Update::Next(_, Err(e)) => Update::Terminate(Err(e)),
            Update::Terminate(t) => Update::Terminate(Ok(t)),
        }
    }
}

/// Convert a [`Sequential`] with `Result` items and unit terminal into one
/// which terminates on the first `Err` item, or else with `Ok(())` once the
/// wrapped sequence completes.
pub fn terminate_on_error<S, X, E>(errorseq: S) -> (r: TerminateOnErr<S, E>)
    where S: Sequential<Item = Result<X, E>, Terminal = ()>
    requires
        errorseq.inv(),
    ensures
        r.inv(),
        r.items() == ok_prefix(errorseq.items()),
        r.terminal() == early_terminal(errorseq.items(), errorseq.terminal()),
{
    TerminateOnErr::from(errorseq)
}

/// Early termination pins the failure: when `rs[k]` is the first `Err` of
/// `rs`, the early terminal over `rs` is exactly that error, and the items
/// produced before it are exactly the `Ok` values of `rs[0 .. k]`, in order.
/// Replaying any sequence with the same item model therefore reproduces the
/// same successful prefix and the same error.
pub proof fn lemma_early_terminal_first_err<X, E, T>(rs: Seq<Result<X, E>>, t: T, k: int)
    requires
        0 <= k < rs.len(),
        rs[k] is Err,
        forall|i: int| 0 <= i < k ==> rs[i] is Ok,
    ensures
        early_terminal(rs, t) == Result::<T, E>::Err(rs[k]->Err_0),
        ok_prefix(rs) =~= Seq::new(k as nat, |i: int| rs[i]->Ok_0),
    decreases k,
{
    if k == 0 {
        assert(ok_prefix(rs) =~= Seq::new(0, |i: int| rs[i]->Ok_0));
    } else {
        lemma_early_terminal_first_err(rs.drop_first(), t, k - 1);
        assert(ok_prefix(rs) =~= Seq::new(k as nat, |i: int| rs[i]->Ok_0));
    }
}

/// Without a failure there is no early termination: when no item of `rs` is
/// an `Err`, the early terminal over `rs` is `Ok(t)` and every item passes
/// through.
pub proof fn lemma_early_terminal_no_err<X, E, T>(rs: Seq<Result<X, E>>, t: T)
    requires
        forall|i: int| 0 <= i < rs.len() ==> rs[i] is Ok,
    ensures
        early_terminal(rs, t) == Result::<T, E>::Ok(t),
        ok_prefix(rs) =~= Seq::new(rs.len(), |i: int| rs[i]->Ok_0),
    decreases rs.len(),
{
    if rs.len() > 0 {
        lemma_early_terminal_no_err(rs.drop_first(), t);
        assert(ok_prefix(rs) =~= Seq::new(rs.len(), |i: int| rs[i]->Ok_0));
    } else {
        assert(ok_prefix(rs) =~= Seq::new(rs.len(), |i: int| rs[i]->Ok_0));
    }
}

} // verus!
