//! Spec-level helpers for reasoning about caller-supplied function values.

use vstd::prelude::*;

verus! {

/// A function value is precise when it may be called on every argument and its
/// contract admits exactly one result per argument.
///
/// Combinators that carry a caller-supplied function require this: it makes
/// the function value a mathematical map, [`spec_apply`], over which the
/// combinator's own items and terminal can be stated.
pub open spec fn fn_precise<F, A, B>(f: F) -> bool where F: Fn(A) -> B {
    &&& forall|a: A| #[trigger] call_requires(f, (a,))
    &&& forall|a: A, b1: B, b2: B|
        #[trigger] call_ensures(f, (a,), b1) && #[trigger] call_ensures(f, (a,), b2) ==> b1 == b2
}

/// The unique result that a precise function value returns for `a`.
pub open spec fn spec_apply<F, A, B>(f: F, a: A) -> B where F: Fn(A) -> B {
    choose|b: B| call_ensures(f, (a,), b)
}

/// Any result an actual call of a precise function produced is `spec_apply`.
pub proof fn lemma_spec_apply<F, A, B>(f: F, a: A, b: B) where F: Fn(A) -> B
    requires
        fn_precise::<F, A, B>(f),
        call_ensures(f, (a,), b),
    ensures
        b == spec_apply(f, a),
{
    assert(exists|b2: B| call_ensures(f, (a,), b2));
}

} // verus!
