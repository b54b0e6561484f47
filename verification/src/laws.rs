//! Laws of the combinators, proved once and for all callables.

use vstd::prelude::*;

use crate::callable::compose_post;
use crate::error::FnError;
use crate::error::fn_error_converted;

verus! {

/// When the upstream function deterministically succeeds with `b0` on
/// input `a`, a composition outcome for `a` is exactly an outcome of the
/// downstream function on `b0`: composition applies the second function
/// to the first one's unwrapped result.
pub proof fn lemma_compose_success<
    A,
    B,
    C,
    E1,
    E2,
    F: FnOnce(A) -> Result<B, FnError<E1>>,
    G: FnOnce(B) -> Result<C, FnError<E2>>,
    CV: FnOnce(E1) -> E2,
>(f: F, g: G, conv: CV, a: A, b0: B, r: Result<C, FnError<E2>>)
    requires
        forall|out: Result<B, FnError<E1>>|
            call_ensures(f, (a,), out) ==> out == Result::<B, FnError<E1>>::Ok(b0),
        compose_post(f, g, conv, a, r),
    ensures
        call_ensures(g, (b0,), r),
{
    if exists|b: B|
        call_ensures(f, (a,), Result::<B, FnError<E1>>::Ok(b)) && call_ensures(g, (b,), r) {
        let b = choose|b: B|
            call_ensures(f, (a,), Result::<B, FnError<E1>>::Ok(b)) && call_ensures(g, (b,), r);
        assert(b == b0);
    } else {
        let (e, e2) = choose|e: FnError<E1>, e2: FnError<E2>|
            call_ensures(f, (a,), Result::<B, FnError<E1>>::Err(e)) && fn_error_converted(
                conv,
                e,
                e2,
            ) && r == Result::<C, FnError<E2>>::Err(e2);
        assert(false);
    }
}

/// When the upstream function deterministically fails with `e0` on input
/// `a`, a composition outcome for `a` is `e0` converted downstream — the
/// downstream function is never consulted.
pub proof fn lemma_compose_failure<
    A,
    B,
    C,
    E1,
    E2,
    F: FnOnce(A) -> Result<B, FnError<E1>>,
    G: FnOnce(B) -> Result<C, FnError<E2>>,
    CV: FnOnce(E1) -> E2,
>(f: F, g: G, conv: CV, a: A, e0: FnError<E1>, r: Result<C, FnError<E2>>)
    requires
        forall|out: Result<B, FnError<E1>>|
            call_ensures(f, (a,), out) ==> out == Result::<B, FnError<E1>>::Err(e0),
        compose_post(f, g, conv, a, r),
    ensures
        r is Err,
        fn_error_converted(conv, e0, r->Err_0),
{
    if exists|b: B|
        call_ensures(f, (a,), Result::<B, FnError<E1>>::Ok(b)) && call_ensures(g, (b,), r) {
        let b = choose|b: B|
            call_ensures(f, (a,), Result::<B, FnError<E1>>::Ok(b)) && call_ensures(g, (b,), r);
        assert(false);
    } else {
        let (e, e2) = choose|e: FnError<E1>, e2: FnError<E2>|
            call_ensures(f, (a,), Result::<B, FnError<E1>>::Err(e)) && fn_error_converted(
                conv,
                e,
                e2,
            ) && r == Result::<C, FnError<E2>>::Err(e2);
        assert(e == e0);
    }
}

/// Injecting twice into a three-argument function binds the rightmost
/// parameter first: an outcome of the doubly-reduced unary function on
/// `a` is an outcome of the original on `(a, v2, v1)`, where `v1` was
/// bound first and `v2` second.
pub proof fn lemma_provide_twice<
    A1,
    P2,
    P1,
    T,
    E,
    F: FnOnce(A1, P2, P1) -> Result<T, FnError<E>>,
    G: FnOnce(A1, P2) -> Result<T, FnError<E>>,
    H: FnOnce(A1) -> Result<T, FnError<E>>,
>(f: F, g: G, h: H, v1: P1, v2: P2, a: A1, out: Result<T, FnError<E>>)
    requires
        forall|x1: A1, x2: P2, o: Result<T, FnError<E>>|
            call_ensures(g, (x1, x2), o) ==> call_ensures(f, (x1, x2, v1), o),
        forall|x1: A1, o: Result<T, FnError<E>>|
            call_ensures(h, (x1,), o) ==> call_ensures(g, (x1, v2), o),
        call_ensures(h, (a,), out),
    ensures
        call_ensures(f, (a, v2, v1), out),
{
}

} // verus!
