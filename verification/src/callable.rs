//! The uniform callable representation and the combinators over it:
//! lifting, sequential composition, and partial application (injection).
//!
//! A callable is a single-shot function value paired with an `is_async`
//! tag.  Execution in this crate is always immediate; the tag records
//! whether the step stands for a suspended computation, so that a driver
//! embedding a pipeline into an asynchronous host can decide where to
//! suspend.  Composition combines the tags by disjunction: a chain is
//! asynchronous exactly when some step is.

use vstd::prelude::*;

use crate::error::FnError;
use crate::error::fn_error_converted;
use crate::error::to_fn_error;

verus! {

/// A one-argument callable: a single-shot function from `A` to
/// `Result<T, FnError<E>>`, tagged with its asynchrony.
pub struct Callable1<F> {
    pub func: F,
    pub is_async: bool,
}

/// Lifts a plain synchronous one-argument function into the uniform
/// representation.  Pure identity wrapping: no error translation, no
/// behaviour change.
pub fn lift_sync_fn1<A, T, E, F: FnOnce(A) -> Result<T, FnError<E>>>(f: F) -> (r: Callable1<F>)
    ensures
        r.func == f,
        r.is_async == false,
{
    Callable1 { func: f, is_async: false }
}

/// Lifts a one-argument function that stands for a suspended computation.
/// Identical wrapping, but the callable is tagged asynchronous.
pub fn lift_async_fn1<A, T, E, F: FnOnce(A) -> Result<T, FnError<E>>>(f: F) -> (r: Callable1<F>)
    ensures
        r.func == f,
        r.is_async == true,
{
    Callable1 { func: f, is_async: true }
}

/// The possible outcomes of running `upstream` and, on success, feeding
/// the value to `downstream`; on upstream failure the error is converted
/// with `conv` and `downstream` is never consulted.
pub open spec fn compose_post<
    A,
    B,
    C,
    E1,
    E2,
    F: FnOnce(A) -> Result<B, FnError<E1>>,
    G: FnOnce(B) -> Result<C, FnError<E2>>,
    CV: FnOnce(E1) -> E2,
>(f: F, g: G, conv: CV, a: A, r: Result<C, FnError<E2>>) -> bool {
    ||| (exists|b: B|
        call_ensures(f, (a,), Result::<B, FnError<E1>>::Ok(b)) && call_ensures(g, (b,), r))
    ||| (exists|e: FnError<E1>, e2: FnError<E2>|
        call_ensures(f, (a,), Result::<B, FnError<E1>>::Err(e)) && fn_error_converted(conv, e, e2)
            && r == Result::<C, FnError<E2>>::Err(e2))
}

/// The inputs on which a composition of `f` with `g` (under error
/// converter `conv`) may be invoked: `f` accepts the input, `g` accepts
/// every value `f` can succeed with, and `conv` accepts every payload
/// `f` can fail with.
pub open spec fn compose_pre<
    A,
    B,
    C,
    E1,
    E2,
    F: FnOnce(A) -> Result<B, FnError<E1>>,
    G: FnOnce(B) -> Result<C, FnError<E2>>,
    CV: FnOnce(E1) -> E2,
>(f: F, g: G, conv: CV, a: A) -> bool {
    &&& call_requires(f, (a,))
    &&& forall|b: B|
        call_ensures(f, (a,), Result::<B, FnError<E1>>::Ok(b)) ==> call_requires(g, (b,))
    &&& forall|e: FnError<E1>|
        call_ensures(f, (a,), Result::<B, FnError<E1>>::Err(e)) && e.underlying_error is Some
            ==> call_requires(conv, (e.underlying_error->0,))
}

/// Sequential composition: the result invokes `upstream`, short-circuits
/// on its error (converted through `conv`), and otherwise invokes
/// `downstream` on the unwrapped value.  The composed callable is
/// asynchronous exactly when one of the two inputs is.
pub fn and_then1<
    A,
    B,
    C,
    E1,
    E2,
    F: FnOnce(A) -> Result<B, FnError<E1>>,
    G: FnOnce(B) -> Result<C, FnError<E2>>,
    CV: FnOnce(E1) -> E2,
>(upstream: Callable1<F>, downstream: Callable1<G>, conv: CV) -> (r: Callable1<
    impl FnOnce(A) -> Result<C, FnError<E2>>,
>)
    ensures
        r.is_async == (upstream.is_async || downstream.is_async),
        forall|a: A|
            compose_pre(upstream.func, downstream.func, conv, a) ==> call_requires(r.func, (a,)),
        forall|a: A, out: Result<C, FnError<E2>>|
            call_ensures(r.func, (a,), out) ==> compose_post(
                upstream.func,
                downstream.func,
                conv,
                a,
                out,
            ),
{
    let u = upstream.func;
    let d = downstream.func;
    let is_async = upstream.is_async || downstream.is_async;
    let composed = move |x: A| -> (out: Result<C, FnError<E2>>)
        requires
            compose_pre(u, d, conv, x),
        ensures
            compose_post(u, d, conv, x, out),
        {
            match (u)(x) {
                Result::Ok(b) => (d)(b),
                Result::Err(e) => Result::Err(to_fn_error(e, conv)),
            }
        };
    Callable1 { func: composed, is_async }
}

/// A two-argument callable; see [`Callable1`].
pub struct Callable2<F> {
    pub func: F,
    pub is_async: bool,
}

/// A three-argument callable; see [`Callable1`].
pub struct Callable3<F> {
    pub func: F,
    pub is_async: bool,
}

/// A four-argument callable; see [`Callable1`].
pub struct Callable4<F> {
    pub func: F,
    pub is_async: bool,
}

/// Lifts a plain synchronous two-argument function.
pub fn lift_sync_fn2<A1, A2, T, E, F: FnOnce(A1, A2) -> Result<T, FnError<E>>>(f: F) -> (r:
    Callable2<F>)
    ensures
        r.func == f,
        r.is_async == false,
{
    Callable2 { func: f, is_async: false }
}

/// Lifts a two-argument function standing for a suspended computation.
pub fn lift_async_fn2<A1, A2, T, E, F: FnOnce(A1, A2) -> Result<T, FnError<E>>>(f: F) -> (r:
    Callable2<F>)
    ensures
        r.func == f,
        r.is_async == true,
{
    Callable2 { func: f, is_async: true }
}

/// Lifts a plain synchronous three-argument function.
pub fn lift_sync_fn3<A1, A2, A3, T, E, F: FnOnce(A1, A2, A3) -> Result<T, FnError<E>>>(f: F) -> (r:
    Callable3<F>)
    ensures
        r.func == f,
        r.is_async == false,
{
    Callable3 { func: f, is_async: false }
}

/// Lifts a three-argument function standing for a suspended computation.
pub fn lift_async_fn3<A1, A2, A3, T, E, F: FnOnce(A1, A2, A3) -> Result<T, FnError<E>>>(f: F) -> (r:
    Callable3<F>)
    ensures
        r.func == f,
        r.is_async == true,
{
    Callable3 { func: f, is_async: true }
}

/// Lifts a plain synchronous four-argument function.
pub fn lift_sync_fn4<A1, A2, A3, A4, T, E, F: FnOnce(A1, A2, A3, A4) -> Result<T, FnError<E>>>(
    f: F,
) -> (r: Callable4<F>)
    ensures
        r.func == f,
        r.is_async == false,
{
    Callable4 { func: f, is_async: false }
}

/// Lifts a four-argument function standing for a suspended computation.
pub fn lift_async_fn4<A1, A2, A3, A4, T, E, F: FnOnce(A1, A2, A3, A4) -> Result<T, FnError<E>>>(
    f: F,
) -> (r: Callable4<F>)
    ensures
        r.func == f,
        r.is_async == true,
{
    Callable4 { func: f, is_async: true }
}

/// Injects the last argument of a two-argument callable, yielding a
/// one-argument callable that invokes the original with the bound value
/// appended.  The bound value must be shareable across the eventual
/// invocation boundary.
pub fn provider_f2<A1, P, T, E, F: FnOnce(A1, P) -> Result<T, FnError<E>>>(
    fn1: Callable2<F>,
    provided_data: P,
) -> (r: Callable1<impl FnOnce(A1) -> Result<T, FnError<E>>>) where P: Send + Sync
    ensures
        r.is_async == fn1.is_async,
        forall|a1: A1| call_requires(fn1.func, (a1, provided_data)) ==> call_requires(r.func, (a1,)),
        forall|a1: A1, out: Result<T, FnError<E>>|
            call_ensures(r.func, (a1,), out) ==> call_ensures(fn1.func, (a1, provided_data), out),
{
    let f = fn1.func;
    let is_async = fn1.is_async;
    let bound = move |a1: A1| -> (out: Result<T, FnError<E>>)
        requires
            call_requires(f, (a1, provided_data)),
        ensures
            call_ensures(f, (a1, provided_data), out),
        { (f)(a1, provided_data) };
    Callable1 { func: bound, is_async }
}

/// Injects the last argument of a three-argument callable.
pub fn provider_f3<A1, A2, P, T, E, F: FnOnce(A1, A2, P) -> Result<T, FnError<E>>>(
    fn1: Callable3<F>,
    provided_data: P,
) -> (r: Callable2<impl FnOnce(A1, A2) -> Result<T, FnError<E>>>) where P: Send + Sync
    ensures
        r.is_async == fn1.is_async,
        forall|a1: A1, a2: A2|
            call_requires(fn1.func, (a1, a2, provided_data)) ==> call_requires(r.func, (a1, a2)),
        forall|a1: A1, a2: A2, out: Result<T, FnError<E>>|
            call_ensures(r.func, (a1, a2), out) ==> call_ensures(
                fn1.func,
                (a1, a2, provided_data),
                out,
            ),
{
    let f = fn1.func;
    let is_async = fn1.is_async;
    let bound = move |a1: A1, a2: A2| -> (out: Result<T, FnError<E>>)
        requires
            call_requires(f, (a1, a2, provided_data)),
        ensures
            call_ensures(f, (a1, a2, provided_data), out),
        { (f)(a1, a2, provided_data) };
    Callable2 { func: bound, is_async }
}

/// Injects the last argument of a four-argument callable.
pub fn provider_f4<A1, A2, A3, P, T, E, F: FnOnce(A1, A2, A3, P) -> Result<T, FnError<E>>>(
    fn1: Callable4<F>,
    provided_data: P,
) -> (r: Callable3<impl FnOnce(A1, A2, A3) -> Result<T, FnError<E>>>) where P: Send + Sync
    ensures
        r.is_async == fn1.is_async,
        forall|a1: A1, a2: A2, a3: A3|
            call_requires(fn1.func, (a1, a2, a3, provided_data)) ==> call_requires(
                r.func,
                (a1, a2, a3),
            ),
        forall|a1: A1, a2: A2, a3: A3, out: Result<T, FnError<E>>|
            call_ensures(r.func, (a1, a2, a3), out) ==> call_ensures(
                fn1.func,
                (a1, a2, a3, provided_data),
                out,
            ),
{
    let f = fn1.func;
    let is_async = fn1.is_async;
    let bound = move |a1: A1, a2: A2, a3: A3| -> (out: Result<T, FnError<E>>)
        requires
            call_requires(f, (a1, a2, a3, provided_data)),
        ensures
            call_ensures(f, (a1, a2, a3, provided_data), out),
        { (f)(a1, a2, a3, provided_data) };
    Callable3 { func: bound, is_async }
}

/// A five-argument callable; see [`Callable1`].
pub struct Callable5<F> {
    pub func: F,
    pub is_async: bool,
}

/// A six-argument callable; see [`Callable1`].
pub struct Callable6<F> {
    pub func: F,
    pub is_async: bool,
}

/// A seven-argument callable; see [`Callable1`].
pub struct Callable7<F> {
    pub func: F,
    pub is_async: bool,
}

/// A eight-argument callable; see [`Callable1`].
pub struct Callable8<F> {
    pub func: F,
    pub is_async: bool,
}

/// Lifts a plain synchronous 5-argument function.
pub fn lift_sync_fn5<A1, A2, A3, A4, A5, T, E, F: FnOnce(A1, A2, A3, A4, A5) -> Result<T, FnError<E>>>(f: F) -> (r:
    Callable5<F>)
    ensures
        r.func == f,
        r.is_async == false,
{
    Callable5 { func: f, is_async: false }
}

/// Lifts a 5-argument function standing for a suspended computation.
pub fn lift_async_fn5<A1, A2, A3, A4, A5, T, E, F: FnOnce(A1, A2, A3, A4, A5) -> Result<T, FnError<E>>>(f: F) -> (r:
    Callable5<F>)
    ensures
        r.func == f,
        r.is_async == true,
{
    Callable5 { func: f, is_async: true }
}

/// Lifts a plain synchronous 6-argument function.
pub fn lift_sync_fn6<A1, A2, A3, A4, A5, A6, T, E, F: FnOnce(A1, A2, A3, A4, A5, A6) -> Result<T, FnError<E>>>(f: F) -> (r:
    Callable6<F>)
    ensures
        r.func == f,
        r.is_async == false,
{
    Callable6 { func: f, is_async: false }
}

/// Lifts a 6-argument function standing for a suspended computation.
pub fn lift_async_fn6<A1, A2, A3, A4, A5, A6, T, E, F: FnOnce(A1, A2, A3, A4, A5, A6) -> Result<T, FnError<E>>>(f: F) -> (r:
    Callable6<F>)
    ensures
        r.func == f,
        r.is_async == true,
{
    Callable6 { func: f, is_async: true }
}

/// Lifts a plain synchronous 7-argument function.
pub fn lift_sync_fn7<A1, A2, A3, A4, A5, A6, A7, T, E, F: FnOnce(A1, A2, A3, A4, A5, A6, A7) -> Result<T, FnError<E>>>(f: F) -> (r:
    Callable7<F>)
    ensures
        r.func == f,
        r.is_async == false,
{
    Callable7 { func: f, is_async: false }
}

/// Lifts a 7-argument function standing for a suspended computation.
pub fn lift_async_fn7<A1, A2, A3, A4, A5, A6, A7, T, E, F: FnOnce(A1, A2, A3, A4, A5, A6, A7) -> Result<T, FnError<E>>>(f: F) -> (r:
    Callable7<F>)
    ensures
        r.func == f,
        r.is_async == true,
{
    Callable7 { func: f, is_async: true }
}

/// Lifts a plain synchronous 8-argument function.
pub fn lift_sync_fn8<A1, A2, A3, A4, A5, A6, A7, A8, T, E, F: FnOnce(A1, A2, A3, A4, A5, A6, A7, A8) -> Result<T, FnError<E>>>(f: F) -> (r:
    Callable8<F>)
    ensures
        r.func == f,
        r.is_async == false,
{
    Callable8 { func: f, is_async: false }
}

/// Lifts a 8-argument function standing for a suspended computation.
pub fn lift_async_fn8<A1, A2, A3, A4, A5, A6, A7, A8, T, E, F: FnOnce(A1, A2, A3, A4, A5, A6, A7, A8) -> Result<T, FnError<E>>>(f: F) -> (r:
    Callable8<F>)
    ensures
        r.func == f,
        r.is_async == true,
{
    Callable8 { func: f, is_async: true }
}

/// Injects the last argument of a 5-argument callable.
pub fn provider_f5<A1, A2, A3, A4, P, T, E, F: FnOnce(A1, A2, A3, A4, P) -> Result<T, FnError<E>>>(
    fn1: Callable5<F>,
    provided_data: P,
) -> (r: Callable4<impl FnOnce(A1, A2, A3, A4) -> Result<T, FnError<E>>>) where P: Send + Sync
    ensures
        r.is_async == fn1.is_async,
        forall|a1: A1, a2: A2, a3: A3, a4: A4|
            call_requires(fn1.func, (a1, a2, a3, a4, provided_data)) ==> call_requires(
                r.func,
                (a1, a2, a3, a4),
            ),
        forall|a1: A1, a2: A2, a3: A3, a4: A4, out: Result<T, FnError<E>>|
            call_ensures(r.func, (a1, a2, a3, a4), out) ==> call_ensures(
                fn1.func,
                (a1, a2, a3, a4, provided_data),
                out,
            ),
{
    let f = fn1.func;
    let is_async = fn1.is_async;
    let bound = move |a1: A1, a2: A2, a3: A3, a4: A4| -> (out: Result<T, FnError<E>>)
        requires
            call_requires(f, (a1, a2, a3, a4, provided_data)),
        ensures
            call_ensures(f, (a1, a2, a3, a4, provided_data), out),
        { (f)(a1, a2, a3, a4, provided_data) };
    Callable4 { func: bound, is_async }
}

/// Injects the last argument of a 6-argument callable.
pub fn provider_f6<A1, A2, A3, A4, A5, P, T, E, F: FnOnce(A1, A2, A3, A4, A5, P) -> Result<T, FnError<E>>>(
    fn1: Callable6<F>,
    provided_data: P,
) -> (r: Callable5<impl FnOnce(A1, A2, A3, A4, A5) -> Result<T, FnError<E>>>) where P: Send + Sync
    ensures
        r.is_async == fn1.is_async,
        forall|a1: A1, a2: A2, a3: A3, a4: A4, a5: A5|
            call_requires(fn1.func, (a1, a2, a3, a4, a5, provided_data)) ==> call_requires(
                r.func,
                (a1, a2, a3, a4, a5),
            ),
        forall|a1: A1, a2: A2, a3: A3, a4: A4, a5: A5, out: Result<T, FnError<E>>|
            call_ensures(r.func, (a1, a2, a3, a4, a5), out) ==> call_ensures(
                fn1.func,
                (a1, a2, a3, a4, a5, provided_data),
                out,
            ),
{
    let f = fn1.func;
    let is_async = fn1.is_async;
    let bound = move |a1: A1, a2: A2, a3: A3, a4: A4, a5: A5| -> (out: Result<T, FnError<E>>)
        requires
            call_requires(f, (a1, a2, a3, a4, a5, provided_data)),
        ensures
            call_ensures(f, (a1, a2, a3, a4, a5, provided_data), out),
        { (f)(a1, a2, a3, a4, a5, provided_data) };
    Callable5 { func: bound, is_async }
}

/// Injects the last argument of a 7-argument callable.
pub fn provider_f7<A1, A2, A3, A4, A5, A6, P, T, E, F: FnOnce(A1, A2, A3, A4, A5, A6, P) -> Result<T, FnError<E>>>(
    fn1: Callable7<F>,
    provided_data: P,
) -> (r: Callable6<impl FnOnce(A1, A2, A3, A4, A5, A6) -> Result<T, FnError<E>>>) where P: Send + Sync
    ensures
        r.is_async == fn1.is_async,
        forall|a1: A1, a2: A2, a3: A3, a4: A4, a5: A5, a6: A6|
            call_requires(fn1.func, (a1, a2, a3, a4, a5, a6, provided_data)) ==> call_requires(
                r.func,
                (a1, a2, a3, a4, a5, a6),
            ),
        forall|a1: A1, a2: A2, a3: A3, a4: A4, a5: A5, a6: A6, out: Result<T, FnError<E>>|
            call_ensures(r.func, (a1, a2, a3, a4, a5, a6), out) ==> call_ensures(
                fn1.func,
                (a1, a2, a3, a4, a5, a6, provided_data),
                out,
            ),
{
    let f = fn1.func;
    let is_async = fn1.is_async;
    let bound = move |a1: A1, a2: A2, a3: A3, a4: A4, a5: A5, a6: A6| -> (out: Result<T, FnError<E>>)
        requires
            call_requires(f, (a1, a2, a3, a4, a5, a6, provided_data)),
        ensures
            call_ensures(f, (a1, a2, a3, a4, a5, a6, provided_data), out),
        { (f)(a1, a2, a3, a4, a5, a6, provided_data) };
    Callable6 { func: bound, is_async }
}

/// Injects the last argument of a 8-argument callable.
pub fn provider_f8<A1, A2, A3, A4, A5, A6, A7, P, T, E, F: FnOnce(A1, A2, A3, A4, A5, A6, A7, P) -> Result<T, FnError<E>>>(
    fn1: Callable8<F>,
    provided_data: P,
) -> (r: Callable7<impl FnOnce(A1, A2, A3, A4, A5, A6, A7) -> Result<T, FnError<E>>>) where P: Send + Sync
    ensures
        r.is_async == fn1.is_async,
        forall|a1: A1, a2: A2, a3: A3, a4: A4, a5: A5, a6: A6, a7: A7|
            call_requires(fn1.func, (a1, a2, a3, a4, a5, a6, a7, provided_data)) ==> call_requires(
                r.func,
                (a1, a2, a3, a4, a5, a6, a7),
            ),
        forall|a1: A1, a2: A2, a3: A3, a4: A4, a5: A5, a6: A6, a7: A7, out: Result<T, FnError<E>>|
            call_ensures(r.func, (a1, a2, a3, a4, a5, a6, a7), out) ==> call_ensures(
                fn1.func,
                (a1, a2, a3, a4, a5, a6, a7, provided_data),
                out,
            ),
{
    let f = fn1.func;
    let is_async = fn1.is_async;
    let bound = move |a1: A1, a2: A2, a3: A3, a4: A4, a5: A5, a6: A6, a7: A7| -> (out: Result<T, FnError<E>>)
        requires
            call_requires(f, (a1, a2, a3, a4, a5, a6, a7, provided_data)),
        ensures
            call_ensures(f, (a1, a2, a3, a4, a5, a6, a7, provided_data), out),
        { (f)(a1, a2, a3, a4, a5, a6, a7, provided_data) };
    Callable7 { func: bound, is_async }
}

/// Invokes a one-argument callable on `with_args`-supplied input; the
/// terminal action of a composed pipeline.
pub fn with_args1<A, T, E, F: FnOnce(A) -> Result<T, FnError<E>>>(c: Callable1<F>, a: A) -> (r:
    Result<T, FnError<E>>)
    requires
        call_requires(c.func, (a,)),
    ensures
        call_ensures(c.func, (a,), r),
{
    (c.func)(a)
}

/// Invokes a two-argument callable on a pair of entry arguments.
pub fn with_args2<A1, A2, T, E, F: FnOnce(A1, A2) -> Result<T, FnError<E>>>(
    c: Callable2<F>,
    a1: A1,
    a2: A2,
) -> (r: Result<T, FnError<E>>)
    requires
        call_requires(c.func, (a1, a2)),
    ensures
        call_ensures(c.func, (a1, a2), r),
{
    (c.func)(a1, a2)
}

/// Invokes a three-argument callable on a triple of entry arguments.
pub fn with_args3<A1, A2, A3, T, E, F: FnOnce(A1, A2, A3) -> Result<T, FnError<E>>>(
    c: Callable3<F>,
    a1: A1,
    a2: A2,
    a3: A3,
) -> (r: Result<T, FnError<E>>)
    requires
        call_requires(c.func, (a1, a2, a3)),
    ensures
        call_ensures(c.func, (a1, a2, a3), r),
{
    (c.func)(a1, a2, a3)
}

} // verus!
