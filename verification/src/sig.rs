//! Signature analysis: the build-time pass that inspects a function
//! declaration and derives the metadata the composition layer needs —
//! arity, asynchrony, retryability, and which parameters must be guarded
//! during retry — together with the deterministic names of the artifacts
//! generated for the function.

use vstd::prelude::*;

use crate::retry::RetryPolicy;

verus! {

/// How a parameter of a declared function receives its value.
#[derive(Clone, Copy, PartialEq, Eq, Structural, Debug)]
pub enum ParamKind {
    /// A receiver (`self`-style) parameter; excluded from the arity.
    Receiver,
    /// An owned value.
    Owned,
    /// A shared reference.
    SharedRef,
    /// An exclusive reference; guarded during retry.
    MutRef,
}

/// The shape of a declared function's return type.
#[derive(Clone, Copy, PartialEq, Eq, Structural, Debug)]
pub enum ReturnShape {
    /// A plain `Result`: a synchronous composable function.
    ResultShape,
    /// A boxed future resolving to a `Result`: an asynchronous
    /// composable function.
    BoxedFutureResult,
    /// Anything else; rejected at build time.
    Other,
}

/// A function declaration as the analysis sees it: its name, its
/// parameter list in order, its return shape, whether it carries an
/// asynchrony qualifier, and the retry policy attached at the
/// declaration site, if any.
#[derive(Debug)]
pub struct FnSignature {
    pub name: String,
    pub params: Vec<ParamKind>,
    pub ret: ReturnShape,
    pub has_async_qualifier: bool,
    pub retry: Option<RetryPolicy>,
}

/// The metadata derived from one accepted declaration.
#[derive(Debug)]
pub struct StepInfo {
    /// Number of declared parameters, excluding any receiver.
    pub arity: usize,
    /// Whether invocations stand for suspended computations: an explicit
    /// asynchrony qualifier, or a boxed-future return type.
    pub is_async: bool,
    /// Whether a retry policy is attached.
    pub is_retryable: bool,
    /// One flag per non-receiver parameter, in declaration order: `true`
    /// exactly for exclusive references, which the retry wrapper guards.
    pub mutex_guarded: Vec<bool>,
    /// The attached policy, when retryable.
    pub retry: Option<RetryPolicy>,
}

/// A build-time rejection: the declaration does not conform to the
/// composable-function contract.
#[derive(Clone, Copy, PartialEq, Eq, Structural, Debug)]
pub enum ShapeError {
    /// The return type is neither a `Result` nor a boxed future of one.
    NotAResultShape,
}

/// The parameters that count towards the arity.
pub open spec fn spec_counted_params(params: Seq<ParamKind>) -> Seq<ParamKind> {
    params.filter(|p: ParamKind| p != ParamKind::Receiver)
}

/// Whether a declaration is asynchronous: an explicit qualifier, or a
/// boxed-future return.
pub open spec fn spec_is_async(sig: FnSignature) -> bool {
    sig.has_async_qualifier || sig.ret == ReturnShape::BoxedFutureResult
}

/// Derives the composition metadata of a declared function, rejecting
/// any declaration whose return shape is not a `Result` or a boxed
/// future of one.  Arity counts the non-receiver parameters; exactly the
/// exclusive-reference parameters are marked for guarding under retry.
pub fn analyze_signature(sig: &FnSignature) -> (r: Result<StepInfo, ShapeError>)
    ensures
        r is Ok <==> sig.ret != ReturnShape::Other,
        r is Err ==> r->Err_0 == ShapeError::NotAResultShape,
        r is Ok ==> {
            let info = r->Ok_0;
            &&& info.arity == spec_counted_params(sig.params@).len()
            &&& info.is_async == spec_is_async(*sig)
            &&& info.is_retryable == (sig.retry is Some)
            &&& info.retry == sig.retry
            &&& info.mutex_guarded@ == spec_counted_params(sig.params@).map_values(
                |p: ParamKind| p == ParamKind::MutRef,
            )
        },
{
    if matches!(sig.ret, ReturnShape::Other) {
        return Result::Err(ShapeError::NotAResultShape);
    }
    let is_async = sig.has_async_qualifier || matches!(sig.ret, ReturnShape::BoxedFutureResult);
    let mut arity: usize = 0;
    let mut mutex_guarded: Vec<bool> = Vec::new();
    let mut i: usize = 0;
    while i < sig.params.len()
        invariant
            i <= sig.params@.len(),
            arity == spec_counted_params(sig.params@.take(i as int)).len(),
            mutex_guarded@ == spec_counted_params(sig.params@.take(i as int)).map_values(
                |p: ParamKind| p == ParamKind::MutRef,
            ),
        decreases sig.params@.len() - i,
    {
        proof {
            assert(sig.params@.take(i + 1 as int).drop_last() == sig.params@.take(i as int));
            reveal(Seq::filter);
        }
        let p = sig.params[i];
        if !matches!(p, ParamKind::Receiver) {
            arity = arity + 1;
            mutex_guarded.push(matches!(p, ParamKind::MutRef));
        }
        i = i + 1;
    }
    proof {
        assert(sig.params@.take(sig.params@.len() as int) == sig.params@);
    }
    let is_retryable = match &sig.retry {
        Option::Some(_) => true,
        Option::None => false,
    };
    let retry = match &sig.retry {
        Option::Some(p) => Option::Some(*p),
        Option::None => Option::None,
    };
    Result::Ok(StepInfo { arity, is_async, is_retryable, mutex_guarded, retry })
}

} // verus!
