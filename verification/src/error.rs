//! The uniform error payload carried by every composable function, and the
//! conversion rule applied when two pipeline steps use different error types.

use vstd::prelude::*;

verus! {

/// Error type carried by every callable in a pipeline.  `E` is the
/// caller-supplied payload; the code and description travel unchanged
/// through error-type conversions.
#[derive(Debug)]
pub struct FnError<E> {
    pub underlying_error: Option<E>,
    pub error_code: Option<String>,
    pub description: Option<String>,
}

/// Relates an upstream error to its converted downstream form: code and
/// description are kept, and the payload (when present) is one that the
/// converter `conv` may produce from the upstream payload.
pub open spec fn fn_error_converted<E1, E2, CV: FnOnce(E1) -> E2>(
    conv: CV,
    e1: FnError<E1>,
    e2: FnError<E2>,
) -> bool {
    &&& e2.error_code == e1.error_code
    &&& e2.description == e1.description
    &&& match (e1.underlying_error, e2.underlying_error) {
        (Option::None, Option::None) => true,
        (Option::Some(u1), Option::Some(u2)) => call_ensures(conv, (u1,), u2),
        _ => false,
    }
}

/// Converts the payload of an `FnError` with the supplied converter,
/// keeping the error code and the description.
pub fn to_fn_error<E1, E2, CV: FnOnce(E1) -> E2>(fn_error: FnError<E1>, conv: CV) -> (r: FnError<
    E2,
>)
    requires
        fn_error.underlying_error is Some ==> call_requires(
            conv,
            (fn_error.underlying_error->0,),
        ),
    ensures
        fn_error_converted(conv, fn_error, r),
{
    let underlying_error = match fn_error.underlying_error {
        Option::None => Option::None,
        Option::Some(error) => Option::Some(conv(error)),
    };
    FnError {
        description: fn_error.description,
        error_code: fn_error.error_code,
        underlying_error,
    }
}

impl From<String> for FnError<String> {
    fn from(value: String) -> (r: FnError<String>) {
        let description = value.clone();
        FnError::<String> {
            underlying_error: Option::Some(value),
            error_code: Option::None,
            description: Option::Some(description),
        }
    }
}

impl vstd::std_specs::convert::FromSpecImpl<String> for FnError<String> {
    open spec fn obeys_from_spec() -> bool {
        true
    }

    open spec fn from_spec(value: String) -> Self {
        FnError::<String> {
            underlying_error: Option::Some(value),
            error_code: Option::None,
            description: Option::Some(value),
        }
    }
}

} // verus!
