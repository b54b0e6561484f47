use std::cell::Cell;

use function_compose::callable::and_then1;
use function_compose::callable::lift_async_fn1;
use function_compose::callable::lift_async_fn2;
use function_compose::callable::lift_async_fn3;
use function_compose::callable::lift_sync_fn1;
use function_compose::callable::lift_sync_fn3;
use function_compose::callable::provider_f2;
use function_compose::callable::provider_f3;
use function_compose::callable::with_args1;
use function_compose::error::FnError;

fn add_10(a: i32) -> Result<i32, FnError<String>> {
    Ok(a + 10)
}

fn add_100(a: i32) -> Result<i32, FnError<String>> {
    Ok(a + 100)
}

fn conv(e: String) -> String {
    e
}

fn err_of(msg: &str) -> FnError<String> {
    FnError {
        underlying_error: Some(msg.to_owned()),
        error_code: None,
        description: None,
    }
}

#[test]
fn test_compose_sync_functions() {
    let c = and_then1(lift_sync_fn1(add_10), lift_sync_fn1(add_100), conv);
    let result = with_args1(c, 10);
    assert_eq!(120, result.unwrap());

    let c = and_then1(
        and_then1(
            and_then1(lift_sync_fn1(add_10), lift_sync_fn1(add_100), conv),
            lift_sync_fn1(add_10),
            conv,
        ),
        lift_sync_fn1(add_100),
        conv,
    );
    let result = with_args1(c, 10);
    assert_eq!(230, result.unwrap());
}

#[test]
fn mod_test_compose_sync_functions() {
    let c = and_then1(lift_sync_fn1(add_10), lift_sync_fn1(add_100), conv);
    let result = with_args1(c, 10);
    assert_eq!(120, result.unwrap());

    let c = and_then1(
        and_then1(
            and_then1(lift_sync_fn1(add_10), lift_sync_fn1(add_100), conv),
            lift_sync_fn1(add_10),
            conv,
        ),
        lift_sync_fn1(add_100),
        conv,
    );
    let result = with_args1(c, 10);
    assert_eq!(230, result.unwrap());
}

#[test]
fn composition_short_circuits_on_upstream_failure() {
    let downstream_ran = Cell::new(false);
    let failing = |_a: i32| -> Result<i32, FnError<String>> { Err(err_of("boom")) };
    let tracking = |b: i32| -> Result<i32, FnError<String>> {
        downstream_ran.set(true);
        Ok(b)
    };
    let c = and_then1(lift_sync_fn1(failing), lift_sync_fn1(tracking), conv);
    let result = with_args1(c, 1);
    let e = result.unwrap_err();
    assert_eq!(e.underlying_error.as_deref(), Some("boom"));
    assert!(!downstream_ran.get());
}

#[test]
fn composition_applies_downstream_to_unwrapped_success() {
    let c = and_then1(lift_sync_fn1(add_100), lift_sync_fn1(add_10), conv);
    assert_eq!(112, with_args1(c, 2).unwrap());
}

#[test]
fn async_dominance_over_all_four_combinations() {
    let s1 = lift_sync_fn1(add_10);
    let s2 = lift_sync_fn1(add_100);
    assert!(!and_then1(s1, s2, conv).is_async);

    let s1 = lift_sync_fn1(add_10);
    let a2 = lift_async_fn1(add_100);
    assert!(and_then1(s1, a2, conv).is_async);

    let a1 = lift_async_fn1(add_10);
    let s2 = lift_sync_fn1(add_100);
    assert!(and_then1(a1, s2, conv).is_async);

    let a1 = lift_async_fn1(add_10);
    let a2 = lift_async_fn1(add_100);
    assert!(and_then1(a1, a2, conv).is_async);
}

#[test]
fn provide_binds_rightmost_parameter_first() {
    // Digit positions expose the binding order: the first `provide`
    // call binds c, the second binds b.
    let digits = |a: i32, b: i32, c: i32| -> Result<i32, FnError<String>> {
        Ok(a * 100 + b * 10 + c)
    };
    let c3 = lift_sync_fn3(digits);
    let c2 = provider_f3(c3, 1);
    let c1 = provider_f2(c2, 2);
    assert_eq!(321, with_args1(c1, 3).unwrap());
}

#[test]
fn provide_keeps_asynchrony_and_behavior() {
    let add3 = |a: i32, b: i32, c: i32| -> Result<i32, FnError<String>> { Ok(a + b + c) };
    let c3 = lift_async_fn3(add3);
    assert!(c3.is_async);
    let c2 = provider_f3(c3, 100);
    assert!(c2.is_async);
    let c1 = provider_f2(c2, 200);
    assert!(c1.is_async);
    assert_eq!(310, with_args1(c1, 10).unwrap());
}

#[test]
fn async_two_arg_adder_with_provide_then_sync_step() {
    // An asynchronous two-argument adder with one argument pre-bound,
    // composed with a synchronous step: (10 + 10) + 10.
    let add_async = |a: i32, b: i32| -> Result<i32, FnError<String>> { Ok(a + b) };
    let head = provider_f2(lift_async_fn2(add_async), 10);
    let c = and_then1(head, lift_sync_fn1(add_10), conv);
    assert!(c.is_async);
    assert_eq!(30, with_args1(c, 10).unwrap());
}

#[test]
fn error_type_conversion_between_steps() {
    // The downstream error payload type (u8) is constructible from the
    // upstream one (String) by an explicit rule; an upstream failure
    // comes out converted.
    let failing = |_a: i32| -> Result<i32, FnError<String>> { Err(err_of("xyz")) };
    let count = |e: String| -> u8 { e.len() as u8 };
    let widen = |b: i32| -> Result<i64, FnError<u8>> { Ok(b as i64) };
    let c = and_then1(lift_sync_fn1(failing), lift_sync_fn1(widen), count);
    let e = c;
    let result = with_args1(e, 1);
    let err = result.unwrap_err();
    assert_eq!(err.underlying_error, Some(3u8));

    let fine = |_a: i32| -> Result<i32, FnError<String>> { Ok(7) };
    let c = and_then1(lift_sync_fn1(fine), lift_sync_fn1(widen), count);
    assert_eq!(7i64, with_args1(c, 1).unwrap());
}

#[test]
fn demo_chains_behave_like_the_sample_program() {
    // add_10 alone, then longer chains, then mixed injection.
    let c = lift_sync_fn1(add_10);
    assert_eq!(20, with_args1(c, 10).unwrap());

    let add_20 = |a: i32| -> Result<i32, FnError<String>> { Ok(a + 20) };
    let c = and_then1(lift_sync_fn1(add_10), lift_sync_fn1(add_20), conv);
    assert_eq!(40, with_args1(c, 10).unwrap());

    let add_20_async = |a: i32| -> Result<i32, FnError<String>> { Ok(a + 20) };
    let c = and_then1(lift_sync_fn1(add_10), lift_async_fn1(add_20_async), conv);
    assert!(c.is_async);
    assert_eq!(40, with_args1(c, 10).unwrap());

    let add_async = |a: i32, b: i32| -> Result<i32, FnError<String>> { Ok(a + b) };
    let c = and_then1(
        lift_sync_fn1(add_10),
        provider_f2(lift_async_fn2(add_async), 10),
        conv,
    );
    assert_eq!(30, with_args1(c, 10).unwrap());

    let add3 = |a: i32, b: i32, c: i32| -> Result<i32, FnError<String>> { Ok(a + b + c) };
    let head = provider_f2(provider_f3(lift_async_fn3(add3), 10), 10);
    let c = and_then1(head, lift_sync_fn1(add_10), conv);
    assert_eq!(40, with_args1(c, 10).unwrap());

    let add3_ref = |a: &i32, b: &i32, c: &i32| -> Result<i32, FnError<String>> { Ok(a + b + c) };
    let one = &1;
    let head = provider_f2(provider_f3(lift_async_fn3(add3_ref), one), one);
    let tail = provider_f2(provider_f3(lift_async_fn3(add3), 1), 1);
    let c = and_then1(head, tail, conv);
    assert_eq!(14, with_args1(c, &10).unwrap());
}
