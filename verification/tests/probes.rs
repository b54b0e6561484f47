use function_compose::callable::lift_async_fn2;
use function_compose::callable::lift_sync_fn2;
use function_compose::callable::with_args2;
use function_compose::error::FnError;
use function_compose::retry::RetryPolicy;
use function_compose::sig::analyze_signature;
use function_compose::sig::FnSignature;
use function_compose::sig::ParamKind;
use function_compose::sig::ReturnShape;

fn add_retryable(a: &i32, b: &mut i32) -> Result<i32, FnError<String>> {
    Ok(*a + *b)
}

fn add(a: &i32, b: &mut i32) -> Result<i32, FnError<String>> {
    Ok(*a + *b)
}

fn add_async(a: &mut i32, b: &mut i32) -> Result<i32, FnError<String>> {
    Ok(*a + *b)
}

fn add_async_retryable(a: &mut i32, b: &mut i32) -> Result<i32, FnError<String>> {
    Ok(*a + *b)
}

fn sig_add_retryable() -> FnSignature {
    FnSignature {
        name: "add_retryable".to_owned(),
        params: vec![ParamKind::SharedRef, ParamKind::MutRef],
        ret: ReturnShape::ResultShape,
        has_async_qualifier: false,
        retry: Some(RetryPolicy::fixed(100, 2)),
    }
}

fn sig_add() -> FnSignature {
    FnSignature {
        name: "add".to_owned(),
        params: vec![ParamKind::SharedRef, ParamKind::MutRef],
        ret: ReturnShape::ResultShape,
        has_async_qualifier: false,
        retry: None,
    }
}

fn sig_add_async() -> FnSignature {
    FnSignature {
        name: "add_async".to_owned(),
        params: vec![ParamKind::MutRef, ParamKind::MutRef],
        ret: ReturnShape::BoxedFutureResult,
        has_async_qualifier: false,
        retry: None,
    }
}

fn sig_add_async_retryable() -> FnSignature {
    FnSignature {
        name: "add_async_retryable".to_owned(),
        params: vec![ParamKind::MutRef, ParamKind::MutRef],
        ret: ReturnShape::BoxedFutureResult,
        has_async_qualifier: false,
        retry: Some(RetryPolicy::fixed(100, 2)),
    }
}

#[test]
fn composeable_sync_fn_retryable_test() {
    let lifted_add = lift_sync_fn2(add_retryable);
    let info = analyze_signature(&sig_add_retryable()).unwrap();
    let is_add_async = info.is_async;
    let is_retryable = info.is_retryable;
    assert_eq!(is_add_async, false);
    assert_eq!(is_retryable, true);
    let _ = with_args2(lifted_add, &10, &mut 11);
}

#[test]
fn composeable_sync_fn_test() {
    let lifted_add = lift_sync_fn2(add);
    let info = analyze_signature(&sig_add()).unwrap();
    let is_add_async = info.is_async;
    let is_retryable = info.is_retryable;
    assert_eq!(is_add_async, false);
    assert_eq!(is_retryable, false);
    let _ = with_args2(lifted_add, &10, &mut 11);
}

#[test]
fn composeable_async_fn_test() {
    let _lifted_add = lift_async_fn2(add_async);
    let info = analyze_signature(&sig_add_async()).unwrap();
    let is_add_async = info.is_async;
    let is_retryable = info.is_retryable;
    assert_eq!(is_retryable, false);
    assert_eq!(is_add_async, true);
}

#[test]
fn composeable_async_fn_retryable_test() {
    let _lifted_add = lift_async_fn2(add_async_retryable);
    let info = analyze_signature(&sig_add_async_retryable()).unwrap();
    let is_add_async = info.is_async;
    let is_retryable = info.is_retryable;
    assert_eq!(is_retryable, true);
    assert_eq!(is_add_async, true);
}

#[test]
fn mod_composeable_sync_fn_retryable_test() {
    let lifted_add = lift_sync_fn2(add_retryable);
    let info = analyze_signature(&sig_add_retryable()).unwrap();
    assert_eq!(info.is_async, false);
    assert_eq!(info.is_retryable, true);
    assert_eq!(info.arity, 2);
    assert_eq!(info.mutex_guarded, vec![false, true]);
    let _ = with_args2(lifted_add, &10, &mut 11);
}

#[test]
fn mod_composeable_sync_fn_test() {
    let lifted_add = lift_sync_fn2(add);
    let info = analyze_signature(&sig_add()).unwrap();
    assert_eq!(info.is_async, false);
    assert_eq!(info.is_retryable, false);
    assert_eq!(info.arity, 2);
    let _ = with_args2(lifted_add, &10, &mut 11);
}

#[test]
fn mod_composeable_async_fn_test() {
    let _lifted_add = lift_async_fn2(add_async);
    let info = analyze_signature(&sig_add_async()).unwrap();
    assert_eq!(info.is_retryable, false);
    assert_eq!(info.is_async, true);
    assert_eq!(info.mutex_guarded, vec![true, true]);
}

#[test]
fn mod_composeable_async_fn_retryable_test() {
    let _lifted_add = lift_async_fn2(add_async_retryable);
    let info = analyze_signature(&sig_add_async_retryable()).unwrap();
    assert_eq!(info.is_retryable, true);
    assert_eq!(info.is_async, true);
}

#[test]
fn analyze_signature_rejects_other_return_shapes() {
    let sig = FnSignature {
        name: "not_composable".to_owned(),
        params: vec![ParamKind::Owned],
        ret: ReturnShape::Other,
        has_async_qualifier: false,
        retry: None,
    };
    assert!(analyze_signature(&sig).is_err());
}

#[test]
fn analyze_signature_skips_receiver_in_arity() {
    let sig = FnSignature {
        name: "method".to_owned(),
        params: vec![ParamKind::Receiver, ParamKind::Owned, ParamKind::MutRef],
        ret: ReturnShape::ResultShape,
        has_async_qualifier: true,
        retry: None,
    };
    let info = analyze_signature(&sig).unwrap();
    assert_eq!(info.arity, 2);
    assert!(info.is_async);
    assert_eq!(info.mutex_guarded, vec![false, true]);
}
