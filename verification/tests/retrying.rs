use function_compose::callable::provider_f2;
use function_compose::callable::provider_f3;
use function_compose::callable::with_args1;
use function_compose::error::FnError;
use function_compose::retry::lift_retry_fn1;
use function_compose::retry::lift_retry_fn3;
use function_compose::retry::retry_with_state;
use function_compose::retry::DelaySchedule;
use function_compose::retry::RetryPolicy;

fn err_of(msg: &str) -> FnError<String> {
    FnError {
        underlying_error: Some(msg.to_owned()),
        error_code: None,
        description: None,
    }
}

fn no_sleep(_millis: u64) {}

// A function that fails while its attempt counter is below `threshold`
// and succeeds thereafter, counting every invocation in its state.
fn flaky(threshold: u64) -> impl Fn(u64) -> (u64, Result<i32, FnError<String>>) {
    move |count: u64| {
        if count < threshold {
            (count + 1, Err(err_of("flaky")))
        } else {
            (count + 1, Ok(42))
        }
    }
}

#[test]
fn retry_returns_immediately_on_first_success() {
    let policy = RetryPolicy::fixed(100, 5);
    let always_ok = |count: u64| (count + 1, Ok::<i32, FnError<String>>(7));
    let (state, attempts, result) = retry_with_state(&policy, always_ok, 0, no_sleep);
    assert_eq!(attempts, 1);
    assert_eq!(state, 1);
    assert_eq!(result.unwrap(), 7);
}

#[test]
fn retry_succeeds_within_budget() {
    // Fails twice, succeeds on the third attempt; two extra attempts
    // are budgeted, so the success is returned after exactly three
    // invocations.
    let policy = RetryPolicy::fixed(1, 2);
    let (state, attempts, result) = retry_with_state(&policy, flaky(2), 0, no_sleep);
    assert_eq!(attempts, 3);
    assert_eq!(state, 3);
    assert_eq!(result.unwrap(), 42);
}

#[test]
fn retry_exhausts_budget_and_returns_last_failure() {
    // Needs four attempts to succeed but only three are budgeted.
    let policy = RetryPolicy::fixed(1, 2);
    let (state, attempts, result) = retry_with_state(&policy, flaky(3), 0, no_sleep);
    assert_eq!(attempts, 3);
    assert_eq!(state, 3);
    let e = result.unwrap_err();
    assert_eq!(e.underlying_error.as_deref(), Some("flaky"));
}

#[test]
fn retry_sleeps_the_configured_delays_between_attempts() {
    let policy = RetryPolicy::exponential(2, 3, 3);
    // The delays are observable through the sleep primitive: record
    // them in the state instead, by a function that also fails until
    // the budget is nearly spent.
    assert_eq!(policy.delay_after(1), 2);
    assert_eq!(policy.delay_after(2), 6);
    assert_eq!(policy.delay_after(3), 18);
    let fixed = RetryPolicy::fixed(100, 2);
    assert_eq!(fixed.delay_after(1), 100);
    assert_eq!(fixed.delay_after(2), 100);
}

#[test]
fn exponential_delay_saturates() {
    let policy = RetryPolicy {
        schedule: DelaySchedule::Exponential {
            initial_millis: u64::MAX / 2,
            factor: 3,
        },
        max_retries: 4,
    };
    assert_eq!(policy.delay_after(2), u64::MAX);
    assert_eq!(policy.delay_after(3), u64::MAX);
}

#[test]
fn retryable_step_composes_like_any_other() {
    // A three-argument function that fails while its internal counter
    // is below 2, wrapped with a budget of 2 extra attempts, two
    // shared references pre-bound, invoked with a reference to 10:
    // the pipeline yields 10 + 1 + 1.
    let policy = RetryPolicy::fixed(1, 2);
    let adder = |count: u64, a: &i32, b: &i32, c: &i32| {
        if count < 2 {
            (count + 1, Err(err_of("not yet")))
        } else {
            (count + 1, Ok::<i32, FnError<String>>(*a + *b + *c))
        }
    };
    let one = &1;
    let step = lift_retry_fn3(policy, adder, 0, no_sleep, false);
    let with_c = provider_f3(step, one);
    let with_b = provider_f2(with_c, one);
    let result = with_args1(with_b, &10);
    assert_eq!(12, result.unwrap());

    // The same function under the same policy is invoked exactly three
    // times: twice failing, once succeeding.
    let (state, attempts, result) = function_compose::retry::retry_with_state3(
        &policy, adder, 0, &10, one, one, no_sleep,
    );
    assert_eq!(attempts, 3);
    assert_eq!(state, 3);
    assert_eq!(result.unwrap(), 12);
}

#[test]
fn retryable_unary_step_exhausts_like_the_executor() {
    let policy = RetryPolicy::fixed(1, 1);
    let stubborn = |count: u64, _a: i32| (count + 1, Err::<i32, _>(err_of("never")));
    let step = lift_retry_fn1(policy, stubborn, 0, no_sleep, false);
    let result = with_args1(step, 5);
    assert_eq!(result.unwrap_err().underlying_error.as_deref(), Some("never"));
}
