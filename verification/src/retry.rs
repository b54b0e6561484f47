//! Retry wrapping: a delay schedule plus an attempt budget, attached to a
//! function at declaration time, and an executor that re-invokes the
//! function on failure until it succeeds or the budget is exhausted.
//!
//! The wrapped function is given exclusive access to its mutable data by
//! moving a state value in and out of every attempt; shared inputs are
//! passed unchanged.  Waiting between attempts is delegated to a
//! caller-supplied pause primitive, since the core defines no clock of
//! its own.

use vstd::prelude::*;

use crate::callable::Callable1;
use crate::callable::Callable3;
use crate::error::FnError;

verus! {

/// How long to pause before each re-attempt, in milliseconds.
#[derive(Clone, Copy, PartialEq, Eq, Structural, Debug)]
pub enum DelaySchedule {
    /// The same pause before every re-attempt.
    Fixed { millis: u64 },
    /// A pause of `initial_millis` before the first re-attempt, then
    /// multiplied by `factor` before each further one, saturating.
    Exponential { initial_millis: u64, factor: u64 },
}

/// A retry policy: a delay schedule and a budget of re-attempts beyond
/// the first invocation.  A policy with `max_retries == 0` behaves as a
/// single plain invocation.
#[derive(Clone, Copy, PartialEq, Eq, Structural, Debug)]
pub struct RetryPolicy {
    pub schedule: DelaySchedule,
    pub max_retries: u64,
}

/// `x * y` capped at `u64::MAX`.
pub open spec fn spec_saturating_mul(x: u64, y: u64) -> u64 {
    if x * y > u64::MAX {
        u64::MAX
    } else {
        (x * y) as u64
    }
}

/// The pause taken after the `failed`-th failed attempt (`failed >= 1`).
pub open spec fn spec_delay_after(schedule: DelaySchedule, failed: nat) -> u64
    decreases failed,
{
    match schedule {
        DelaySchedule::Fixed { millis } => millis,
        DelaySchedule::Exponential { initial_millis, factor } => {
            if failed <= 1 {
                initial_millis
            } else {
                spec_saturating_mul(spec_delay_after(schedule, (failed - 1) as nat), factor)
            }
        },
    }
}

impl RetryPolicy {
    /// A policy pausing `millis` before each of up to `max_retries`
    /// re-attempts.
    pub fn fixed(millis: u64, max_retries: u64) -> (r: RetryPolicy)
        ensures
            r == (RetryPolicy { schedule: DelaySchedule::Fixed { millis }, max_retries }),
    {
        RetryPolicy { schedule: DelaySchedule::Fixed { millis }, max_retries }
    }

    /// A policy whose pauses grow geometrically by `factor`.
    pub fn exponential(initial_millis: u64, factor: u64, max_retries: u64) -> (r: RetryPolicy)
        ensures
            r == (RetryPolicy {
                schedule: DelaySchedule::Exponential { initial_millis, factor },
                max_retries,
            }),
    {
        RetryPolicy { schedule: DelaySchedule::Exponential { initial_millis, factor }, max_retries }
    }

    /// The attempt budget: the first invocation plus every re-attempt.
    pub fn total_attempts(&self) -> (r: u64)
        requires
            self.max_retries < u64::MAX,
        ensures
            r == self.max_retries + 1,
    {
        self.max_retries + 1
    }

    /// The pause taken after the `failed`-th failed attempt.
    pub fn delay_after(&self, failed: u64) -> (r: u64)
        requires
            failed >= 1,
        ensures
            r == spec_delay_after(self.schedule, failed as nat),
    {
        match self.schedule {
            DelaySchedule::Fixed { millis } => millis,
            DelaySchedule::Exponential { initial_millis, factor } => {
                let mut delay: u64 = initial_millis;
                let mut i: u64 = 1;
                while i < failed
                    invariant
                        1 <= i <= failed,
                        delay == spec_delay_after(self.schedule, i as nat),
                        self.schedule == (DelaySchedule::Exponential { initial_millis, factor }),
                    decreases failed - i,
                {
                    delay = match delay.checked_mul(factor) {
                        Option::Some(d) => d,
                        Option::None => u64::MAX,
                    };
                    i = i + 1;
                }
                delay
            },
        }
    }
}

/// `k` invocations of `f`, threading the state from `s0` to `sk`, every
/// one of which returned an error.
pub open spec fn err_chain<St, T, E, F: FnOnce(St) -> (St, Result<T, E>)>(
    f: F,
    s0: St,
    k: nat,
    sk: St,
) -> bool
    decreases k,
{
    if k == 0 {
        sk == s0
    } else {
        exists|s_prev: St, e: E|
            err_chain(f, s0, (k - 1) as nat, s_prev) && call_ensures(
                f,
                (s_prev,),
                (sk, Result::<T, E>::Err(e)),
            )
    }
}

/// `k` invocations of `f` from state `s0`: the first `k - 1` returned
/// errors, and the `k`-th returned `r`, leaving state `sk`.
pub open spec fn retry_trace<St, T, E, F: FnOnce(St) -> (St, Result<T, E>)>(
    f: F,
    s0: St,
    k: nat,
    sk: St,
    r: Result<T, E>,
) -> bool {
    k >= 1 && exists|s_prev: St|
        err_chain(f, s0, (k - 1) as nat, s_prev) && call_ensures(f, (s_prev,), (sk, r))
}

/// In a non-empty chain of failed invocations, the very first invocation
/// (from `s0`) failed.
pub proof fn lemma_err_chain_first<St, T, E, F: FnOnce(St) -> (St, Result<T, E>)>(
    f: F,
    s0: St,
    k: nat,
    sk: St,
)
    requires
        err_chain::<St, T, E, F>(f, s0, k, sk),
        k >= 1,
    ensures
        exists|s1: St, e: E| call_ensures(f, (s0,), (s1, Result::<T, E>::Err(e))),
    decreases k,
{
    if k == 1 {
        let (s_prev, e) = choose|s_prev: St, e: E|
            err_chain::<St, T, E, F>(f, s0, (k - 1) as nat, s_prev) && call_ensures(
                f,
                (s_prev,),
                (sk, Result::<T, E>::Err(e)),
            );
        assert(s_prev == s0);
    } else {
        let (s_prev, e) = choose|s_prev: St, e: E|
            err_chain::<St, T, E, F>(f, s0, (k - 1) as nat, s_prev) && call_ensures(
                f,
                (s_prev,),
                (sk, Result::<T, E>::Err(e)),
            );
        lemma_err_chain_first(f, s0, (k - 1) as nat, s_prev);
    }
}

/// Retry is transparent under success: when every invocation of `f` from
/// the starting state succeeds, a retry execution is a single plain
/// invocation — one attempt, and an outcome `f` itself could have
/// produced from the starting state.
pub proof fn lemma_retry_first_success<St, T, E, F: FnOnce(St) -> (St, Result<T, E>)>(
    f: F,
    s0: St,
    k: nat,
    sk: St,
    r: Result<T, E>,
)
    requires
        forall|s1: St, out: Result<T, E>| call_ensures(f, (s0,), (s1, out)) ==> out is Ok,
        retry_trace(f, s0, k, sk, r),
    ensures
        k == 1,
        call_ensures(f, (s0,), (sk, r)),
{
    if k > 1 {
        let s_prev = choose|s_prev: St|
            err_chain::<St, T, E, F>(f, s0, (k - 1) as nat, s_prev) && call_ensures(
                f,
                (s_prev,),
                (sk, r),
            );
        lemma_err_chain_first(f, s0, (k - 1) as nat, s_prev);
    }
}

/// A counter-driven function that fails while fewer than `kk` calls have
/// been made can only produce failure chains of length below `kk`, and
/// every chain ends with the state holding the number of calls made.
/// Only the function's behaviour below `kk` matters: no chain leaves
/// that range.
pub proof fn lemma_err_chain_counter<T, E, F: FnOnce(u64) -> (u64, Result<T, E>)>(
    f: F,
    kk: u64,
    m: nat,
    s: u64,
)
    requires
        forall|c: u64, s2: u64, out: Result<T, E>|
            c < kk && call_ensures(f, (c,), (s2, out)) ==> s2 == c + 1 && (c + 1 < kk
                ==> out is Err) && (c + 1 >= kk ==> out is Ok),
        err_chain::<u64, T, E, F>(f, 0u64, m, s),
        kk >= 1,
    ensures
        s == m,
        m >= 1 ==> m + 1 <= kk,
    decreases m,
{
    if m > 0 {
        let (s_prev, e) = choose|s_prev: u64, e: E|
            err_chain::<u64, T, E, F>(f, 0u64, (m - 1) as nat, s_prev) && call_ensures(
                f,
                (s_prev,),
                (s, Result::<T, E>::Err(e)),
            );
        lemma_err_chain_counter(f, kk, (m - 1) as nat, s_prev);
    }
}

/// Retry exhaustion, over a function that fails its first `kk - 1`
/// attempts and succeeds thereafter, counting attempts in its state.
/// With an attempt budget of at least `kk`, a retry execution returns
/// the success, on attempt `kk` exactly; with a smaller budget it
/// returns the last failure, having spent the whole budget.
pub proof fn lemma_retry_exhaustion<T, E, F: FnOnce(u64) -> (u64, Result<T, E>)>(
    f: F,
    kk: u64,
    budget: u64,
    n: u64,
    sf: u64,
    r: Result<T, E>,
)
    requires
        forall|c: u64, s2: u64, out: Result<T, E>|
            c < kk && call_ensures(f, (c,), (s2, out)) ==> s2 == c + 1 && (c + 1 < kk
                ==> out is Err) && (c + 1 >= kk ==> out is Ok),
        retry_trace(f, 0u64, n as nat, sf, r),
        1 <= n <= budget,
        r is Err ==> n == budget,
        kk >= 1,
    ensures
        budget >= kk ==> r is Ok && n == kk,
        budget < kk ==> r is Err && n == budget,
        sf == n,
{
    let s_prev = choose|s_prev: u64|
        err_chain::<u64, T, E, F>(f, 0u64, (n - 1) as nat, s_prev) && call_ensures(
            f,
            (s_prev,),
            (sf, r),
        );
    lemma_err_chain_counter(f, kk, (n - 1) as nat, s_prev);
}

/// Re-invokes `f` until it succeeds or the attempt budget is exhausted,
/// pausing with `sleep` between attempts.  Returns the final state, the
/// number of attempts performed, and the first success or the last
/// failure.  The state is moved into each attempt and taken back from
/// it, so attempts never observe a half-updated state.
pub fn retry_with_state<St, T, E, F: Fn(St) -> (St, Result<T, E>), S: Fn(u64) -> ()>(
    policy: &RetryPolicy,
    f: F,
    st0: St,
    sleep: S,
) -> (r: (St, u64, Result<T, E>))
    requires
        forall|s: St| call_requires(f, (s,)),
        forall|d: u64| call_requires(sleep, (d,)),
        policy.max_retries < u64::MAX,
    ensures
        1 <= r.1 <= policy.max_retries + 1,
        retry_trace(f, st0, r.1 as nat, r.0, r.2),
        r.2 is Err ==> r.1 == policy.max_retries + 1,
{
    let mut st = st0;
    let mut failed: u64 = 0;
    loop
        invariant
            forall|s: St| call_requires(f, (s,)),
            forall|d: u64| call_requires(sleep, (d,)),
            policy.max_retries < u64::MAX,
            failed <= policy.max_retries,
            err_chain(f, st0, failed as nat, st),
        decreases policy.max_retries - failed,
    {
        let (st2, res) = f(st);
        let attempt_no = failed + 1;
        match res {
            Result::Ok(v) => {
                proof {
                    assert(err_chain(f, st0, failed as nat, st) && call_ensures(
                        f,
                        (st,),
                        (st2, Result::<T, E>::Ok(v)),
                    ));
                }
                return (st2, attempt_no, Result::Ok(v));
            },
            Result::Err(e) => {
                if failed == policy.max_retries {
                    proof {
                        assert(err_chain(f, st0, failed as nat, st) && call_ensures(
                            f,
                            (st,),
                            (st2, Result::<T, E>::Err(e)),
                        ));
                    }
                    return (st2, attempt_no, Result::Err(e));
                }
                sleep(policy.delay_after(attempt_no));
                proof {
                    assert(err_chain(f, st0, failed as nat, st) && call_ensures(
                        f,
                        (st,),
                        (st2, Result::<T, E>::Err(e)),
                    ));
                    assert(err_chain(f, st0, (failed + 1) as nat, st2));
                }
                st = st2;
                failed = attempt_no;
            },
        }
    }
}


/// As [`err_chain`], for a one-argument function retried with the fixed
/// argument `a1`.
pub open spec fn err_chain1<St, A1, T, E, F: FnOnce(St, A1) -> (St, Result<T, E>)>(
    f: F,
    a1: A1,
    s0: St,
    k: nat,
    sk: St,
) -> bool
    decreases k,
{
    if k == 0 {
        sk == s0
    } else {
        exists|s_prev: St, e: E|
            err_chain1(f, a1, s0, (k - 1) as nat, s_prev) && call_ensures(
                f,
                (s_prev, a1),
                (sk, Result::<T, E>::Err(e)),
            )
    }
}

/// As [`retry_trace`], for a one-argument function retried with the
/// fixed argument `a1`.
pub open spec fn retry_trace1<St, A1, T, E, F: FnOnce(St, A1) -> (St, Result<T, E>)>(
    f: F,
    a1: A1,
    s0: St,
    k: nat,
    sk: St,
    r: Result<T, E>,
) -> bool {
    k >= 1 && exists|s_prev: St|
        err_chain1(f, a1, s0, (k - 1) as nat, s_prev) && call_ensures(f, (s_prev, a1), (sk, r))
}

/// As [`retry_with_state`], for a function that also takes one fixed
/// argument, passed unchanged to every attempt.
pub fn retry_with_state1<St, A1, T, E, F: Fn(St, A1) -> (St, Result<T, E>), S: Fn(u64) -> ()>(
    policy: &RetryPolicy,
    f: F,
    st0: St,
    a1: A1,
    sleep: S,
) -> (r: (St, u64, Result<T, E>)) where A1: Copy
    requires
        forall|s: St| call_requires(f, (s, a1)),
        forall|d: u64| call_requires(sleep, (d,)),
        policy.max_retries < u64::MAX,
    ensures
        1 <= r.1 <= policy.max_retries + 1,
        retry_trace1(f, a1, st0, r.1 as nat, r.0, r.2),
        r.2 is Err ==> r.1 == policy.max_retries + 1,
{
    let mut st = st0;
    let mut failed: u64 = 0;
    loop
        invariant
            forall|s: St| call_requires(f, (s, a1)),
            forall|d: u64| call_requires(sleep, (d,)),
            policy.max_retries < u64::MAX,
            failed <= policy.max_retries,
            err_chain1(f, a1, st0, failed as nat, st),
        decreases policy.max_retries - failed,
    {
        let (st2, res) = f(st, a1);
        let attempt_no = failed + 1;
        match res {
            Result::Ok(v) => {
                proof {
                    assert(err_chain1(f, a1, st0, failed as nat, st) && call_ensures(
                        f,
                        (st, a1),
                        (st2, Result::<T, E>::Ok(v)),
                    ));
                }
                return (st2, attempt_no, Result::Ok(v));
            },
            Result::Err(e) => {
                if failed == policy.max_retries {
                    proof {
                        assert(err_chain1(f, a1, st0, failed as nat, st) && call_ensures(
                            f,
                            (st, a1),
                            (st2, Result::<T, E>::Err(e)),
                        ));
                    }
                    return (st2, attempt_no, Result::Err(e));
                }
                sleep(policy.delay_after(attempt_no));
                proof {
                    assert(err_chain1(f, a1, st0, failed as nat, st) && call_ensures(
                        f,
                        (st, a1),
                        (st2, Result::<T, E>::Err(e)),
                    ));
                    assert(err_chain1(f, a1, st0, (failed + 1) as nat, st2));
                }
                st = st2;
                failed = attempt_no;
            },
        }
    }
}

/// As [`err_chain`], for a three-argument function retried with fixed
/// arguments.
pub open spec fn err_chain3<St, A1, A2, A3, T, E, F: FnOnce(St, A1, A2, A3) -> (St, Result<T, E>)>(
    f: F,
    a1: A1,
    a2: A2,
    a3: A3,
    s0: St,
    k: nat,
    sk: St,
) -> bool
    decreases k,
{
    if k == 0 {
        sk == s0
    } else {
        exists|s_prev: St, e: E|
            err_chain3(f, a1, a2, a3, s0, (k - 1) as nat, s_prev) && call_ensures(
                f,
                (s_prev, a1, a2, a3),
                (sk, Result::<T, E>::Err(e)),
            )
    }
}

/// As [`retry_trace`], for a three-argument function retried with fixed
/// arguments.
pub open spec fn retry_trace3<
    St,
    A1,
    A2,
    A3,
    T,
    E,
    F: FnOnce(St, A1, A2, A3) -> (St, Result<T, E>),
>(f: F, a1: A1, a2: A2, a3: A3, s0: St, k: nat, sk: St, r: Result<T, E>) -> bool {
    k >= 1 && exists|s_prev: St|
        err_chain3(f, a1, a2, a3, s0, (k - 1) as nat, s_prev) && call_ensures(
            f,
            (s_prev, a1, a2, a3),
            (sk, r),
        )
}

/// As [`retry_with_state`], for a function that also takes three fixed
/// arguments, passed unchanged to every attempt.
pub fn retry_with_state3<
    St,
    A1,
    A2,
    A3,
    T,
    E,
    F: Fn(St, A1, A2, A3) -> (St, Result<T, E>),
    S: Fn(u64) -> (),
>(policy: &RetryPolicy, f: F, st0: St, a1: A1, a2: A2, a3: A3, sleep: S) -> (r: (
    St,
    u64,
    Result<T, E>,
)) where A1: Copy, A2: Copy, A3: Copy
    requires
        forall|s: St| call_requires(f, (s, a1, a2, a3)),
        forall|d: u64| call_requires(sleep, (d,)),
        policy.max_retries < u64::MAX,
    ensures
        1 <= r.1 <= policy.max_retries + 1,
        retry_trace3(f, a1, a2, a3, st0, r.1 as nat, r.0, r.2),
        r.2 is Err ==> r.1 == policy.max_retries + 1,
{
    let mut st = st0;
    let mut failed: u64 = 0;
    loop
        invariant
            forall|s: St| call_requires(f, (s, a1, a2, a3)),
            forall|d: u64| call_requires(sleep, (d,)),
            policy.max_retries < u64::MAX,
            failed <= policy.max_retries,
            err_chain3(f, a1, a2, a3, st0, failed as nat, st),
        decreases policy.max_retries - failed,
    {
        let (st2, res) = f(st, a1, a2, a3);
        let attempt_no = failed + 1;
        match res {
            Result::Ok(v) => {
                proof {
                    assert(err_chain3(f, a1, a2, a3, st0, failed as nat, st) && call_ensures(
                        f,
                        (st, a1, a2, a3),
                        (st2, Result::<T, E>::Ok(v)),
                    ));
                }
                return (st2, attempt_no, Result::Ok(v));
            },
            Result::Err(e) => {
                if failed == policy.max_retries {
                    proof {
                        assert(err_chain3(f, a1, a2, a3, st0, failed as nat, st) && call_ensures(
                            f,
                            (st, a1, a2, a3),
                            (st2, Result::<T, E>::Err(e)),
                        ));
                    }
                    return (st2, attempt_no, Result::Err(e));
                }
                sleep(policy.delay_after(attempt_no));
                proof {
                    assert(err_chain3(f, a1, a2, a3, st0, failed as nat, st) && call_ensures(
                        f,
                        (st, a1, a2, a3),
                        (st2, Result::<T, E>::Err(e)),
                    ));
                    assert(err_chain3(f, a1, a2, a3, st0, (failed + 1) as nat, st2));
                }
                st = st2;
                failed = attempt_no;
            },
        }
    }
}

/// Wraps a one-argument stateful function with a retry policy and lifts
/// the wrapper into the uniform callable representation.  Every outcome
/// of the resulting callable is the outcome of a retry execution that
/// made at most the budgeted number of attempts and failed only by
/// exhausting it; the retry state starts at `st0` and stays internal to
/// the step.
pub fn lift_retry_fn1<St, A1, T, E, F, S>(
    policy: RetryPolicy,
    f: F,
    st0: St,
    sleep: S,
    is_async: bool,
) -> (r: Callable1<impl FnOnce(A1) -> Result<T, FnError<E>>>) where
    A1: Copy,
    F: Fn(St, A1) -> (St, Result<T, FnError<E>>),
    S: Fn(u64) -> (),

    requires
        policy.max_retries < u64::MAX,
    ensures
        r.is_async == is_async,
        forall|a1: A1|
            (forall|s: St| call_requires(f, (s, a1))) && (forall|d: u64|
                call_requires(sleep, (d,))) ==> call_requires(r.func, (a1,)),
        forall|a1: A1, out: Result<T, FnError<E>>|
            call_ensures(r.func, (a1,), out) ==> exists|k: u64, stf: St|
                1 <= k <= policy.max_retries + 1 && retry_trace1(f, a1, st0, k as nat, stf, out)
                    && (out is Err ==> k == policy.max_retries + 1),
{
    let wrapped = move |a1: A1| -> (out: Result<T, FnError<E>>)
        requires
            forall|s: St| call_requires(f, (s, a1)),
            forall|d: u64| call_requires(sleep, (d,)),
            policy.max_retries < u64::MAX,
        ensures
            exists|k: u64, stf: St|
                1 <= k <= policy.max_retries + 1 && retry_trace1(f, a1, st0, k as nat, stf, out)
                    && (out is Err ==> k == policy.max_retries + 1),
        {
            let (stf, k, res) = retry_with_state1(&policy, f, st0, a1, sleep);
            res
        };
    Callable1 { func: wrapped, is_async }
}

/// Wraps a three-argument stateful function with a retry policy and
/// lifts the wrapper; see [`lift_retry_fn1`].
pub fn lift_retry_fn3<St, A1, A2, A3, T, E, F, S>(
    policy: RetryPolicy,
    f: F,
    st0: St,
    sleep: S,
    is_async: bool,
) -> (r: Callable3<impl FnOnce(A1, A2, A3) -> Result<T, FnError<E>>>) where
    A1: Copy,
    A2: Copy,
    A3: Copy,
    F: Fn(St, A1, A2, A3) -> (St, Result<T, FnError<E>>),
    S: Fn(u64) -> (),

    requires
        policy.max_retries < u64::MAX,
    ensures
        r.is_async == is_async,
        forall|a1: A1, a2: A2, a3: A3|
            (forall|s: St| call_requires(f, (s, a1, a2, a3))) && (forall|d: u64|
                call_requires(sleep, (d,))) ==> call_requires(r.func, (a1, a2, a3)),
        forall|a1: A1, a2: A2, a3: A3, out: Result<T, FnError<E>>|
            call_ensures(r.func, (a1, a2, a3), out) ==> exists|k: u64, stf: St|
                1 <= k <= policy.max_retries + 1 && retry_trace3(
                    f,
                    a1,
                    a2,
                    a3,
                    st0,
                    k as nat,
                    stf,
                    out,
                ) && (out is Err ==> k == policy.max_retries + 1),
{
    let wrapped = move |a1: A1, a2: A2, a3: A3| -> (out: Result<T, FnError<E>>)
        requires
            forall|s: St| call_requires(f, (s, a1, a2, a3)),
            forall|d: u64| call_requires(sleep, (d,)),
            policy.max_retries < u64::MAX,
        ensures
            exists|k: u64, stf: St|
                1 <= k <= policy.max_retries + 1 && retry_trace3(
                    f,
                    a1,
                    a2,
                    a3,
                    st0,
                    k as nat,
                    stf,
                    out,
                ) && (out is Err ==> k == policy.max_retries + 1),
        {
            let (stf, k, res) = retry_with_state3(&policy, f, st0, a1, a2, a3, sleep);
            res
        };
    Callable3 { func: wrapped, is_async }
}

} // verus!
