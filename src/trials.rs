use std::time::{Duration, Instant};
use vstd::prelude::*;

verus! {

/// Why a run of trials did not produce a result.
#[derive(Clone, Copy, Debug, PartialEq, Eq)]
pub enum TrialError<E> {
    /// The trial count was below one; nothing was invoked.
    Configuration,
    /// An invocation of the operation failed with this error; the run stopped there.
    Operation(E),
}

#[verifier::external_type_specification]
#[verifier::external_body]
pub struct ExInstant(Instant);

/// Relies on std::time::Instant::now: a reading of the monotonic clock, used as
/// the origin of one run's timings.
#[verifier::external_body]
fn clock_origin() -> Instant {
    Instant::now()
}

/// Relies on std::time::Instant::elapsed: the time since `origin` was read.
#[verifier::external_body]
fn elapsed_since(origin: &Instant) -> Duration {
    origin.elapsed()
}

/// Relies on std::time::Duration::as_nanos: a duration as whole nanoseconds.
#[verifier::external_body]
fn duration_nanos(d: &Duration) -> u128 {
    d.as_nanos()
}

/// What a successful run of trials gives: the last invocation's value, each
/// invocation's duration in nanoseconds, and their mean.
#[derive(Debug)]
pub struct TrialOutcome<T> {
    pub value: T,
    pub durations: Vec<u64>,
    pub average_nanos: u64,
}

/// The sum of a sequence of durations.
pub open spec fn sum_nanos(s: Seq<u64>) -> int
    decreases s.len(),
{
    if s.len() == 0 {
        0
    } else {
        sum_nanos(s.drop_last()) + s.last()
    }
}

/// The arithmetic mean of a non-empty sequence of durations, rounded down.
pub open spec fn mean_nanos(s: Seq<u64>) -> int {
    sum_nanos(s) / (s.len() as int)
}

/// The time between two clock readings; zero if the clock went backwards.
pub open spec fn span(start: u64, end: u64) -> u64 {
    if end >= start {
        (end - start) as u64
    } else {
        0
    }
}

proof fn lemma_sum_bounds(s: Seq<u64>)
    ensures
        0 <= sum_nanos(s) <= s.len() * (u64::MAX as int),
    decreases s.len(),
{
    if s.len() > 0 {
        lemma_sum_bounds(s.drop_last());
    }
}

proof fn lemma_mean_bounds(s: Seq<u64>)
    requires
        s.len() >= 1,
    ensures
        0 <= mean_nanos(s) <= u64::MAX,
{
    lemma_sum_bounds(s);
    let n = s.len() as int;
    let t = sum_nanos(s);
    assert(0 <= t / n <= u64::MAX) by (nonlinear_arith)
        requires
            n >= 1,
            0 <= t <= n * (u64::MAX as int),
    {
        vstd::arithmetic::div_mod::lemma_div_is_ordered(t, n * (u64::MAX as int), n);
        vstd::arithmetic::div_mod::lemma_div_multiples_vanish(u64::MAX as int, n);
    }
}

proof fn lemma_sum_constant(s: Seq<u64>, d: u64)
    requires
        forall|i: int| 0 <= i < s.len() ==> s[i] == d,
    ensures
        sum_nanos(s) == s.len() * d,
    decreases s.len(),
{
    if s.len() > 0 {
        lemma_sum_constant(s.drop_last(), d);
        assert(sum_nanos(s) == (s.len() - 1) * d + d);
        assert((s.len() - 1) * d + d == s.len() * d) by (nonlinear_arith);
    }
}

proof fn lemma_sum_at_most(s: Seq<u64>, m: u64)
    requires
        forall|i: int| 0 <= i < s.len() ==> s[i] <= m,
    ensures
        sum_nanos(s) <= s.len() * m,
    decreases s.len(),
{
    if s.len() > 0 {
        lemma_sum_at_most(s.drop_last(), m);
        assert((s.len() - 1) * m + m == s.len() * m) by (nonlinear_arith);
    }
}

/// The mean of the per-trial durations is never negative and never exceeds the
/// longest of them.
pub proof fn law_mean_within_durations(s: Seq<u64>, longest: u64)
    requires
        s.len() >= 1,
        forall|i: int| 0 <= i < s.len() ==> s[i] <= longest,
    ensures
        0 <= mean_nanos(s) <= longest,
{
    lemma_sum_bounds(s);
    lemma_sum_at_most(s, longest);
    let n = s.len() as int;
    let t = sum_nanos(s);
    assert(0 <= t / n <= longest) by (nonlinear_arith)
        requires
            n >= 1,
            0 <= t <= n * longest,
    {
        vstd::arithmetic::div_mod::lemma_div_is_ordered(t, n * longest, n);
        vstd::arithmetic::div_mod::lemma_div_multiples_vanish(longest as int, n);
    }
}

/// When every trial takes the same time, the reported mean is exactly that time.
pub proof fn law_mean_of_equal_durations(s: Seq<u64>, d: u64)
    requires
        s.len() >= 1,
        forall|i: int| 0 <= i < s.len() ==> s[i] == d,
    ensures
        mean_nanos(s) == d,
{
    lemma_sum_constant(s, d);
    let n = s.len() as int;
    assert((n * d) / n == d) by (nonlinear_arith)
        requires
            n >= 1,
    {
        vstd::arithmetic::div_mod::lemma_div_multiples_vanish(d as int, n);
    }
}

/// The time between two clock readings, in the clock's unit; zero if the
/// second reading is the earlier one.
pub fn elapsed_between(start: u64, end: u64) -> (r: u64)
    ensures
        r == span(start, end),
{
    if end >= start {
        end - start
    } else {
        0
    }
}

/// The arithmetic mean of the durations, rounded down.
pub fn average_nanos(durations: &Vec<u64>) -> (r: u64)
    requires
        durations@.len() >= 1,
    ensures
        r == mean_nanos(durations@),
{
    let n = durations.len();
    let mut total: u128 = 0;
    let mut i: usize = 0;
    while i < n
        invariant
            n == durations@.len(),
            i <= n,
            total == sum_nanos(durations@.subrange(0, i as int)),
            total <= i * (u64::MAX as int),
        decreases n - i,
    {
        proof {
            let s = durations@.subrange(0, i as int + 1);
            assert(s.drop_last() =~= durations@.subrange(0, i as int));
        }
        assert(total + durations[i as int] <= (i + 1) * (u64::MAX as int)) by (nonlinear_arith)
            requires
                total <= i * (u64::MAX as int),
                durations[i as int] <= u64::MAX,
        {}
        assert((i + 1) * (u64::MAX as int) <= u128::MAX) by (nonlinear_arith)
            requires
                i < n,
                n <= usize::MAX,
        {}
        total = total + durations[i] as u128;
        i = i + 1;
    }
    assert(durations@.subrange(0, n as int) =~= durations@);
    proof {
        lemma_mean_bounds(durations@);
    }
    (total / (n as u128)) as u64
}

/// Whether trial `k` of an indexed operation can succeed.
pub open spec fn trial_succeeds<T, E, F: Fn(u64) -> Result<T, E>>(operation: F, k: int) -> bool {
    exists|v: T| operation.ensures((k as u64,), Ok::<T, E>(v))
}

/// Whether trial `k` of an indexed operation can fail with `e`.
pub open spec fn trial_fails<T, E, F: Fn(u64) -> Result<T, E>>(operation: F, k: int, e: E) -> bool {
    operation.ensures((k as u64,), Err::<T, E>(e))
}

/// Whether some trial `k` below `n` can fail with `e` after trials `0` to
/// `k - 1` have succeeded.
pub open spec fn fails_after_successes<T, E, F: Fn(u64) -> Result<T, E>>(operation: F, n: int, e: E) -> bool {
    exists|k: int|
        0 <= k < n && #[trigger] trial_fails(operation, k, e) && forall|j: int|
            0 <= j < k ==> #[trigger] trial_succeeds(operation, j)
}

/// Whether `d` is the span from clock reading `2k` to reading `2k + 1`: the
/// readings taken just before and just after trial `k`.
pub open spec fn trial_span<C: Fn(u64) -> u64>(clock: C, k: int, d: u64) -> bool {
    exists|a: u64, b: u64|
        clock.ensures(((2 * k) as u64,), a) && clock.ensures(((2 * k + 1) as u64,), b) && d == span(a, b)
}

/// Invokes `operation` for trials `0, 1, ...` up to `trial_count - 1`, in
/// sequence, reading `clock` immediately before (reading `2k`) and after
/// (reading `2k + 1`) trial `k`. A trial count below one is rejected before any
/// call. The first trial that fails ends the run with its error: no later trial
/// runs and no mean is computed. Otherwise the last trial's value is returned
/// with each trial's duration and their mean.
pub fn run_indexed_trials<T, E, F, C>(operation: &F, clock: &C, trial_count: i64) -> (r: Result<
    TrialOutcome<T>,
    TrialError<E>,
>) where F: Fn(u64) -> Result<T, E>, C: Fn(u64) -> u64
    requires
        forall|k: u64| #[trigger] operation.requires((k,)),
        forall|k: u64| #[trigger] clock.requires((k,)),
    ensures
        trial_count < 1 <==> r == Err::<TrialOutcome<T>, TrialError<E>>(TrialError::Configuration),
        r is Ok ==> {
            let out = r->Ok_0;
            &&& out.durations@.len() == trial_count
            &&& out.average_nanos == mean_nanos(out.durations@)
            &&& operation.ensures(((trial_count - 1) as u64,), Ok::<T, E>(out.value))
            &&& forall|k: int| 0 <= k < trial_count ==> #[trigger] trial_succeeds(*operation, k)
            &&& forall|k: int|
                0 <= k < trial_count ==> #[trigger] trial_span(*clock, k, out.durations@[k])
        },
        r matches Err(TrialError::Operation(e)) ==> fails_after_successes(*operation, trial_count as int, e),
{
    if trial_count < 1 {
        return Err(TrialError::Configuration);
    }
    let mut durations: Vec<u64> = Vec::new();
    let mut last: Option<T> = None;
    let mut i: i64 = 0;
    while i < trial_count
        invariant
            0 <= i <= trial_count,
            durations@.len() == i,
            forall|k: u64| #[trigger] operation.requires((k,)),
            forall|k: u64| #[trigger] clock.requires((k,)),
            i > 0 ==> last is Some && operation.ensures(((i - 1) as u64,), Ok::<T, E>(last->Some_0)),
            forall|k: int| 0 <= k < i ==> #[trigger] trial_succeeds(*operation, k),
            forall|k: int| 0 <= k < i ==> #[trigger] trial_span(*clock, k, durations@[k]),
        decreases trial_count - i,
    {
        let k = i as u64;
        let start = clock(2 * k);
        let outcome = operation(k);
        let end = clock(2 * k + 1);
        match outcome {
            Ok(v) => {
                let d = elapsed_between(start, end);
                proof {
                    assert(trial_span(*clock, i as int, d));
                    assert(trial_succeeds(*operation, i as int));
                }
                let ghost before = durations@;
                durations.push(d);
                assert(forall|k: int| 0 <= k < i ==> durations@[k] == before[k]);
                last = Some(v);
            },
            Err(e) => {
                assert(trial_fails(*operation, i as int, e));
                assert(0 <= i < trial_count && forall|j: int|
                    0 <= j < i ==> #[trigger] trial_succeeds(*operation, j));
                assert(fails_after_successes(*operation, trial_count as int, e));
                return Err(TrialError::Operation(e));
            },
        }
        i = i + 1;
    }
    let average = average_nanos(&durations);
    match last {
        Some(value) => Ok(TrialOutcome { value, durations, average_nanos: average }),
        None => Err(TrialError::Configuration),
    }
}

/// Invokes `operation` `trial_count` times in sequence, reading `clock`
/// immediately before and after each call, and reports the last value with the
/// per-call durations and their mean, as `run_indexed_trials` does. A trial
/// count below one is rejected before any call; the first failing call ends
/// the run with its error, and no mean is computed.
pub fn run_trials_with_clock<T, E, F, C>(operation: &F, clock: &C, trial_count: i64) -> (r: Result<
    TrialOutcome<T>,
    TrialError<E>,
>) where F: Fn() -> Result<T, E>, C: Fn() -> u64
    requires
        forall|| #[trigger] operation.requires(()),
        forall|| #[trigger] clock.requires(()),
    ensures
        trial_count < 1 <==> r == Err::<TrialOutcome<T>, TrialError<E>>(TrialError::Configuration),
        r is Ok ==> {
            let out = r->Ok_0;
            &&& out.durations@.len() == trial_count
            &&& out.average_nanos == mean_nanos(out.durations@)
            &&& operation.ensures((), Ok::<T, E>(out.value))
            &&& forall|k: int|
                0 <= k < out.durations@.len() ==> exists|a: u64, b: u64|
                    clock.ensures((), a) && clock.ensures((), b) && #[trigger] out.durations@[k]
                        == span(a, b)
        },
        r matches Err(TrialError::Operation(e)) ==> operation.ensures((), Err::<T, E>(e)),
{
    let indexed = |k: u64| -> (out: Result<T, E>)
        ensures
            operation.ensures((), out),
        { operation() };
    let reading = |k: u64| -> (n: u64)
        ensures
            clock.ensures((), n),
        { clock() };
    let r = run_indexed_trials(&indexed, &reading, trial_count);
    proof {
        if r is Ok {
            let out = r->Ok_0;
            assert forall|k: int| 0 <= k < out.durations@.len() implies exists|a: u64, b: u64|
                clock.ensures((), a) && clock.ensures((), b) && #[trigger] out.durations@[k]
                    == span(a, b) by {
                assert(trial_span(reading, k, out.durations@[k]));
            }
        }
    }
    r
}

/// A nanosecond count cut to the largest `u64` when it does not fit.
fn saturate_nanos(n: u128) -> (r: u64)
    ensures
        r == if n > u64::MAX { u64::MAX as int } else { n as int },
{
    if n > u64::MAX as u128 {
        u64::MAX
    } else {
        n as u64
    }
}

/// Runs the trials as `run_trials_with_clock` does, timed by the process's
/// monotonic clock.
pub fn run_trials<T, E, F>(operation: &F, trial_count: i64) -> (r: Result<
    TrialOutcome<T>,
    TrialError<E>,
>) where F: Fn() -> Result<T, E>
    requires
        forall|| #[trigger] operation.requires(()),
    ensures
        trial_count < 1 <==> r == Err::<TrialOutcome<T>, TrialError<E>>(TrialError::Configuration),
        r is Ok ==> {
            let out = r->Ok_0;
            &&& out.durations@.len() == trial_count
            &&& out.average_nanos == mean_nanos(out.durations@)
            &&& operation.ensures((), Ok::<T, E>(out.value))
        },
        r matches Err(TrialError::Operation(e)) ==> operation.ensures((), Err::<T, E>(e)),
{
    let origin = clock_origin();
    let clock = || -> (n: u64)
        {
            let d = elapsed_since(&origin);
            saturate_nanos(duration_nanos(&d))
        };
    run_trials_with_clock(operation, &clock, trial_count)
}

} // verus!
