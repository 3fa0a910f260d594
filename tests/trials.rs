use pipeline_bench::trials::{
    average_nanos, elapsed_between, run_indexed_trials, run_trials, run_trials_with_clock,
    TrialError,
};
use std::cell::Cell;

const TEN_MS: u64 = 10_000_000;

#[test]
fn average_is_floor_of_mean() {
    assert_eq!(average_nanos(&vec![1, 2, 4]), 2);
    assert_eq!(average_nanos(&vec![7]), 7);
    assert_eq!(average_nanos(&vec![3, 4]), 3);
    assert_eq!(average_nanos(&vec![u64::MAX, u64::MAX, u64::MAX]), u64::MAX);
}

#[test]
fn elapsed_between_never_negative() {
    assert_eq!(elapsed_between(5, 12), 7);
    assert_eq!(elapsed_between(12, 5), 0);
    assert_eq!(elapsed_between(9, 9), 0);
}

#[test]
fn ten_ms_operation_three_trials() {
    let now = Cell::new(0u64);
    let calls = Cell::new(0u32);
    let clock = || now.get();
    let op = || -> Result<u32, String> {
        calls.set(calls.get() + 1);
        now.set(now.get() + TEN_MS);
        Ok(calls.get())
    };
    let out = run_trials_with_clock(&op, &clock, 3).unwrap();
    assert_eq!(calls.get(), 3);
    assert_eq!(out.durations, vec![TEN_MS, TEN_MS, TEN_MS]);
    assert_eq!(out.average_nanos, TEN_MS);
    assert_eq!(out.value, 3);
}

#[test]
fn average_matches_mean_of_varied_durations() {
    let now = Cell::new(1000u64);
    let calls = Cell::new(0u64);
    let clock = || now.get();
    let op = || -> Result<(), String> {
        calls.set(calls.get() + 1);
        now.set(now.get() + 10 * calls.get());
        Ok(())
    };
    let out = run_trials_with_clock(&op, &clock, 4).unwrap();
    assert_eq!(out.durations, vec![10, 20, 30, 40]);
    assert_eq!(out.average_nanos, 25);
}

#[test]
fn zero_or_negative_trial_count_is_rejected_before_any_call() {
    for count in [0i64, -1, -100] {
        let calls = Cell::new(0u32);
        let op = || -> Result<(), String> {
            calls.set(calls.get() + 1);
            Ok(())
        };
        let clock = || 0u64;
        let r = run_trials_with_clock(&op, &clock, count);
        assert!(matches!(r, Err(TrialError::Configuration)));
        assert_eq!(calls.get(), 0);
        let r2 = run_trials(&op, count);
        assert!(matches!(r2, Err(TrialError::Configuration)));
        assert_eq!(calls.get(), 0);
    }
}

#[test]
fn failing_operation_stops_the_run() {
    let calls = Cell::new(0i64);
    let op = || -> Result<i64, String> {
        calls.set(calls.get() + 1);
        if calls.get() == 2 {
            Err(String::from("engine failure"))
        } else {
            Ok(calls.get())
        }
    };
    let clock = || 0u64;
    let r = run_trials_with_clock(&op, &clock, 5);
    match r {
        Err(TrialError::Operation(e)) => assert_eq!(e, "engine failure"),
        _ => panic!("expected the operation's error"),
    }
    assert_eq!(calls.get(), 2);
    assert!(calls.get() <= 5);
}

#[test]
fn real_clock_runs_each_trial() {
    let calls = Cell::new(0u32);
    let op = || -> Result<u32, String> {
        calls.set(calls.get() + 1);
        Ok(calls.get() * 2)
    };
    let out = run_trials(&op, 3).unwrap();
    assert_eq!(calls.get(), 3);
    assert_eq!(out.value, 6);
    assert_eq!(out.durations.len(), 3);
    let total: u128 = out.durations.iter().map(|d| *d as u128).sum();
    assert_eq!(out.average_nanos as u128, total / 3);
}

#[test]
fn indexed_trials_time_each_call_from_its_own_readings() {
    let calls = Cell::new(0u64);
    let clock = |reading: u64| (reading / 2 + reading % 2) * TEN_MS;
    let op = |k: u64| -> Result<u64, String> {
        calls.set(calls.get() + 1);
        Ok(k * 7)
    };
    let out = run_indexed_trials(&op, &clock, 3).unwrap();
    assert_eq!(calls.get(), 3);
    assert_eq!(out.durations, vec![TEN_MS, TEN_MS, TEN_MS]);
    assert_eq!(out.average_nanos, TEN_MS);
    assert_eq!(out.value, 14);
}

#[test]
fn indexed_trials_stop_at_first_failure() {
    let calls = Cell::new(0u64);
    let clock = |reading: u64| reading;
    let op = |k: u64| -> Result<u64, String> {
        calls.set(calls.get() + 1);
        if k == 2 { Err(format!("trial {} failed", k)) } else { Ok(k) }
    };
    let r = run_indexed_trials(&op, &clock, 4);
    match r {
        Err(TrialError::Operation(e)) => assert_eq!(e, "trial 2 failed"),
        _ => panic!("expected the third trial's error"),
    }
    assert_eq!(calls.get(), 3);
    let none = run_indexed_trials(&op, &clock, 0);
    assert!(matches!(none, Err(TrialError::Configuration)));
    assert_eq!(calls.get(), 3);
}
