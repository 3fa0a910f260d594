use pipeline_bench::pipeline::{
    run_benchmark, run_forced, run_lazy, BenchmarkConfig, Stage, FORCED_TRIALS, LAZY_TRIALS,
};
use pipeline_bench::telemetry::MemoryCounters;
use pipeline_bench::trials::TrialError;
use std::cell::Cell;

fn stage_op(stage: Stage, input: Option<&Vec<i64>>) -> Result<Vec<i64>, String> {
    match stage {
        Stage::Load => Ok(vec![3, 900, 100, 700, 600]),
        Stage::Sort => {
            let mut v = input.unwrap().clone();
            v.sort();
            Ok(v)
        }
        Stage::Filter => Ok(input.unwrap().iter().copied().filter(|x| *x > 500).collect()),
        Stage::Aggregate => Ok(vec![input.unwrap().iter().sum()]),
    }
}

fn query() -> Option<MemoryCounters> {
    Some(MemoryCounters {
        working_set_bytes: 2 * 1048576,
        private_usage_bytes: 3 * 1048576,
        pagefile_usage_bytes: 4 * 1048576,
        peak_working_set_bytes: 5 * 1048576,
    })
}

#[test]
fn stage_sequence_is_fixed() {
    assert_eq!(Stage::at(0), Stage::Load);
    assert_eq!(Stage::at(3), Stage::Aggregate);
    assert_eq!(Stage::Load.next(), Some(Stage::Sort));
    assert_eq!(Stage::Sort.next(), Some(Stage::Filter));
    assert_eq!(Stage::Filter.next(), Some(Stage::Aggregate));
    assert_eq!(Stage::Aggregate.next(), None);
    assert_eq!(Stage::Load.label(), "CSV Read & Load");
    assert_eq!(Stage::Aggregate.label(), "GroupBy + Aggregate");
}

#[test]
fn standard_config_uses_design_defaults() {
    let c = BenchmarkConfig::standard();
    assert_eq!(c.forced_trials, 3);
    assert_eq!(c.lazy_trials, 5);
    assert_eq!((FORCED_TRIALS, LAZY_TRIALS), (3, 5));
    assert!(c.is_valid());
    assert!(!BenchmarkConfig { forced_trials: 0, lazy_trials: 5 }.is_valid());
    assert!(!BenchmarkConfig { forced_trials: 3, lazy_trials: -1 }.is_valid());
}

#[test]
fn forced_mode_chains_stages() {
    let calls = Cell::new(0u32);
    let apply = |s: Stage, i: Option<&Vec<i64>>| {
        calls.set(calls.get() + 1);
        stage_op(s, i)
    };
    let v = run_forced(&apply, &query, 3).unwrap();
    assert_eq!(calls.get(), 12);
    let stages: Vec<Stage> = v.iter().map(|r| r.stage).collect();
    assert_eq!(stages, vec![Stage::Load, Stage::Sort, Stage::Filter, Stage::Aggregate]);
    assert_eq!(v[1].result, vec![3, 100, 600, 700, 900]);
    assert_eq!(v[2].result, vec![600, 700, 900]);
    assert_eq!(v[3].result, vec![2200]);
    for r in &v {
        assert_eq!(r.trial_count, 3);
        assert_eq!(r.memory_after.working_set_mb, 2);
        assert_eq!(r.memory_after.peak_working_set_mb, 5);
        assert_eq!(r.durations.len(), 3);
        let total: u128 = r.durations.iter().map(|d| *d as u128).sum();
        assert_eq!(r.average_nanos as u128, total / 3);
    }
}

#[test]
fn forced_mode_failure_gives_no_partial_report() {
    let calls = Cell::new(0u32);
    let apply = |s: Stage, i: Option<&Vec<i64>>| {
        calls.set(calls.get() + 1);
        if s == Stage::Filter {
            Err(String::from("filter failed"))
        } else {
            stage_op(s, i)
        }
    };
    let r = run_forced(&apply, &query, 3);
    assert!(matches!(r, Err(TrialError::Operation(ref e)) if e == "filter failed"));
    assert_eq!(calls.get(), 7);
    let none = run_forced(&apply, &query, 0);
    assert!(matches!(none, Err(TrialError::Configuration)));
    assert_eq!(calls.get(), 7);
}

#[test]
fn lazy_mode_describes_then_executes() {
    let runs = Cell::new(0u32);
    let execute = |p: &i64| -> Result<i64, String> {
        runs.set(runs.get() + 1);
        Ok(*p * 2)
    };
    let describe = |p: &i64| -> Result<String, String> { Ok(format!("plan {}", p)) };
    let l = run_lazy(&21i64, &execute, &describe, &|| None, 5).unwrap();
    assert_eq!(runs.get(), 5);
    assert_eq!(l.result, 42);
    assert_eq!(l.plan_description, "plan 21");
    assert_eq!(l.trial_count, 5);
    assert_eq!(l.durations.len(), 5);
    let total: u128 = l.durations.iter().map(|d| *d as u128).sum();
    assert_eq!(l.average_nanos as u128, total / 5);
    assert!(l.memory_after.is_unavailable());
}

#[test]
fn invalid_config_rejected_before_any_call() {
    let calls = Cell::new(0u32);
    let apply = |s: Stage, i: Option<&Vec<i64>>| {
        calls.set(calls.get() + 1);
        stage_op(s, i)
    };
    let execute = |_: &u8| -> Result<Vec<i64>, String> {
        calls.set(calls.get() + 1);
        Ok(vec![])
    };
    let describe = |_: &u8| -> Result<String, String> {
        calls.set(calls.get() + 1);
        Ok(String::new())
    };
    let config = BenchmarkConfig { forced_trials: 3, lazy_trials: 0 };
    let r = run_benchmark(&apply, &0u8, &execute, &describe, &query, config);
    assert!(matches!(r, Err(TrialError::Configuration)));
    assert_eq!(calls.get(), 0);
}

#[test]
fn benchmark_report_holds_both_modes() {
    let execute = |_: &u8| -> Result<Vec<i64>, String> { Ok(vec![2200]) };
    let describe = |_: &u8| -> Result<String, String> { Ok(String::from("fused")) };
    let report = run_benchmark(&stage_op, &0u8, &execute, &describe, &query, BenchmarkConfig::standard()).unwrap();
    assert_eq!(report.forced.len(), 4);
    assert_eq!(report.forced[3].result, report.lazy.result);
    assert_eq!(report.lazy.trial_count, 5);
    assert_eq!(report.lazy.plan_description, "fused");
    assert_eq!(report.lazy.memory_after.private_usage_mb, 3);
}
