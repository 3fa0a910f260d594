use crate::telemetry::{snapshot_of, MemoryCounters, MemorySnapshot};
use crate::trials::{mean_nanos, run_trials, TrialError};
use vstd::prelude::*;

verus! {

/// Number of stages in the benchmarked pipeline.
pub const STAGE_COUNT: usize = 4;

/// Default trial count of each forced stage.
pub const FORCED_TRIALS: i64 = 3;

/// Default trial count of the fused lazy plan.
pub const LAZY_TRIALS: i64 = 5;

/// One stage of the pipeline, in execution order.
#[derive(Clone, Copy, Debug, PartialEq, Eq, Structural)]
pub enum Stage {
    Load,
    Sort,
    Filter,
    Aggregate,
}

/// The stage at position `i` of the fixed sequence Load, Sort, Filter, Aggregate.
pub open spec fn stage_at(i: int) -> Stage {
    if i <= 0 {
        Stage::Load
    } else if i == 1 {
        Stage::Sort
    } else if i == 2 {
        Stage::Filter
    } else {
        Stage::Aggregate
    }
}

/// The position of a stage in the sequence.
pub open spec fn index_of(s: Stage) -> int {
    match s {
        Stage::Load => 0,
        Stage::Sort => 1,
        Stage::Filter => 2,
        Stage::Aggregate => 3,
    }
}

impl Stage {
    /// The stage at position `i`.
    pub fn at(i: usize) -> (r: Stage)
        requires
            i < STAGE_COUNT,
        ensures
            r == stage_at(i as int),
            index_of(r) == i,
    {
        if i == 0 {
            Stage::Load
        } else if i == 1 {
            Stage::Sort
        } else if i == 2 {
            Stage::Filter
        } else {
            Stage::Aggregate
        }
    }

    /// The stage that follows this one, or `None` after the last.
    pub fn next(&self) -> (r: Option<Stage>)
        ensures
            index_of(*self) < 3 ==> r == Some(stage_at(index_of(*self) + 1)),
            index_of(*self) == 3 <==> r is None,
    {
        match self {
            Stage::Load => Some(Stage::Sort),
            Stage::Sort => Some(Stage::Filter),
            Stage::Filter => Some(Stage::Aggregate),
            Stage::Aggregate => None,
        }
    }

    /// The human-readable name under which the stage is reported.
    pub fn label(&self) -> (r: &'static str)
        ensures
            *self == Stage::Load ==> r@ == "CSV Read & Load"@,
            *self == Stage::Sort ==> r@ == "Sort"@,
            *self == Stage::Filter ==> r@ == "Filter"@,
            *self == Stage::Aggregate ==> r@ == "GroupBy + Aggregate"@,
    {
        match self {
            Stage::Load => "CSV Read & Load",
            Stage::Sort => "Sort",
            Stage::Filter => "Filter",
            Stage::Aggregate => "GroupBy + Aggregate",
        }
    }
}

/// The measurement of one forced stage.
#[derive(Debug)]
pub struct StageResult<D> {
    pub stage: Stage,
    pub durations: Vec<u64>,
    pub average_nanos: u64,
    pub trial_count: i64,
    pub result: D,
    pub memory_after: MemorySnapshot,
}

/// The measurement of the fused lazy plan.
#[derive(Debug)]
pub struct LazyResult<D> {
    pub plan_description: String,
    pub durations: Vec<u64>,
    pub average_nanos: u64,
    pub trial_count: i64,
    pub result: D,
    pub memory_after: MemorySnapshot,
}

/// Both modes' measurements of one benchmark run.
#[derive(Debug)]
pub struct BenchmarkReport<D> {
    pub forced: Vec<StageResult<D>>,
    pub lazy: LazyResult<D>,
}

/// The trial counts of one benchmark run.
#[derive(Clone, Copy, Debug, PartialEq, Eq, Structural)]
pub struct BenchmarkConfig {
    pub forced_trials: i64,
    pub lazy_trials: i64,
}

impl BenchmarkConfig {
    /// The design defaults: three trials per forced stage, five for the lazy plan.
    pub fn standard() -> (r: BenchmarkConfig)
        ensures
            r.forced_trials == FORCED_TRIALS,
            r.lazy_trials == LAZY_TRIALS,
            r.is_valid_spec(),
    {
        BenchmarkConfig { forced_trials: FORCED_TRIALS, lazy_trials: LAZY_TRIALS }
    }

    pub open spec fn is_valid_spec(&self) -> bool {
        self.forced_trials >= 1 && self.lazy_trials >= 1
    }

    /// Whether both trial counts are at least one.
    pub fn is_valid(&self) -> (r: bool)
        ensures
            r == self.is_valid_spec(),
    {
        self.forced_trials >= 1 && self.lazy_trials >= 1
    }
}

/// Whether `durations` holds one duration per trial and `average` is the floor
/// of their mean.
pub open spec fn averages_trials(durations: Seq<u64>, average: u64, trial_count: i64) -> bool {
    durations.len() == trial_count && average == mean_nanos(durations)
}

/// Whether `v` is a complete forced-mode record made with `trial_count` trials
/// per stage: one result per stage, in order, each stage applied to the result
/// of the stage before (the first to no input), each memory snapshot the
/// reading of one memory query.
pub open spec fn forced_record<D, E, F, Q>(
    apply: F,
    query_memory: Q,
    trial_count: i64,
    v: Seq<StageResult<D>>,
) -> bool where F: Fn(Stage, Option<&D>) -> Result<D, E>, Q: Fn() -> Option<MemoryCounters> {
    &&& v.len() == STAGE_COUNT
    &&& apply.ensures((Stage::Load, None::<&D>), Ok::<D, E>(v[0].result))
    &&& forall|i: int|
        1 <= i < v.len() ==> #[trigger] apply.ensures(
            (stage_at(i), Some(&v[i - 1].result)),
            Ok::<D, E>(v[i].result),
        )
    &&& forall|i: int|
        0 <= i < v.len() ==> {
            &&& #[trigger] v[i].stage == stage_at(i)
            &&& v[i].trial_count == trial_count
            &&& exists|q: Option<MemoryCounters>|
                query_memory.ensures((), q) && v[i].memory_after == snapshot_of(q)
            &&& averages_trials(v[i].durations@, v[i].average_nanos, trial_count)
        }
}

/// What a whole report made with `config` holds: four forced results in stage
/// order, each with the forced trial count, the lazy result with the lazy trial
/// count, and every memory snapshot the reading of one memory query.
pub open spec fn report_shape<D, Q>(query_memory: Q, config: BenchmarkConfig, report: BenchmarkReport<D>) -> bool
    where Q: Fn() -> Option<MemoryCounters>
{
    &&& report.forced@.len() == STAGE_COUNT
    &&& forall|i: int|
        0 <= i < report.forced@.len() ==> {
            &&& #[trigger] report.forced@[i].stage == stage_at(i)
            &&& report.forced@[i].trial_count == config.forced_trials
            &&& exists|q: Option<MemoryCounters>|
                query_memory.ensures((), q) && report.forced@[i].memory_after == snapshot_of(q)
            &&& averages_trials(report.forced@[i].durations@, report.forced@[i].average_nanos, config.forced_trials)
        }
    &&& report.lazy.trial_count == config.lazy_trials
    &&& averages_trials(report.lazy.durations@, report.lazy.average_nanos, config.lazy_trials)
    &&& exists|q: Option<MemoryCounters>|
        query_memory.ensures((), q) && report.lazy.memory_after == snapshot_of(q)
}

/// A report whose forced part is a complete record has the shape of one.
pub proof fn lemma_record_has_shape<D, E, F, Q>(
    apply: F,
    query_memory: Q,
    config: BenchmarkConfig,
    report: BenchmarkReport<D>,
) where F: Fn(Stage, Option<&D>) -> Result<D, E>, Q: Fn() -> Option<MemoryCounters>
    requires
        forced_record(apply, query_memory, config.forced_trials, report.forced@),
        report.lazy.trial_count == config.lazy_trials,
        averages_trials(report.lazy.durations@, report.lazy.average_nanos, config.lazy_trials),
        exists|q: Option<MemoryCounters>|
            query_memory.ensures((), q) && report.lazy.memory_after == snapshot_of(q),
    ensures
        report_shape(query_memory, config, report),
{
}

/// Forced mode: runs each stage to completion in order, `trial_count` times,
/// each on the materialized result of the stage before, and samples memory
/// right after each stage. A trial count below one is rejected before any call;
/// the first failure ends the run with its error and no partial record.
pub fn run_forced<D, E, F, Q>(apply: &F, query_memory: &Q, trial_count: i64) -> (r: Result<
    Vec<StageResult<D>>,
    TrialError<E>,
>) where F: Fn(Stage, Option<&D>) -> Result<D, E>, Q: Fn() -> Option<MemoryCounters>
    requires
        forall|s: Stage, input: Option<&D>| #[trigger] apply.requires((s, input)),
        forall|| #[trigger] query_memory.requires(()),
    ensures
        trial_count < 1 <==> r == Err::<Vec<StageResult<D>>, TrialError<E>>(
            TrialError::Configuration,
        ),
        r is Ok ==> forced_record(*apply, *query_memory, trial_count, r->Ok_0@),
        r matches Err(TrialError::Operation(e)) ==> exists|s: Stage, input: Option<&D>|
            #[trigger] apply.ensures((s, input), Err::<D, E>(e)),
{
    if trial_count < 1 {
        return Err(TrialError::Configuration);
    }
    let mut results: Vec<StageResult<D>> = Vec::new();
    let mut k: usize = 0;
    while k < STAGE_COUNT
        invariant
            trial_count >= 1,
            k <= STAGE_COUNT,
            results@.len() == k,
            forall|s: Stage, input: Option<&D>| #[trigger] apply.requires((s, input)),
            forall|| #[trigger] query_memory.requires(()),
            k > 0 ==> apply.ensures((Stage::Load, None::<&D>), Ok::<D, E>(results@[0].result)),
            forall|i: int|
                1 <= i < k ==> #[trigger] apply.ensures(
                    (stage_at(i), Some(&results@[i - 1].result)),
                    Ok::<D, E>(results@[i].result),
                ),
            forall|i: int|
                0 <= i < k ==> {
                    &&& #[trigger] results@[i].stage == stage_at(i)
                    &&& results@[i].trial_count == trial_count
                    &&& exists|q: Option<MemoryCounters>|
                        query_memory.ensures((), q) && results@[i].memory_after == snapshot_of(q)
                    &&& averages_trials(results@[i].durations@, results@[i].average_nanos, trial_count)
                },
        decreases STAGE_COUNT - k,
    {
        let stage = Stage::at(k);
        let outcome = if k == 0 {
            let op = || -> (out: Result<D, E>)
                ensures
                    apply.ensures((stage, None::<&D>), out),
                { apply(stage, None) };
            run_trials(&op, trial_count)
        } else {
            let prev = &results[k - 1].result;
            let op = || -> (out: Result<D, E>)
                ensures
                    apply.ensures((stage, Some(prev)), out),
                { apply(stage, Some(prev)) };
            run_trials(&op, trial_count)
        };
        let measured = match outcome {
            Ok(m) => m,
            Err(TrialError::Configuration) => {
                return Err(TrialError::Configuration);
            },
            Err(TrialError::Operation(e)) => {
                return Err(TrialError::Operation(e));
            },
        };
        let q = query_memory();
        let memory_after = MemorySnapshot::from_query(q);
        results.push(
            StageResult {
                stage,
                average_nanos: measured.average_nanos,
                durations: measured.durations,
                trial_count,
                result: measured.value,
                memory_after,
            },
        );
        k = k + 1;
    }
    Ok(results)
}

/// Lazy mode: asks the engine once for the optimized plan's description, then
/// executes the whole composed plan `trial_count` times and samples memory once
/// after it. A trial count below one is rejected before any call.
pub fn run_lazy<P, D, E, X, G, Q>(
    plan: &P,
    execute: &X,
    describe: &G,
    query_memory: &Q,
    trial_count: i64,
) -> (r: Result<LazyResult<D>, TrialError<E>>) where
    X: Fn(&P) -> Result<D, E>,
    G: Fn(&P) -> Result<String, E>,
    Q: Fn() -> Option<MemoryCounters>,

    requires
        forall|p: &P| #[trigger] execute.requires((p,)),
        forall|p: &P| #[trigger] describe.requires((p,)),
        forall|| #[trigger] query_memory.requires(()),
    ensures
        trial_count < 1 <==> r == Err::<LazyResult<D>, TrialError<E>>(TrialError::Configuration),
        r is Ok ==> {
            let out = r->Ok_0;
            &&& describe.ensures((plan,), Ok::<String, E>(out.plan_description))
            &&& execute.ensures((plan,), Ok::<D, E>(out.result))
            &&& out.trial_count == trial_count
            &&& averages_trials(out.durations@, out.average_nanos, trial_count)
            &&& exists|q: Option<MemoryCounters>|
                query_memory.ensures((), q) && out.memory_after == snapshot_of(q)
        },
        r matches Err(TrialError::Operation(e)) ==> describe.ensures((plan,), Err::<String, E>(e))
            || execute.ensures((plan,), Err::<D, E>(e)),
{
    if trial_count < 1 {
        return Err(TrialError::Configuration);
    }
    let plan_description = match describe(plan) {
        Ok(text) => text,
        Err(e) => {
            return Err(TrialError::Operation(e));
        },
    };
    let op = || -> (out: Result<D, E>)
        ensures
            execute.ensures((plan,), out),
        { execute(plan) };
    let measured = match run_trials(&op, trial_count) {
        Ok(m) => m,
        Err(TrialError::Configuration) => {
            return Err(TrialError::Configuration);
        },
        Err(TrialError::Operation(e)) => {
            return Err(TrialError::Operation(e));
        },
    };
    let q = query_memory();
    let memory_after = MemorySnapshot::from_query(q);
    Ok(
        LazyResult {
            plan_description,
            average_nanos: measured.average_nanos,
            durations: measured.durations,
            trial_count,
            result: measured.value,
            memory_after,
        },
    )
}

/// Runs forced mode, then lazy mode, over the same stage definitions, and
/// combines them into one report. An invalid configuration is rejected before
/// any call; any failure aborts the whole run with no partial report.
pub fn run_benchmark<P, D, E, F, X, G, Q>(
    apply: &F,
    plan: &P,
    execute: &X,
    describe: &G,
    query_memory: &Q,
    config: BenchmarkConfig,
) -> (r: Result<BenchmarkReport<D>, TrialError<E>>) where
    F: Fn(Stage, Option<&D>) -> Result<D, E>,
    X: Fn(&P) -> Result<D, E>,
    G: Fn(&P) -> Result<String, E>,
    Q: Fn() -> Option<MemoryCounters>,

    requires
        forall|s: Stage, input: Option<&D>| #[trigger] apply.requires((s, input)),
        forall|p: &P| #[trigger] execute.requires((p,)),
        forall|p: &P| #[trigger] describe.requires((p,)),
        forall|| #[trigger] query_memory.requires(()),
    ensures
        !config.is_valid_spec() <==> r == Err::<BenchmarkReport<D>, TrialError<E>>(
            TrialError::Configuration,
        ),
        r is Ok ==> {
            let report = r->Ok_0;
            &&& forced_record(*apply, *query_memory, config.forced_trials, report.forced@)
            &&& describe.ensures((plan,), Ok::<String, E>(report.lazy.plan_description))
            &&& execute.ensures((plan,), Ok::<D, E>(report.lazy.result))
            &&& report.lazy.trial_count == config.lazy_trials
            &&& averages_trials(report.lazy.durations@, report.lazy.average_nanos, config.lazy_trials)
            &&& exists|q: Option<MemoryCounters>|
                query_memory.ensures((), q) && report.lazy.memory_after == snapshot_of(q)
        },
        r matches Err(TrialError::Operation(e)) ==> (exists|s: Stage, input: Option<&D>|
            #[trigger] apply.ensures((s, input), Err::<D, E>(e))) || describe.ensures(
            (plan,),
            Err::<String, E>(e),
        ) || execute.ensures((plan,), Err::<D, E>(e)),
{
    if !config.is_valid() {
        return Err(TrialError::Configuration);
    }
    let forced = match run_forced(apply, query_memory, config.forced_trials) {
        Ok(v) => v,
        Err(TrialError::Configuration) => {
            return Err(TrialError::Configuration);
        },
        Err(TrialError::Operation(e)) => {
            return Err(TrialError::Operation(e));
        },
    };
    let lazy = match run_lazy(plan, execute, describe, query_memory, config.lazy_trials) {
        Ok(l) => l,
        Err(TrialError::Configuration) => {
            return Err(TrialError::Configuration);
        },
        Err(TrialError::Operation(e)) => {
            return Err(TrialError::Operation(e));
        },
    };
    Ok(BenchmarkReport { forced, lazy })
}

} // verus!
