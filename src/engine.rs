use crate::pipeline::{
    report_shape, run_benchmark, stage_at, BenchmarkConfig, BenchmarkReport, Stage,
};
use crate::telemetry::MemoryCounters;
use crate::trials::TrialError;
use polars::prelude::{
    col, lit, DataFrame, Expr, IntoLazy, LazyCsvReader, LazyFileListReader, LazyFrame,
    PolarsError, Series, SortMultipleOptions,
};
use vstd::prelude::*;
use vstd::string::StringSliceAdditionalSpecFns;

verus! {

#[verifier::external_type_specification]
#[verifier::external_body]
pub struct ExDataFrame(DataFrame);

/// Declared because `DataFrame`'s indexing impls hand out series.
#[verifier::external_type_specification]
#[verifier::external_body]
pub struct ExSeries(Series);

#[verifier::external_type_specification]
#[verifier::external_body]
pub struct ExLazyFrame(LazyFrame);

#[verifier::external_type_specification]
#[verifier::external_body]
pub struct ExExpr(Expr);

#[verifier::external_type_specification]
#[verifier::external_body]
pub struct ExPolarsError(PolarsError);

/// Threshold of the filter stage: rows whose value exceeds it are kept.
pub const FILTER_THRESHOLD: i64 = 500;

/// One engine operation, as the model of a plan records it.
pub enum EngineOp {
    /// A lazy scan of the delimited file at this path, with a header line.
    ScanCsv(Seq<char>),
    /// A read of a frame already held in memory.
    InMemory,
    /// Rows ordered by this column, ascending.
    SortBy(Seq<char>),
    /// Rows kept where this column exceeds the threshold.
    FilterGreater(Seq<char>, i64),
    /// One row per value of the key column, with the mean of each
    /// (column, output name) pair.
    GroupMeans(Seq<char>, Seq<(Seq<char>, Seq<char>)>),
}

/// A lazy plan of the engine. Its model is the sequence of engine operations
/// whose result it denotes; only the engine calls below set it.
pub struct Plan {
    frame: LazyFrame,
    ops: Ghost<Seq<EngineOp>>,
}

/// A materialized result of the engine. Its model is the sequence of engine
/// operations whose result it is.
pub struct Frame {
    data: DataFrame,
    ops: Ghost<Seq<EngineOp>>,
}

/// A row predicate: the column exceeds a threshold.
pub struct Predicate {
    expr: Expr,
    op: Ghost<EngineOp>,
}

/// A mean aggregation: (column, output name).
pub struct Aggregation {
    expr: Expr,
    mean: Ghost<(Seq<char>, Seq<char>)>,
}

impl Plan {
    pub closed spec fn ops(&self) -> Seq<EngineOp> {
        self.ops@
    }
}

impl Frame {
    pub closed spec fn ops(&self) -> Seq<EngineOp> {
        self.ops@
    }

    /// The materialized rows.
    pub fn data(&self) -> &DataFrame {
        &self.data
    }
}

impl Predicate {
    pub closed spec fn op(&self) -> EngineOp {
        self.op@
    }
}

impl Aggregation {
    pub closed spec fn mean(&self) -> (Seq<char>, Seq<char>) {
        self.mean@
    }
}

/// Whether the bytes hold "://", the separator of a URL scheme.
pub open spec fn has_url_separator(b: Seq<u8>) -> bool {
    exists|i: int| #[trigger] separator_at(b, i)
}

/// Whether "://" starts at position `i` of the bytes.
pub open spec fn separator_at(b: Seq<u8>, i: int) -> bool {
    0 <= i && i + 3 <= b.len() && b[i] == 58u8 && b[i + 1] == 47u8 && b[i + 2] == 47u8
}

/// Relies on polars' LazyCsvReader (new, with_has_header, finish): a lazy scan
/// of a delimited file whose first line is a header. This engine build has no
/// async readers, and its path expansion panics where it would need them: on
/// paths written as URLs, which `requires` excludes, and on every path when the
/// environment variable POLARS_FORCE_ASYNC is "1" on a non-Windows host, which
/// no precondition can exclude: callers must not run with it set.
#[verifier::external_body]
fn scan_csv(path: &str) -> (r: Result<Plan, PolarsError>)
    requires
        !has_url_separator(path.spec_bytes()),
    ensures
        r matches Ok(p) ==> p.ops() == seq![EngineOp::ScanCsv(path@)],
{
    let ops = Ghost(seq![EngineOp::ScanCsv(path@)]);
    match LazyCsvReader::new(path).with_has_header(true).finish() {
        Ok(frame) => Ok(Plan { frame, ops }),
        Err(e) => Err(e),
    }
}

/// Relies on polars' IntoLazy::lazy: a lazy plan that reads the frame.
#[verifier::external_body]
fn lazy_from(data: DataFrame) -> (r: Plan)
    ensures
        r.ops() == seq![EngineOp::InMemory],
{
    Plan { frame: data.lazy(), ops: Ghost(seq![EngineOp::InMemory]) }
}

/// Relies on DataFrame's Clone and IntoLazy::lazy: a lazy plan over a copy of
/// the rows, which are the result of the frame's operations.
#[verifier::external_body]
fn lazy_of(f: &Frame) -> (r: Plan)
    ensures
        r.ops() == f.ops(),
{
    Plan { frame: f.data.clone().lazy(), ops: Ghost(f.ops@) }
}

/// Relies on LazyFrame's Clone: a second handle on the same plan.
#[verifier::external_body]
fn copy_plan(p: &Plan) -> (r: Plan)
    ensures
        r.ops() == p.ops(),
{
    Plan { frame: p.frame.clone(), ops: Ghost(p.ops@) }
}

/// Relies on LazyFrame::sort: rows ordered by the column, ascending.
#[verifier::external_body]
fn sort_by(p: Plan, column: &str) -> (r: Plan)
    ensures
        r.ops() == p.ops().push(EngineOp::SortBy(column@)),
{
    let ops = Ghost(p.ops@.push(EngineOp::SortBy(column@)));
    Plan { frame: p.frame.sort([column], SortMultipleOptions::default()), ops }
}

/// Relies on polars' col, lit and Expr::gt: the predicate "column exceeds
/// `threshold`".
#[verifier::external_body]
fn greater_than(column: &str, threshold: i64) -> (r: Predicate)
    ensures
        r.op() == EngineOp::FilterGreater(column@, threshold),
{
    Predicate { expr: col(column).gt(lit(threshold)), op: Ghost(EngineOp::FilterGreater(column@, threshold)) }
}

/// Relies on LazyFrame::filter: keeps the rows on which the predicate holds.
#[verifier::external_body]
fn filter_rows(p: Plan, predicate: Predicate) -> (r: Plan)
    ensures
        r.ops() == p.ops().push(predicate.op()),
{
    let ops = Ghost(p.ops@.push(predicate.op@));
    Plan { frame: p.frame.filter(predicate.expr), ops }
}

/// Relies on polars' col, Expr::mean and Expr::alias: the mean of the column,
/// named `alias`.
#[verifier::external_body]
fn mean_of(column: &str, alias: &str) -> (r: Aggregation)
    ensures
        r.mean() == (column@, alias@),
{
    Aggregation { expr: col(column).mean().alias(alias), mean: Ghost((column@, alias@)) }
}

/// Relies on LazyFrame::group_by and LazyGroupBy::agg: one row per key value,
/// with the given aggregations.
#[verifier::external_body]
fn group_by_key(p: Plan, key: &str, aggregations: Vec<Aggregation>) -> (r: Plan)
    ensures
        r.ops() == p.ops().push(
            EngineOp::GroupMeans(key@, aggregations@.map_values(|a: Aggregation| a.mean())),
        ),
{
    let ops = Ghost(
        p.ops@.push(EngineOp::GroupMeans(key@, aggregations@.map_values(|a: Aggregation| a.mean@))),
    );
    let exprs: Vec<Expr> = aggregations.into_iter().map(|a| a.expr).collect();
    Plan { frame: p.frame.group_by([col(key)]).agg(exprs), ops }
}

/// Relies on LazyFrame::collect: executes the plan and materializes its result.
/// On a plan that scans a file it panics when the environment variable
/// POLARS_FORCE_ASYNC is "1" (this engine build has no async readers); callers
/// must not run with it set.
#[verifier::external_body]
fn collect(p: Plan) -> (r: Result<Frame, PolarsError>)
    ensures
        r matches Ok(f) ==> f.ops() == p.ops(),
{
    let ops = Ghost(p.ops@);
    match p.frame.collect() {
        Ok(data) => Ok(Frame { data, ops }),
        Err(e) => Err(e),
    }
}

/// Relies on LazyFrame::describe_optimized_plan: the optimizer's plan as text.
/// On a plan that scans a file it panics when the environment variable
/// POLARS_FORCE_ASYNC is "1" (this engine build has no async readers); callers
/// must not run with it set.
#[verifier::external_body]
fn optimized_plan_text(p: &Plan) -> Result<String, PolarsError> {
    p.frame.describe_optimized_plan()
}

/// The engine operations that each stage adds to a plan.
pub open spec fn stage_ops(stage: Stage) -> Seq<EngineOp> {
    match stage {
        Stage::Load => Seq::empty(),
        Stage::Sort => seq![EngineOp::SortBy("value"@)],
        Stage::Filter => seq![EngineOp::FilterGreater("value"@, FILTER_THRESHOLD)],
        Stage::Aggregate => seq![
            EngineOp::GroupMeans(
                "category"@,
                seq![("id"@, "id_mean"@), ("value"@, "value_mean"@)],
            ),
        ],
    }
}

/// The engine operations of the stages after the load, in order.
pub open spec fn pipeline_ops() -> Seq<EngineOp> {
    stage_ops(Stage::Sort) + stage_ops(Stage::Filter) + stage_ops(Stage::Aggregate)
}

/// The operations that the stages up to position `i` add after the load.
pub open spec fn ops_through(i: int) -> Seq<EngineOp>
    decreases i,
{
    if i <= 0 {
        Seq::empty()
    } else {
        ops_through(i - 1) + stage_ops(stage_at(i))
    }
}

/// What a forced stage starts from: the source for the load stage or when no
/// input is given, else the materialized input.
pub open spec fn stage_input_ops(source: Plan, stage: Stage, input: Option<&Frame>) -> Seq<EngineOp> {
    match input {
        Some(f) => if stage == Stage::Load {
            source.ops()
        } else {
            f.ops()
        },
        None => source.ops(),
    }
}

/// Whether the bytes of `path` hold "://", so that it names a URL.
pub fn is_url_like(path: &str) -> (r: bool)
    ensures
        r == has_url_separator(path.spec_bytes()),
{
    let b = path.as_bytes();
    let n = b.len();
    let mut i: usize = 0;
    while i < n && n - i >= 3
        invariant
            n == b@.len(),
            b@ == path.spec_bytes(),
            i <= n,
            forall|j: int| 0 <= j < i ==> !#[trigger] separator_at(b@, j),
        decreases n - i,
    {
        if b[i] == 58u8 && b[i + 1] == 47u8 && b[i + 2] == 47u8 {
            assert(separator_at(b@, i as int));
            return true;
        }
        i = i + 1;
    }
    assert forall|j: int| !#[trigger] separator_at(b@, j) by {
        if 0 <= j < i {
        }
    }
    false
}

impl Plan {
    /// A plan that reads the frame held in memory.
    pub fn from_data(data: DataFrame) -> (r: Plan)
        ensures
            r.ops() == seq![EngineOp::InMemory],
    {
        lazy_from(data)
    }
}

/// The plan with the stage's engine operations composed onto it, without
/// executing anything.
pub fn add_stage(p: Plan, stage: Stage) -> (r: Plan)
    ensures
        r.ops() == p.ops() + stage_ops(stage),
{
    match stage {
        Stage::Load => {
            assert(p.ops() + stage_ops(stage) =~= p.ops());
            p
        },
        Stage::Sort => {
            let r = sort_by(p, "value");
            assert(r.ops() =~= p.ops() + stage_ops(stage));
            r
        },
        Stage::Filter => {
            let r = filter_rows(p, greater_than("value", FILTER_THRESHOLD));
            assert(r.ops() =~= p.ops() + stage_ops(stage));
            r
        },
        Stage::Aggregate => {
            let aggregations = vec![mean_of("id", "id_mean"), mean_of("value", "value_mean")];
            let ghost means = aggregations@.map_values(|a: Aggregation| a.mean());
            assert(means =~= seq![("id"@, "id_mean"@), ("value"@, "value_mean"@)]);
            let r = group_by_key(p, "category", aggregations);
            assert(r.ops() =~= p.ops() + stage_ops(stage));
            r
        },
    }
}

/// Composes every stage, in order, into one declarative plan over `source`.
pub fn compose_pipeline(source: &Plan) -> (r: Plan)
    ensures
        r.ops() == source.ops() + pipeline_ops(),
{
    let p = copy_plan(source);
    let p = add_stage(p, Stage::Sort);
    let p = add_stage(p, Stage::Filter);
    let p = add_stage(p, Stage::Aggregate);
    assert(p.ops() =~= source.ops() + pipeline_ops());
    p
}

/// The plan of one forced stage: the stage's operations over what it starts
/// from (see `stage_input_ops`).
pub fn stage_plan(source: &Plan, stage: Stage, input: Option<&Frame>) -> (r: Plan)
    ensures
        r.ops() == stage_input_ops(*source, stage, input) + stage_ops(stage),
{
    let base = match input {
        Some(f) => if stage == Stage::Load {
            copy_plan(source)
        } else {
            lazy_of(f)
        },
        None => copy_plan(source),
    };
    add_stage(base, stage)
}

/// Forced execution of one stage: its plan, materialized. Like `collect`, it
/// must not run with POLARS_FORCE_ASYNC set to "1" on a plan that scans a file.
pub fn apply_stage(source: &Plan, stage: Stage, input: Option<&Frame>) -> (r: Result<Frame, PolarsError>)
    ensures
        r matches Ok(f) ==> f.ops() == stage_input_ops(*source, stage, input) + stage_ops(stage),
{
    collect(stage_plan(source, stage, input))
}

/// Executes a composed plan and materializes its result. Like `collect`, it
/// must not run with POLARS_FORCE_ASYNC set to "1" on a plan that scans a file.
pub fn execute_plan(plan: &Plan) -> (r: Result<Frame, PolarsError>)
    ensures
        r matches Ok(f) ==> f.ops() == plan.ops(),
{
    collect(copy_plan(plan))
}

/// The engine's description of the optimized form of a composed plan. Like
/// `optimized_plan_text`, it must not run with POLARS_FORCE_ASYNC set to "1"
/// on a plan that scans a file.
pub fn describe_optimized_plan(plan: &Plan) -> Result<String, PolarsError> {
    optimized_plan_text(plan)
}

/// What the results of a whole report compute: each forced stage's result is
/// the source followed by the operations of the stages up to it, and the lazy
/// result is the source followed by the whole pipeline, the same operations as
/// the last forced result.
pub open spec fn results_follow_pipeline(source: Seq<EngineOp>, report: BenchmarkReport<Frame>) -> bool {
    &&& forall|i: int|
        0 <= i < report.forced@.len() ==> #[trigger] report.forced@[i].result.ops() == source
            + ops_through(i)
    &&& report.lazy.result.ops() == source + pipeline_ops()
    &&& report.forced@.len() == 4 ==> report.forced@[3].result.ops() == report.lazy.result.ops()
}

/// Benchmarks the pipeline over `source` in forced and lazy mode with the
/// trial counts of `config`, sampling memory through `query_memory`. An invalid
/// configuration is rejected before the engine is called; any engine failure
/// aborts the run with that error. Over a source that scans a file it must not
/// run with POLARS_FORCE_ASYNC set to "1" (see `collect`).
pub fn benchmark<Q>(source: &Plan, query_memory: &Q, config: BenchmarkConfig) -> (r: Result<
    BenchmarkReport<Frame>,
    TrialError<PolarsError>,
>) where Q: Fn() -> Option<MemoryCounters>
    requires
        forall|| #[trigger] query_memory.requires(()),
    ensures
        !config.is_valid_spec() <==> r == Err::<BenchmarkReport<Frame>, TrialError<PolarsError>>(
            TrialError::Configuration,
        ),
        r is Ok ==> report_shape(*query_memory, config, r->Ok_0),
        r is Ok ==> results_follow_pipeline(source.ops(), r->Ok_0),
{
    let apply = |stage: Stage, input: Option<&Frame>| -> (out: Result<Frame, PolarsError>)
        ensures
            out matches Ok(f) ==> f.ops() == stage_input_ops(*source, stage, input) + stage_ops(stage),
        { apply_stage(source, stage, input) };
    let execute = |p: &Plan| -> (out: Result<Frame, PolarsError>)
        ensures
            out matches Ok(f) ==> f.ops() == p.ops(),
        { execute_plan(p) };
    let describe = |p: &Plan| -> (out: Result<String, PolarsError>) { describe_optimized_plan(p) };
    let plan = compose_pipeline(source);
    let r = run_benchmark(&apply, &plan, &execute, &describe, query_memory, config);
    proof {
        if r is Ok {
            let report = r->Ok_0;
            crate::pipeline::lemma_record_has_shape(apply, *query_memory, config, report);
            let v = report.forced@;
            assert(v[0].result.ops() =~= source.ops() + ops_through(0));
            assert forall|i: int| 0 <= i < v.len() implies #[trigger] v[i].result.ops()
                == source.ops() + ops_through(i) by {
                lemma_chain(apply, *query_memory, config.forced_trials, source, v, i);
            }
            assert(ops_through(1) =~= stage_ops(Stage::Sort));
            assert(ops_through(2) =~= stage_ops(Stage::Sort) + stage_ops(Stage::Filter));
            assert(ops_through(3) =~= ops_through(2) + stage_ops(Stage::Aggregate));
            assert(pipeline_ops() =~= ops_through(3));
            assert(v[3].result.ops() =~= source.ops() + pipeline_ops());
        }
    }
    r
}

proof fn lemma_chain<F, Q>(
    apply: F,
    query_memory: Q,
    trial_count: i64,
    source: &Plan,
    v: Seq<crate::pipeline::StageResult<Frame>>,
    i: int,
) where F: Fn(Stage, Option<&Frame>) -> Result<Frame, PolarsError>, Q: Fn() -> Option<MemoryCounters>
    requires
        crate::pipeline::forced_record(apply, query_memory, trial_count, v),
        forall|stage: Stage, input: Option<&Frame>, out: Result<Frame, PolarsError>|
            #[trigger] apply.ensures((stage, input), out) ==> (out matches Ok(f) ==> f.ops()
                == stage_input_ops(*source, stage, input) + stage_ops(stage)),
        0 <= i < v.len(),
    ensures
        v[i].result.ops() == source.ops() + ops_through(i),
    decreases i,
{
    if i == 0 {
        assert(apply.ensures((Stage::Load, None::<&Frame>), Ok::<Frame, PolarsError>(v[0].result)));
        assert(v[0].result.ops() =~= source.ops() + ops_through(0));
    } else {
        lemma_chain(apply, query_memory, trial_count, source, v, i - 1);
        assert(apply.ensures((stage_at(i), Some(&v[i - 1].result)), Ok::<Frame, PolarsError>(v[i].result)));
        assert(stage_at(i) != Stage::Load);
        assert(v[i].result.ops() =~= source.ops() + ops_through(i));
    }
}

/// Benchmarks the pipeline over the delimited file at `path`, as `benchmark`
/// does. An invalid configuration, or a path written as a URL (holding "://"),
/// which this engine build cannot read, is rejected with a configuration error
/// before the file is touched; a file that cannot be scanned aborts the run
/// with the engine's error. It must not run with POLARS_FORCE_ASYNC set to "1"
/// (see `scan_csv`).
pub fn benchmark_csv<Q>(path: &str, query_memory: &Q, config: BenchmarkConfig) -> (r: Result<
    BenchmarkReport<Frame>,
    TrialError<PolarsError>,
>) where Q: Fn() -> Option<MemoryCounters>
    requires
        forall|| #[trigger] query_memory.requires(()),
    ensures
        (!config.is_valid_spec() || has_url_separator(path.spec_bytes())) <==> r == Err::<
            BenchmarkReport<Frame>,
            TrialError<PolarsError>,
        >(TrialError::Configuration),
        r is Ok ==> report_shape(*query_memory, config, r->Ok_0),
        r is Ok ==> results_follow_pipeline(seq![EngineOp::ScanCsv(path@)], r->Ok_0),
{
    if !config.is_valid() || is_url_like(path) {
        return Err(TrialError::Configuration);
    }
    match scan_csv(path) {
        Ok(source) => benchmark(&source, query_memory, config),
        Err(e) => Err(TrialError::Operation(e)),
    }
}

} // verus!
