//! Benchmark orchestration for tabular data pipelines: a trial runner that
//! averages repeated timings, process memory snapshots, and an orchestrator
//! that measures a load, sort, filter and aggregate pipeline both stage by
//! stage and as one optimized plan.

pub mod engine;
pub mod pipeline;
pub mod telemetry;
pub mod trials;
