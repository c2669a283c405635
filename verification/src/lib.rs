//! Metric handles for Parquet scans.
//!
//! [`metrics::ParquetMetricSet`] registers the metrics of one scope of a scan
//! with an `ExecutionPlanMetricsSet` and keeps a handle to each of them. What
//! is registered, under which name, level, category, partition and labels, is
//! stated in [`registration`]; the promises that span several calls are proved
//! in [`laws`]; [`handles`] holds what is assumed of DataFusion.

pub mod handles;
pub mod laws;
pub mod metrics;
pub mod registration;
