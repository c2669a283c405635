# parquet_metrics

Metric handles for Parquet scans on DataFusion, verified with Verus.

A `ParquetMetricSet` holds the handles of one scope of a scan: all files of an
execution partition (`new_compact`) or a single file (`new`, which labels the
metrics with the name of the file). Creating one registers its metrics with an
`ExecutionPlanMetricsSet`.

- `src/registration.rs`: the model, and the table of metrics that a scope has.
- `src/metrics.rs`: `ParquetMetricSet` and its contracts.
- `src/laws.rs`: what holds across calls.
- `src/handles.rs`: what is assumed of DataFusion. Nothing there is proved.

Handles and metrics sets are shared: a clone refers to the same metrics. Calls
that register or record take `&mut`, so that their contracts can speak of the
state before and after. Where several tasks create metric sets, `share_metrics`
gives each a holder of its own, known to differ from the others; from a shared
reference, clone the metrics set or the handles first and call on the clone.
