use datafusion_physical_plan::metrics::{
    ExecutionPlanMetricsSet, Metric, MetricBuilder, MetricCategory, MetricType, MetricValue,
    RatioMergeStrategy,
};
use parquet_metrics::metrics::{share_metrics, ParquetMetricSet};
use std::sync::Arc;
use std::time::Duration;

type Row = (
    &'static str,
    &'static str,
    MetricType,
    Option<MetricCategory>,
    bool,
    bool,
);

/// Name, kind, level, category, whether it has a partition, whether it takes
/// the filename label.
fn expected_rows() -> Vec<Row> {
    let summary = MetricType::Summary;
    let dev = MetricType::Dev;
    let rows = Some(MetricCategory::Rows);
    let bytes = Some(MetricCategory::Bytes);
    let timing = Some(MetricCategory::Timing);
    vec![
        ("row_groups_pruned_bloom_filter", "pruning", summary, rows, true, true),
        ("limit_pruned_row_groups", "pruning", summary, rows, true, true),
        ("row_groups_pruned_statistics", "pruning", summary, rows, true, true),
        ("page_index_pages_pruned", "pruning", summary, rows, true, true),
        ("bytes_scanned", "count", summary, bytes, true, true),
        ("metadata_load_time", "time", summary, timing, true, true),
        ("files_ranges_pruned_statistics", "pruning", summary, rows, true, false),
        ("scan_efficiency_ratio", "ratio", summary, rows, true, true),
        ("predicate_evaluation_errors", "count", dev, rows, true, true),
        ("pushdown_rows_pruned", "count", dev, rows, true, true),
        ("pushdown_rows_matched", "count", dev, rows, true, true),
        ("row_pushdown_eval_time", "time", dev, timing, true, true),
        ("statistics_eval_time", "time", dev, timing, true, true),
        ("bloom_filter_eval_time", "time", dev, timing, true, true),
        ("page_index_eval_time", "time", dev, timing, true, true),
        ("page_index_rows_pruned", "pruning", dev, rows, true, true),
        ("predicate_cache_inner_records", "gauge", dev, rows, true, true),
        ("predicate_cache_records", "gauge", dev, rows, true, true),
        ("row_groups_pruned_dynamic_filter", "count", summary, None, true, true),
        ("num_predicate_creation_errors", "count", dev, rows, false, false),
        ("page_index_pages_skipped_by_fully_matched", "count", summary, rows, true, true),
        ("page_index_load_skipped", "count", summary, None, true, true),
        ("start_timestamp", "start", dev, timing, true, false),
        ("end_timestamp", "end", summary, timing, true, false),
        ("elapsed_compute", "elapsed", summary, timing, true, false),
        ("output_rows", "output_rows", summary, rows, true, false),
        ("output_bytes", "output_bytes", summary, bytes, true, false),
        ("output_batches", "output_batches", dev, rows, true, false),
    ]
}

fn kind(value: &MetricValue) -> &'static str {
    match value {
        MetricValue::Count { .. } => "count",
        MetricValue::Gauge { .. } => "gauge",
        MetricValue::Time { .. } => "time",
        MetricValue::PruningMetrics { .. } => "pruning",
        MetricValue::Ratio { .. } => "ratio",
        MetricValue::StartTimestamp(_) => "start",
        MetricValue::EndTimestamp(_) => "end",
        MetricValue::ElapsedCompute(_) => "elapsed",
        MetricValue::OutputRows(_) => "output_rows",
        MetricValue::OutputBytes(_) => "output_bytes",
        MetricValue::OutputBatches(_) => "output_batches",
        _ => "other",
    }
}

fn all(metrics: &ExecutionPlanMetricsSet) -> Vec<Arc<Metric>> {
    metrics.clone_inner().into_iter().collect()
}

fn find(metrics: &ExecutionPlanMetricsSet, name: &str) -> Arc<Metric> {
    let mut found: Vec<Arc<Metric>> = all(metrics)
        .into_iter()
        .filter(|m| m.value().name() == name)
        .collect();
    assert_eq!(found.len(), 1, "{}", name);
    found.remove(0)
}

fn labels(metric: &Metric) -> Vec<(String, String)> {
    metric
        .labels()
        .iter()
        .map(|l| (l.name().to_string(), l.value().to_string()))
        .collect()
}

fn check_registered(metrics: &[Arc<Metric>], partition: usize, filename: Option<&str>) {
    let expected = expected_rows();
    assert_eq!(metrics.len(), expected.len());
    for (metric, (name, metric_kind, level, category, partitioned, labelled)) in
        metrics.iter().zip(expected)
    {
        assert_eq!(metric.value().name(), name);
        assert_eq!(kind(metric.value()), metric_kind, "{}", name);
        assert_eq!(metric.metric_type(), level, "{}", name);
        assert_eq!(metric.metric_category(), category, "{}", name);
        let expected_partition = if partitioned { Some(partition) } else { None };
        assert_eq!(metric.partition(), expected_partition, "{}", name);
        let expected_labels = match filename {
            Some(filename) if labelled => {
                vec![("filename".to_string(), filename.to_string())]
            }
            _ => vec![],
        };
        assert_eq!(labels(metric), expected_labels, "{}", name);
    }
}

fn has_filename_label(metrics: &ExecutionPlanMetricsSet) -> bool {
    all(metrics)
        .iter()
        .any(|m| m.labels().iter().any(|l| l.name() == "filename"))
}

fn bytes_scanned_registrations(metrics: &ExecutionPlanMetricsSet) -> usize {
    all(metrics)
        .iter()
        .filter(|m| m.value().name() == "bytes_scanned")
        .count()
}

#[test]
fn bytes_scanned_is_scan_efficiency_numerator() {
    let mut metrics = ExecutionPlanMetricsSet::new();
    let mut file_metrics = ParquetMetricSet::new(0, "test.parquet", &mut metrics);

    file_metrics.add_bytes_scanned(42);
    assert_eq!(file_metrics.bytes_scanned.value(), 42);
    assert_eq!(file_metrics.scan_efficiency_ratio.part(), 42);
}

#[test]
fn scanned_bytes_add_up_and_leave_the_rest_alone() {
    let mut metrics = ExecutionPlanMetricsSet::new();
    let mut set = ParquetMetricSet::new_compact(2, &mut metrics);

    set.scan_efficiency_ratio.set_total(1000);
    for bytes in [0, 7, 35, 100] {
        set.add_bytes_scanned(bytes);
    }
    assert_eq!(set.bytes_scanned.value(), 142);
    assert_eq!(set.scan_efficiency_ratio.part(), 142);
    assert_eq!(set.scan_efficiency_ratio.total(), 1000);
    assert_eq!(set.predicate_evaluation_errors.value(), 0);
    assert_eq!(set.pushdown_rows_pruned.value(), 0);
    assert_eq!(set.page_index_load_skipped.value(), 0);
    assert_eq!(set.predicate_cache_records.value(), 0);
    assert_eq!(set.metadata_load_time.value(), 0);
}

#[test]
fn scanned_bytes_wrap_around() {
    let mut metrics = ExecutionPlanMetricsSet::new();
    let mut set = ParquetMetricSet::new_compact(0, &mut metrics);

    set.add_bytes_scanned(usize::MAX);
    set.add_bytes_scanned(5);
    assert_eq!(set.bytes_scanned.value(), 4);
    assert_eq!(set.scan_efficiency_ratio.part(), 4);
}

#[test]
fn verbose_set_registers_labelled_metrics_in_order() {
    let mut metrics = ExecutionPlanMetricsSet::new();
    let _set = ParquetMetricSet::new(3, "dir/test.parquet", &mut metrics);
    check_registered(&all(&metrics), 3, Some("dir/test.parquet"));
}

#[test]
fn compact_set_registers_unlabelled_metrics_in_order() {
    let mut metrics = ExecutionPlanMetricsSet::new();
    let _set = ParquetMetricSet::new_compact(5, &mut metrics);
    check_registered(&all(&metrics), 5, None);
    assert!(all(&metrics).iter().all(|m| m.labels().is_empty()));
}

#[test]
fn an_empty_filename_is_still_a_label() {
    let mut metrics = ExecutionPlanMetricsSet::new();
    let _set = ParquetMetricSet::new(0, "", &mut metrics);
    check_registered(&all(&metrics), 0, Some(""));
}

#[test]
fn sets_register_after_what_is_there() {
    let mut metrics = ExecutionPlanMetricsSet::new();
    let earlier = MetricBuilder::new(&metrics).counter("earlier", 9);
    earlier.add(11);
    let _first = ParquetMetricSet::new(1, "a.parquet", &mut metrics);
    let _second = ParquetMetricSet::new_compact(2, &mut metrics);

    let registered = all(&metrics);
    assert_eq!(registered.len(), 57);
    assert_eq!(registered[0].value().name(), "earlier");
    assert_eq!(registered[0].value().as_usize(), 11);
    check_registered(&registered[1..29], 1, Some("a.parquet"));
    check_registered(&registered[29..], 2, None);
}

#[test]
fn a_clone_of_the_metrics_set_shares_the_registrations() {
    let metrics = ExecutionPlanMetricsSet::new();
    let _set = ParquetMetricSet::new_compact(4, &mut metrics.clone());
    check_registered(&all(&metrics), 4, None);
}

#[test]
fn files_of_a_partition_share_one_compact_set() {
    let mut metrics = ExecutionPlanMetricsSet::new();
    let mut first = ParquetMetricSet::new_compact(0, &mut metrics);
    let mut second = first.clone();
    first.add_bytes_scanned(3);
    second.add_bytes_scanned(4);

    assert!(!has_filename_label(&metrics));
    assert_eq!(bytes_scanned_registrations(&metrics), 1);
    assert_eq!(find(&metrics, "bytes_scanned").value().as_usize(), 7);
}

#[test]
fn files_in_verbose_mode_have_their_own_sets() {
    let mut metrics = ExecutionPlanMetricsSet::new();
    let mut first = ParquetMetricSet::new(0, "a.parquet", &mut metrics);
    let mut second = ParquetMetricSet::new(0, "b.parquet", &mut metrics);
    first.add_bytes_scanned(3);
    second.add_bytes_scanned(4);

    assert!(has_filename_label(&metrics));
    assert_eq!(bytes_scanned_registrations(&metrics), 2);
    assert_eq!(first.bytes_scanned.value(), 3);
    assert_eq!(second.bytes_scanned.value(), 4);
}

#[test]
fn modes_register_the_same_metrics() {
    let mut compact = ExecutionPlanMetricsSet::new();
    let mut verbose = ExecutionPlanMetricsSet::new();
    let _compact_set = ParquetMetricSet::new_compact(6, &mut compact);
    let _verbose_set = ParquetMetricSet::new(6, "x.parquet", &mut verbose);

    let compact = all(&compact);
    let verbose = all(&verbose);
    assert_eq!(compact.len(), verbose.len());
    for (one, other) in compact.iter().zip(&verbose) {
        assert_eq!(one.value().name(), other.value().name());
        assert_eq!(kind(one.value()), kind(other.value()));
        assert_eq!(one.metric_type(), other.metric_type());
        assert_eq!(one.metric_category(), other.metric_category());
        assert_eq!(one.partition(), other.partition());
    }
}

#[test]
fn metric_names_are_distinct() {
    let mut metrics = ExecutionPlanMetricsSet::new();
    let _set = ParquetMetricSet::new(0, "x.parquet", &mut metrics);
    let mut names: Vec<String> = all(&metrics)
        .iter()
        .map(|m| m.value().name().to_string())
        .collect();
    names.sort();
    names.dedup();
    assert_eq!(names.len(), 28);
}

#[test]
fn handles_start_at_zero() {
    let mut metrics = ExecutionPlanMetricsSet::new();
    let set = ParquetMetricSet::new(0, "x.parquet", &mut metrics);
    assert_eq!(set.bytes_scanned.value(), 0);
    assert_eq!(set.scan_efficiency_ratio.part(), 0);
    assert_eq!(set.scan_efficiency_ratio.total(), 0);
    assert_eq!(set.predicate_cache_inner_records.value(), 0);
    assert_eq!(set.statistics_eval_time.value(), 0);
    assert_eq!(set.limit_pruned_row_groups.pruned(), 0);
    assert_eq!(set.limit_pruned_row_groups.matched(), 0);
}

#[test]
fn counter_handles_report_under_their_names() {
    let mut metrics = ExecutionPlanMetricsSet::new();
    let set = ParquetMetricSet::new(0, "x.parquet", &mut metrics);
    let counters = [
        (&set.bytes_scanned, "bytes_scanned"),
        (&set.predicate_evaluation_errors, "predicate_evaluation_errors"),
        (&set.pushdown_rows_pruned, "pushdown_rows_pruned"),
        (&set.pushdown_rows_matched, "pushdown_rows_matched"),
        (&set.row_groups_pruned_dynamic_filter, "row_groups_pruned_dynamic_filter"),
        (&set.predicate_creation_errors, "num_predicate_creation_errors"),
        (
            &set.page_index_pages_skipped_by_fully_matched,
            "page_index_pages_skipped_by_fully_matched",
        ),
        (&set.page_index_load_skipped, "page_index_load_skipped"),
    ];
    for (i, (counter, name)) in counters.iter().enumerate() {
        counter.add(100 + i);
        assert_eq!(find(&metrics, name).value().as_usize(), 100 + i, "{}", name);
    }
}

#[test]
fn counters_of_a_set_are_independent() {
    let mut metrics = ExecutionPlanMetricsSet::new();
    let set = ParquetMetricSet::new_compact(0, &mut metrics);
    set.pushdown_rows_pruned.add(17);
    let changed: Vec<String> = all(&metrics)
        .iter()
        .filter(|m| kind(m.value()) == "count" && m.value().as_usize() != 0)
        .map(|m| m.value().name().to_string())
        .collect();
    assert_eq!(changed, vec!["pushdown_rows_pruned".to_string()]);
}

#[test]
fn sets_of_different_partitions_share_no_metric() {
    let mut metrics = ExecutionPlanMetricsSet::new();
    let mut first = ParquetMetricSet::new_compact(0, &mut metrics);
    let second = ParquetMetricSet::new_compact(1, &mut metrics);
    first.add_bytes_scanned(21);
    first.predicate_creation_errors.add(2);
    first.limit_pruned_row_groups.add_pruned(3);
    assert_eq!(second.bytes_scanned.value(), 0);
    assert_eq!(second.scan_efficiency_ratio.part(), 0);
    assert_eq!(second.predicate_creation_errors.value(), 0);
    assert_eq!(second.limit_pruned_row_groups.pruned(), 0);
    assert!(!Arc::ptr_eq(&first.baseline_metrics(), &second.baseline_metrics()));
}

#[test]
fn sets_of_different_metrics_sets_share_no_metric() {
    let mut metrics = ExecutionPlanMetricsSet::new();
    let mut other_metrics = ExecutionPlanMetricsSet::new();
    let mut first = ParquetMetricSet::new(0, "x.parquet", &mut metrics);
    let second = ParquetMetricSet::new(0, "x.parquet", &mut other_metrics);
    first.add_bytes_scanned(21);
    assert_eq!(find(&metrics, "bytes_scanned").value().as_usize(), 21);
    assert_eq!(find(&other_metrics, "bytes_scanned").value().as_usize(), 0);
    assert_eq!(second.bytes_scanned.value(), 0);
    assert_eq!(second.scan_efficiency_ratio.part(), 0);
}

#[test]
fn sets_created_through_clones_share_no_metric() {
    let metrics = ExecutionPlanMetricsSet::new();
    let mut first = ParquetMetricSet::new(0, "x.parquet", &mut metrics.clone());
    let mut second = ParquetMetricSet::new(0, "x.parquet", &mut metrics.clone());
    first.add_bytes_scanned(21);
    assert_eq!(second.bytes_scanned.value(), 0);
    assert_eq!(second.scan_efficiency_ratio.part(), 0);
    assert_eq!(second.scan_efficiency_ratio.total(), 0);
    second.add_bytes_scanned(4);
    assert_eq!(first.bytes_scanned.value(), 21);
    assert_eq!(bytes_scanned_registrations(&metrics), 2);
}

#[test]
fn shared_holders_register_with_one_metrics_set() {
    let mut metrics = ExecutionPlanMetricsSet::new();
    let mut first_holder = share_metrics(&mut metrics);
    let mut second_holder = share_metrics(&mut metrics);
    assert_eq!(all(&metrics).len(), 0);
    let mut first = ParquetMetricSet::new(0, "x.parquet", &mut first_holder);
    let mut second = ParquetMetricSet::new(0, "x.parquet", &mut second_holder);
    first.add_bytes_scanned(5);
    second.add_bytes_scanned(6);
    assert_eq!(first.bytes_scanned.value(), 5);
    assert_eq!(second.bytes_scanned.value(), 6);
    assert_eq!(all(&metrics).len(), 56);
    assert_eq!(all(&first_holder).len(), 56);
    assert_eq!(bytes_scanned_registrations(&metrics), 2);
}

#[test]
fn a_set_and_its_clones_add_up_in_both_places() {
    let mut metrics = ExecutionPlanMetricsSet::new();
    let mut set = ParquetMetricSet::new_compact(0, &mut metrics);
    let mut clone = set.clone();
    let mut clone_of_clone = clone.clone();
    set.add_bytes_scanned(1);
    clone.add_bytes_scanned(20);
    clone_of_clone.add_bytes_scanned(300);
    set.add_bytes_scanned(4000);
    assert_eq!(clone.bytes_scanned.value(), 4321);
    assert_eq!(clone.scan_efficiency_ratio.part(), 4321);
}

#[test]
fn reading_the_baseline_changes_nothing() {
    let mut metrics = ExecutionPlanMetricsSet::new();
    let set = ParquetMetricSet::new(0, "x.parquet", &mut metrics);
    let before: Vec<String> = all(&metrics).iter().map(|m| m.to_string()).collect();
    let _first = set.baseline_metrics();
    let _second = set.clone().baseline_metrics();
    let after: Vec<String> = all(&metrics).iter().map(|m| m.to_string()).collect();
    assert_eq!(before, after);
}

#[test]
fn gauge_and_time_handles_report_under_their_names() {
    let mut metrics = ExecutionPlanMetricsSet::new();
    let set = ParquetMetricSet::new(0, "x.parquet", &mut metrics);
    let gauges = [
        (&set.predicate_cache_inner_records, "predicate_cache_inner_records"),
        (&set.predicate_cache_records, "predicate_cache_records"),
    ];
    for (i, (gauge, name)) in gauges.iter().enumerate() {
        gauge.set(200 + i);
        assert_eq!(find(&metrics, name).value().as_usize(), 200 + i, "{}", name);
    }
    let times = [
        (&set.row_pushdown_eval_time, "row_pushdown_eval_time"),
        (&set.statistics_eval_time, "statistics_eval_time"),
        (&set.bloom_filter_eval_time, "bloom_filter_eval_time"),
        (&set.page_index_eval_time, "page_index_eval_time"),
        (&set.metadata_load_time, "metadata_load_time"),
    ];
    for (i, (time, name)) in times.iter().enumerate() {
        time.add_duration(Duration::from_nanos(300 + i as u64));
        assert_eq!(find(&metrics, name).value().as_usize(), 300 + i, "{}", name);
    }
}

#[test]
fn pruning_handles_report_under_their_names() {
    let mut metrics = ExecutionPlanMetricsSet::new();
    let set = ParquetMetricSet::new(0, "x.parquet", &mut metrics);
    let handles = [
        (&set.files_ranges_pruned_statistics, "files_ranges_pruned_statistics"),
        (&set.row_groups_pruned_bloom_filter, "row_groups_pruned_bloom_filter"),
        (&set.limit_pruned_row_groups, "limit_pruned_row_groups"),
        (&set.row_groups_pruned_statistics, "row_groups_pruned_statistics"),
        (&set.page_index_rows_pruned, "page_index_rows_pruned"),
        (&set.page_index_pages_pruned, "page_index_pages_pruned"),
    ];
    for (i, (handle, wanted)) in handles.iter().enumerate() {
        handle.add_pruned(400 + i);
        match find(&metrics, wanted).value() {
            MetricValue::PruningMetrics { pruning_metrics, .. } => {
                assert_eq!(pruning_metrics.pruned(), 400 + i, "{}", wanted);
            }
            _ => panic!("{} is not a pruning metric", wanted),
        }
    }
}

#[test]
fn scan_efficiency_adds_parts_and_sets_totals() {
    let mut metrics = ExecutionPlanMetricsSet::new();
    let mut set = ParquetMetricSet::new(0, "x.parquet", &mut metrics);
    assert!(matches!(
        set.scan_efficiency_ratio.merge_strategy(),
        RatioMergeStrategy::AddPartSetTotal
    ));
    set.add_bytes_scanned(30);
    match find(&metrics, "scan_efficiency_ratio").value() {
        MetricValue::Ratio { ratio_metrics, .. } => {
            assert_eq!(ratio_metrics.part(), 30);
            assert_eq!(ratio_metrics.total(), 0);
        }
        _ => panic!("not a ratio"),
    }
}

#[test]
fn clones_update_the_same_metrics() {
    let mut metrics = ExecutionPlanMetricsSet::new();
    let mut set = ParquetMetricSet::new(0, "x.parquet", &mut metrics);
    let mut clone = set.clone();
    assert_eq!(all(&metrics).len(), 28);
    set.add_bytes_scanned(1);
    clone.add_bytes_scanned(2);
    assert_eq!(set.bytes_scanned.value(), 3);
    assert_eq!(clone.scan_efficiency_ratio.part(), 3);
    clone.limit_pruned_row_groups.add_matched(8);
    assert_eq!(set.limit_pruned_row_groups.matched(), 8);
    clone.predicate_cache_records.set(9);
    assert_eq!(set.predicate_cache_records.value(), 9);
    clone.metadata_load_time.add_duration(Duration::from_nanos(10));
    assert_eq!(set.metadata_load_time.value(), 10);
    assert!(Arc::ptr_eq(&set.baseline_metrics(), &clone.baseline_metrics()));
}

#[test]
fn baseline_metrics_are_shared_and_registered() {
    let mut metrics = ExecutionPlanMetricsSet::new();
    let set = ParquetMetricSet::new(7, "x.parquet", &mut metrics);
    let baseline = set.baseline_metrics();
    assert!(Arc::ptr_eq(&baseline, &set.baseline_metrics()));
    match find(&metrics, "start_timestamp").value() {
        MetricValue::StartTimestamp(start) => assert!(start.value().is_some()),
        _ => panic!("not a start timestamp"),
    }
    match find(&metrics, "end_timestamp").value() {
        MetricValue::EndTimestamp(end) => assert!(end.value().is_none()),
        _ => panic!("not an end timestamp"),
    }

    baseline.output_rows().add(12);
    assert_eq!(find(&metrics, "output_rows").value().as_usize(), 12);
    assert_eq!(find(&metrics, "output_rows").partition(), Some(7));
    baseline.elapsed_compute().add_duration(Duration::from_nanos(13));
    assert_eq!(find(&metrics, "elapsed_compute").value().as_usize(), 13);
}
