//! The metric handles of one scope of a Parquet scan.

use crate::handles::{
    add_count, add_ratio_part, baseline_view, builder_source, builder_view, clone_holder,
    clones_made, copy_builder, copy_label, count_view, gauge_view, holder_of, label_view,
    pruning_view, ratio_view, register_baseline, register_counter, register_gauge,
    register_global_counter, register_pruning, register_ratio, register_time, registered,
    shared_label, time_view,
};
use crate::registration::{
    adds_new_metrics, baseline_registrations, lemma_more_new_metrics,
    lemma_one_more_new_metric, registrations, scan_registrations, HandleView, Holder,
    LabelText, MetricEntry, Update,
};
use datafusion_physical_plan::metrics::{
    BaselineMetrics, Count, ExecutionPlanMetricsSet, Gauge, Label, MetricCategory,
    MetricType, PruningMetrics, RatioMergeStrategy, RatioMetrics, Time,
};
use std::sync::Arc;
use vstd::prelude::*;

verus! {

/// Stores Parquet metric handles for one selected scope.
///
/// The set is shared by all files in an execution partition in compact mode,
/// and dedicated to one file in verbose mode. Clones share their metrics.
#[derive(Debug)]
pub struct ParquetMetricSet {
    /// Number of file **ranges** pruned or matched by partition or file level statistics.
    /// Pruning of files often happens at planning time but may happen at execution time
    /// if dynamic filters (e.g. from a join) result in additional pruning.
    ///
    /// This does **not** necessarily equal the number of files pruned:
    /// files may be scanned in sub-ranges to increase parallelism,
    /// in which case this will represent the number of sub-ranges pruned, not the number of files.
    /// The number of files pruned will always be less than or equal to this number.
    ///
    /// A single file may have some ranges that are not pruned and some that are pruned.
    /// For example, with a query like `ORDER BY col LIMIT 10`, the TopK dynamic filter
    /// pushdown optimization may fill up the TopK heap when reading the first part of a file,
    /// then skip the second part if file statistics indicate it cannot contain rows
    /// that would be in the TopK.
    pub files_ranges_pruned_statistics: PruningMetrics,
    /// Number of times the predicate could not be evaluated
    pub predicate_evaluation_errors: Count,
    /// Number of row groups pruned by bloom filters
    pub row_groups_pruned_bloom_filter: PruningMetrics,
    /// Number of row groups pruned due to limit pruning.
    pub limit_pruned_row_groups: PruningMetrics,
    /// Number of row groups pruned by statistics
    pub row_groups_pruned_statistics: PruningMetrics,
    /// Number of row groups pruned at runtime by a dynamic predicate
    /// (e.g. the threshold expression a TopK `SortExec` pushes down).
    ///
    /// Unlike [`Self::row_groups_pruned_statistics`], which is decided once
    /// at access-plan time, this counter reflects row groups that survived
    /// the initial pruning but were proved unreachable mid-scan after the
    /// dynamic filter tightened.
    pub row_groups_pruned_dynamic_filter: Count,
    /// Total number of bytes scanned
    pub bytes_scanned: Count,
    /// Total rows filtered out by predicates pushed into parquet scan
    pub pushdown_rows_pruned: Count,
    /// Total rows passed predicates pushed into parquet scan
    pub pushdown_rows_matched: Count,
    /// Total time spent evaluating row-level pushdown filters
    pub row_pushdown_eval_time: Time,
    /// Total time spent evaluating row group-level statistics filters
    pub statistics_eval_time: Time,
    /// Total time spent evaluating row group Bloom Filters
    pub bloom_filter_eval_time: Time,
    /// Total rows filtered or matched by parquet page index
    pub page_index_rows_pruned: PruningMetrics,
    /// Total pages filtered or matched by parquet page index
    pub page_index_pages_pruned: PruningMetrics,
    /// Total time spent evaluating parquet page index filters
    pub page_index_eval_time: Time,
    /// Total time spent reading and parsing metadata from the footer
    pub metadata_load_time: Time,
    /// Scan Efficiency Ratio, calculated as bytes_scanned / total_file_size
    pub scan_efficiency_ratio: RatioMetrics,
    /// Predicate Cache: Total number of rows physically read and decoded from the Parquet file.
    ///
    /// This metric tracks "cache misses" in the predicate pushdown optimization.
    /// When the specialized predicate reader cannot find the requested data in its cache,
    /// it must fall back to the "inner reader" to physically decode the data from the
    /// Parquet.
    ///
    /// This is the expensive path (IO + Decompression + Decoding).
    ///
    /// This is a gauge because the reader reports absolute numbers rather
    /// than incremental readings: they are `set`, not added.
    pub predicate_cache_inner_records: Gauge,
    /// Predicate Cache: number of records read from the cache. This is the
    /// number of rows that were stored in the cache after evaluating predicates
    /// reused for the output.
    pub predicate_cache_records: Gauge,
    /// Number of errors constructing pruning predicates.
    pub predicate_creation_errors: Count,
    /// Pages skipped because row-group statistics proved a full match.
    pub page_index_pages_skipped_by_fully_matched: Count,
    /// Page-index loads skipped because they could not prune further.
    pub page_index_load_skipped: Count,
    pub(crate) baseline_metrics: Arc<BaselineMetrics>,
}

/// The view of a [`ParquetMetricSet`]: the view of each handle under the name
/// of its field, in the order in which the metrics are registered, and the
/// baseline metrics.
#[verifier::ext_equal]
pub struct MetricSetView {
    pub row_groups_pruned_bloom_filter: HandleView,
    pub limit_pruned_row_groups: HandleView,
    pub row_groups_pruned_statistics: HandleView,
    pub page_index_pages_pruned: HandleView,
    pub bytes_scanned: HandleView,
    pub metadata_load_time: HandleView,
    pub files_ranges_pruned_statistics: HandleView,
    pub scan_efficiency_ratio: HandleView,
    pub predicate_evaluation_errors: HandleView,
    pub pushdown_rows_pruned: HandleView,
    pub pushdown_rows_matched: HandleView,
    pub row_pushdown_eval_time: HandleView,
    pub statistics_eval_time: HandleView,
    pub bloom_filter_eval_time: HandleView,
    pub page_index_eval_time: HandleView,
    pub page_index_rows_pruned: HandleView,
    pub predicate_cache_inner_records: HandleView,
    pub predicate_cache_records: HandleView,
    pub row_groups_pruned_dynamic_filter: HandleView,
    pub predicate_creation_errors: HandleView,
    pub page_index_pages_skipped_by_fully_matched: HandleView,
    pub page_index_load_skipped: HandleView,
    pub baseline: BaselineMetrics,
}

impl MetricSetView {
    /// All handles, in the order in which the metrics are registered.
    pub open spec fn handles(self) -> Seq<HandleView> {
        seq![
            self.row_groups_pruned_bloom_filter,
            self.limit_pruned_row_groups,
            self.row_groups_pruned_statistics,
            self.page_index_pages_pruned,
            self.bytes_scanned,
            self.metadata_load_time,
            self.files_ranges_pruned_statistics,
            self.scan_efficiency_ratio,
            self.predicate_evaluation_errors,
            self.pushdown_rows_pruned,
            self.pushdown_rows_matched,
            self.row_pushdown_eval_time,
            self.statistics_eval_time,
            self.bloom_filter_eval_time,
            self.page_index_eval_time,
            self.page_index_rows_pruned,
            self.predicate_cache_inner_records,
            self.predicate_cache_records,
            self.row_groups_pruned_dynamic_filter,
            self.predicate_creation_errors,
            self.page_index_pages_skipped_by_fully_matched,
            self.page_index_load_skipped,
        ]
    }

    /// The view of a clone of the set: handles to the same metrics, through
    /// which nothing has been recorded yet, and the same baseline metrics.
    pub open spec fn cloned(self) -> MetricSetView {
        MetricSetView {
            row_groups_pruned_bloom_filter: self.row_groups_pruned_bloom_filter.cloned(),
            limit_pruned_row_groups: self.limit_pruned_row_groups.cloned(),
            row_groups_pruned_statistics: self.row_groups_pruned_statistics.cloned(),
            page_index_pages_pruned: self.page_index_pages_pruned.cloned(),
            bytes_scanned: self.bytes_scanned.cloned(),
            metadata_load_time: self.metadata_load_time.cloned(),
            files_ranges_pruned_statistics: self.files_ranges_pruned_statistics.cloned(),
            scan_efficiency_ratio: self.scan_efficiency_ratio.cloned(),
            predicate_evaluation_errors: self.predicate_evaluation_errors.cloned(),
            pushdown_rows_pruned: self.pushdown_rows_pruned.cloned(),
            pushdown_rows_matched: self.pushdown_rows_matched.cloned(),
            row_pushdown_eval_time: self.row_pushdown_eval_time.cloned(),
            statistics_eval_time: self.statistics_eval_time.cloned(),
            bloom_filter_eval_time: self.bloom_filter_eval_time.cloned(),
            page_index_eval_time: self.page_index_eval_time.cloned(),
            page_index_rows_pruned: self.page_index_rows_pruned.cloned(),
            predicate_cache_inner_records: self.predicate_cache_inner_records.cloned(),
            predicate_cache_records: self.predicate_cache_records.cloned(),
            row_groups_pruned_dynamic_filter: self.row_groups_pruned_dynamic_filter.cloned(),
            predicate_creation_errors: self.predicate_creation_errors.cloned(),
            page_index_pages_skipped_by_fully_matched: self
                .page_index_pages_skipped_by_fully_matched.cloned(),
            page_index_load_skipped: self.page_index_load_skipped.cloned(),
            baseline: self.baseline,
        }
    }

    /// All metrics of the set, in the order in which they are registered.
    pub open spec fn entries(self) -> Seq<MetricEntry> {
        self.handles().map_values(|handle: HandleView| handle.entry) + baseline_view(self.baseline)
    }

    /// A new set for the given scope: each handle is registered as the metric
    /// of its name, the baseline metrics are those of the partition, and
    /// nothing has been recorded yet.
    pub open spec fn is_new(self, partition: usize, labels: Seq<LabelText>) -> bool {
        let scan = scan_registrations(partition, labels);
        &&& self.row_groups_pruned_bloom_filter.is_new(scan[0])
        &&& self.limit_pruned_row_groups.is_new(scan[1])
        &&& self.row_groups_pruned_statistics.is_new(scan[2])
        &&& self.page_index_pages_pruned.is_new(scan[3])
        &&& self.bytes_scanned.is_new(scan[4])
        &&& self.metadata_load_time.is_new(scan[5])
        &&& self.files_ranges_pruned_statistics.is_new(scan[6])
        &&& self.scan_efficiency_ratio.is_new(scan[7])
        &&& self.predicate_evaluation_errors.is_new(scan[8])
        &&& self.pushdown_rows_pruned.is_new(scan[9])
        &&& self.pushdown_rows_matched.is_new(scan[10])
        &&& self.row_pushdown_eval_time.is_new(scan[11])
        &&& self.statistics_eval_time.is_new(scan[12])
        &&& self.bloom_filter_eval_time.is_new(scan[13])
        &&& self.page_index_eval_time.is_new(scan[14])
        &&& self.page_index_rows_pruned.is_new(scan[15])
        &&& self.predicate_cache_inner_records.is_new(scan[16])
        &&& self.predicate_cache_records.is_new(scan[17])
        &&& self.row_groups_pruned_dynamic_filter.is_new(scan[18])
        &&& self.predicate_creation_errors.is_new(scan[19])
        &&& self.page_index_pages_skipped_by_fully_matched.is_new(scan[20])
        &&& self.page_index_load_skipped.is_new(scan[21])
        &&& registrations(baseline_view(self.baseline)) == baseline_registrations(partition)
    }

    /// The set is new, its metrics were registered by `holder`, and what that
    /// holder has registered went from `before` to `after` by these metrics,
    /// which are all new ones.
    pub open spec fn is_created(
        self,
        partition: usize,
        labels: Seq<LabelText>,
        holder: Holder,
        before: Seq<MetricEntry>,
        after: Seq<MetricEntry>,
    ) -> bool {
        &&& self.is_new(partition, labels)
        &&& forall|i: int|
            0 <= i < self.entries().len() ==> (#[trigger] self.entries()[i]).holder == holder
        &&& after == before + self.entries()
        &&& adds_new_metrics(before, after)
    }

    /// The set after `bytes` more bytes were recorded as scanned: through its
    /// handles they are added to the counter of scanned bytes and to the
    /// numerator of the scan efficiency, and nothing else is recorded through
    /// its handles.
    pub open spec fn scanned(self, bytes: usize) -> MetricSetView {
        MetricSetView {
            bytes_scanned: self.bytes_scanned.updated(Update::Add(bytes)),
            scan_efficiency_ratio: self.scan_efficiency_ratio.updated(Update::AddPart(bytes)),
            ..self
        }
    }
}

impl View for ParquetMetricSet {
    type V = MetricSetView;

    closed spec fn view(&self) -> MetricSetView {
        MetricSetView {
            row_groups_pruned_bloom_filter: pruning_view(self.row_groups_pruned_bloom_filter),
            limit_pruned_row_groups: pruning_view(self.limit_pruned_row_groups),
            row_groups_pruned_statistics: pruning_view(self.row_groups_pruned_statistics),
            page_index_pages_pruned: pruning_view(self.page_index_pages_pruned),
            bytes_scanned: count_view(self.bytes_scanned),
            metadata_load_time: time_view(self.metadata_load_time),
            files_ranges_pruned_statistics: pruning_view(self.files_ranges_pruned_statistics),
            scan_efficiency_ratio: ratio_view(self.scan_efficiency_ratio),
            predicate_evaluation_errors: count_view(self.predicate_evaluation_errors),
            pushdown_rows_pruned: count_view(self.pushdown_rows_pruned),
            pushdown_rows_matched: count_view(self.pushdown_rows_matched),
            row_pushdown_eval_time: time_view(self.row_pushdown_eval_time),
            statistics_eval_time: time_view(self.statistics_eval_time),
            bloom_filter_eval_time: time_view(self.bloom_filter_eval_time),
            page_index_eval_time: time_view(self.page_index_eval_time),
            page_index_rows_pruned: pruning_view(self.page_index_rows_pruned),
            predicate_cache_inner_records: gauge_view(self.predicate_cache_inner_records),
            predicate_cache_records: gauge_view(self.predicate_cache_records),
            row_groups_pruned_dynamic_filter: count_view(self.row_groups_pruned_dynamic_filter),
            predicate_creation_errors: count_view(self.predicate_creation_errors),
            page_index_pages_skipped_by_fully_matched: count_view(
                self.page_index_pages_skipped_by_fully_matched,
            ),
            page_index_load_skipped: count_view(self.page_index_load_skipped),
            baseline: *self.baseline_metrics,
        }
    }
}

impl ParquetMetricSet {
    /// Create a filename-labelled metric set for verbose mode.
    pub fn new(
        partition: usize,
        filename: &str,
        metrics: &mut ExecutionPlanMetricsSet,
    ) -> (res: Self)
        ensures
            res@.is_created(
                partition,
                seq![LabelText { name: "filename"@, value: filename@ }],
                holder_of(*old(metrics)),
                registered(*old(metrics)),
                registered(*final(metrics)),
            ),
            holder_of(*final(metrics)) == holder_of(*old(metrics)),
            clones_made(*final(metrics)) == clones_made(*old(metrics)),
        opens_invariants none
    {
        // Share the filename label across all per-file metrics to avoid
        // allocating the same filename string for each metric.
        let filename_label = shared_label("filename", filename);
        Self::new_for_file(partition, Some(&filename_label), metrics)
    }

    /// Create metrics shared by all files in an execution partition.
    pub fn new_compact(partition: usize, metrics: &mut ExecutionPlanMetricsSet) -> (res: Self)
        ensures
            res@.is_created(
                partition,
                Seq::empty(),
                holder_of(*old(metrics)),
                registered(*old(metrics)),
                registered(*final(metrics)),
            ),
            holder_of(*final(metrics)) == holder_of(*old(metrics)),
            clones_made(*final(metrics)) == clones_made(*old(metrics)),
        opens_invariants none
    {
        Self::new_for_file(partition, None, metrics)
    }

    /// Register the metrics of a scope and keep their handles.
    #[verifier::rlimit(60)]
    pub(crate) fn new_for_file(
        partition: usize,
        filename_label: Option<&Label>,
        metrics: &mut ExecutionPlanMetricsSet,
    ) -> (res: Self)
        ensures
            res@.is_created(
                partition,
                scope_labels(filename_label),
                holder_of(*old(metrics)),
                registered(*old(metrics)),
                registered(*final(metrics)),
            ),
            pruning_view(res.row_groups_pruned_bloom_filter).is_new(
                scan_registrations(partition, scope_labels(filename_label))[0],
            ),
            pruning_view(res.limit_pruned_row_groups).is_new(
                scan_registrations(partition, scope_labels(filename_label))[1],
            ),
            pruning_view(res.row_groups_pruned_statistics).is_new(
                scan_registrations(partition, scope_labels(filename_label))[2],
            ),
            pruning_view(res.page_index_pages_pruned).is_new(
                scan_registrations(partition, scope_labels(filename_label))[3],
            ),
            count_view(res.bytes_scanned).is_new(
                scan_registrations(partition, scope_labels(filename_label))[4],
            ),
            time_view(res.metadata_load_time).is_new(
                scan_registrations(partition, scope_labels(filename_label))[5],
            ),
            pruning_view(res.files_ranges_pruned_statistics).is_new(
                scan_registrations(partition, scope_labels(filename_label))[6],
            ),
            ratio_view(res.scan_efficiency_ratio).is_new(
                scan_registrations(partition, scope_labels(filename_label))[7],
            ),
            count_view(res.predicate_evaluation_errors).is_new(
                scan_registrations(partition, scope_labels(filename_label))[8],
            ),
            count_view(res.pushdown_rows_pruned).is_new(
                scan_registrations(partition, scope_labels(filename_label))[9],
            ),
            count_view(res.pushdown_rows_matched).is_new(
                scan_registrations(partition, scope_labels(filename_label))[10],
            ),
            time_view(res.row_pushdown_eval_time).is_new(
                scan_registrations(partition, scope_labels(filename_label))[11],
            ),
            time_view(res.statistics_eval_time).is_new(
                scan_registrations(partition, scope_labels(filename_label))[12],
            ),
            time_view(res.bloom_filter_eval_time).is_new(
                scan_registrations(partition, scope_labels(filename_label))[13],
            ),
            time_view(res.page_index_eval_time).is_new(
                scan_registrations(partition, scope_labels(filename_label))[14],
            ),
            pruning_view(res.page_index_rows_pruned).is_new(
                scan_registrations(partition, scope_labels(filename_label))[15],
            ),
            gauge_view(res.predicate_cache_inner_records).is_new(
                scan_registrations(partition, scope_labels(filename_label))[16],
            ),
            gauge_view(res.predicate_cache_records).is_new(
                scan_registrations(partition, scope_labels(filename_label))[17],
            ),
            count_view(res.row_groups_pruned_dynamic_filter).is_new(
                scan_registrations(partition, scope_labels(filename_label))[18],
            ),
            count_view(res.predicate_creation_errors).is_new(
                scan_registrations(partition, scope_labels(filename_label))[19],
            ),
            count_view(res.page_index_pages_skipped_by_fully_matched).is_new(
                scan_registrations(partition, scope_labels(filename_label))[20],
            ),
            count_view(res.page_index_load_skipped).is_new(
                scan_registrations(partition, scope_labels(filename_label))[21],
            ),
            registrations(baseline_view(*res.baseline_metrics)) == baseline_registrations(
                partition,
            ),
            holder_of(*final(metrics)) == holder_of(*old(metrics)),
            clones_made(*final(metrics)) == clones_made(*old(metrics)),
        opens_invariants none
    {
        broadcast use lemma_one_more_new_metric;

        let source = builder_source(metrics);
        let builder = match filename_label {
            Some(label) => source.builder().with_label(copy_label(label)),
            None => source.builder(),
        };
        assert(builder_view(builder).labels =~= scope_labels(filename_label));

        // -----------------------
        // 'summary' level metrics
        // -----------------------
        let row_groups_pruned_bloom_filter = register_pruning(
            metrics,
            copy_builder(&builder).with_type(MetricType::Summary),
            "row_groups_pruned_bloom_filter",
            partition,
        );

        let limit_pruned_row_groups = register_pruning(
            metrics,
            copy_builder(&builder).with_type(MetricType::Summary),
            "limit_pruned_row_groups",
            partition,
        );

        let row_groups_pruned_statistics = register_pruning(
            metrics,
            copy_builder(&builder).with_type(MetricType::Summary),
            "row_groups_pruned_statistics",
            partition,
        );

        let page_index_pages_pruned = register_pruning(
            metrics,
            copy_builder(&builder).with_type(MetricType::Summary),
            "page_index_pages_pruned",
            partition,
        );

        let bytes_scanned = register_counter(
            metrics,
            copy_builder(&builder).with_type(MetricType::Summary).with_category(
                MetricCategory::Bytes,
            ),
            "bytes_scanned",
            partition,
        );

        let metadata_load_time = register_time(
            metrics,
            copy_builder(&builder).with_type(MetricType::Summary),
            "metadata_load_time",
            partition,
        );

        let files_ranges_pruned_statistics = register_pruning(
            metrics,
            source.builder().with_type(MetricType::Summary),
            "files_ranges_pruned_statistics",
            partition,
        );

        let scan_efficiency_ratio = register_ratio(
            metrics,
            copy_builder(&builder).with_type(MetricType::Summary),
            "scan_efficiency_ratio",
            partition,
            RatioMergeStrategy::AddPartSetTotal,
        );

        // -----------------------
        // 'dev' level metrics
        // -----------------------
        let predicate_evaluation_errors = register_counter(
            metrics,
            copy_builder(&builder).with_category(MetricCategory::Rows),
            "predicate_evaluation_errors",
            partition,
        );

        let pushdown_rows_pruned = register_counter(
            metrics,
            copy_builder(&builder).with_category(MetricCategory::Rows),
            "pushdown_rows_pruned",
            partition,
        );
        let pushdown_rows_matched = register_counter(
            metrics,
            copy_builder(&builder).with_category(MetricCategory::Rows),
            "pushdown_rows_matched",
            partition,
        );

        let row_pushdown_eval_time = register_time(
            metrics,
            copy_builder(&builder),
            "row_pushdown_eval_time",
            partition,
        );
        let statistics_eval_time = register_time(
            metrics,
            copy_builder(&builder),
            "statistics_eval_time",
            partition,
        );
        let bloom_filter_eval_time = register_time(
            metrics,
            copy_builder(&builder),
            "bloom_filter_eval_time",
            partition,
        );

        let page_index_eval_time = register_time(
            metrics,
            copy_builder(&builder),
            "page_index_eval_time",
            partition,
        );

        let page_index_rows_pruned = register_pruning(
            metrics,
            copy_builder(&builder),
            "page_index_rows_pruned",
            partition,
        );

        let predicate_cache_inner_records = register_gauge(
            metrics,
            copy_builder(&builder).with_category(MetricCategory::Rows),
            "predicate_cache_inner_records",
            partition,
        );

        let predicate_cache_records = register_gauge(
            metrics,
            copy_builder(&builder).with_category(MetricCategory::Rows),
            "predicate_cache_records",
            partition,
        );

        let row_groups_pruned_dynamic_filter = register_counter(
            metrics,
            copy_builder(&builder).with_type(MetricType::Summary),
            "row_groups_pruned_dynamic_filter",
            partition,
        );

        let predicate_creation_errors = register_global_counter(
            metrics,
            source.builder().with_category(MetricCategory::Rows),
            "num_predicate_creation_errors",
        );

        let page_index_pages_skipped_by_fully_matched = register_counter(
            metrics,
            copy_builder(&builder).with_type(MetricType::Summary).with_category(
                MetricCategory::Rows,
            ),
            "page_index_pages_skipped_by_fully_matched",
            partition,
        );

        let page_index_load_skipped = register_counter(
            metrics,
            copy_builder(&builder).with_type(MetricType::Summary),
            "page_index_load_skipped",
            partition,
        );

        let ghost registered_here = registered(*metrics);
        let baseline_metrics = register_baseline(metrics, partition);

        let res = Self {
            files_ranges_pruned_statistics,
            predicate_evaluation_errors,
            row_groups_pruned_bloom_filter,
            row_groups_pruned_statistics,
            limit_pruned_row_groups,
            bytes_scanned,
            pushdown_rows_pruned,
            pushdown_rows_matched,
            row_pushdown_eval_time,
            page_index_rows_pruned,
            page_index_pages_pruned,
            statistics_eval_time,
            bloom_filter_eval_time,
            page_index_eval_time,
            metadata_load_time,
            scan_efficiency_ratio,
            predicate_cache_inner_records,
            predicate_cache_records,
            row_groups_pruned_dynamic_filter,
            predicate_creation_errors,
            page_index_pages_skipped_by_fully_matched,
            page_index_load_skipped,
            baseline_metrics,
        };
        proof {
            let entries = res@.handles().map_values(|handle: HandleView| handle.entry);
            assert(registered_here =~= registered(*old(metrics)) + entries);
            assert(adds_new_metrics(registered(*old(metrics)), registered(*old(metrics))));
            lemma_more_new_metrics(
                registered(*old(metrics)),
                registered_here,
                registered(*metrics),
            );
            assert(registered(*metrics) =~= registered(*old(metrics)) + res@.entries());
        }
        res
    }

    /// Record bytes scanned and update the scan-efficiency numerator.
    pub fn add_bytes_scanned(&mut self, bytes: usize)
        ensures
            final(self)@ == old(self)@.scanned(bytes),
            final(self)@ == (MetricSetView {
                bytes_scanned: HandleView {
                    entry: old(self)@.bytes_scanned.entry,
                    updates: old(self)@.bytes_scanned.updates.push(Update::Add(bytes)),
                },
                scan_efficiency_ratio: HandleView {
                    entry: old(self)@.scan_efficiency_ratio.entry,
                    updates: old(self)@.scan_efficiency_ratio.updates.push(Update::AddPart(bytes)),
                },
                ..old(self)@
            }),
        no_unwind
    {
        add_count(&mut self.bytes_scanned, bytes);
        add_ratio_part(&mut self.scan_efficiency_ratio, bytes);
    }

    /// Baseline metrics for decoder compute in this scope.
    pub fn baseline_metrics(&self) -> (res: Arc<BaselineMetrics>)
        ensures
            *res == self@.baseline,
        opens_invariants none
        no_unwind
    {
        Arc::clone(&self.baseline_metrics)
    }
}

impl Clone for ParquetMetricSet {
    /// Another set of handles to the same metrics.
    fn clone(&self) -> (res: Self)
        ensures
            res@ == self@.cloned(),
    {
        Self {
            row_groups_pruned_bloom_filter: self.row_groups_pruned_bloom_filter.clone(),
            limit_pruned_row_groups: self.limit_pruned_row_groups.clone(),
            row_groups_pruned_statistics: self.row_groups_pruned_statistics.clone(),
            page_index_pages_pruned: self.page_index_pages_pruned.clone(),
            bytes_scanned: self.bytes_scanned.clone(),
            metadata_load_time: self.metadata_load_time.clone(),
            files_ranges_pruned_statistics: self.files_ranges_pruned_statistics.clone(),
            scan_efficiency_ratio: self.scan_efficiency_ratio.clone(),
            predicate_evaluation_errors: self.predicate_evaluation_errors.clone(),
            pushdown_rows_pruned: self.pushdown_rows_pruned.clone(),
            pushdown_rows_matched: self.pushdown_rows_matched.clone(),
            row_pushdown_eval_time: self.row_pushdown_eval_time.clone(),
            statistics_eval_time: self.statistics_eval_time.clone(),
            bloom_filter_eval_time: self.bloom_filter_eval_time.clone(),
            page_index_eval_time: self.page_index_eval_time.clone(),
            page_index_rows_pruned: self.page_index_rows_pruned.clone(),
            predicate_cache_inner_records: self.predicate_cache_inner_records.clone(),
            predicate_cache_records: self.predicate_cache_records.clone(),
            row_groups_pruned_dynamic_filter: self.row_groups_pruned_dynamic_filter.clone(),
            predicate_creation_errors: self.predicate_creation_errors.clone(),
            page_index_pages_skipped_by_fully_matched: self
                .page_index_pages_skipped_by_fully_matched.clone(),
            page_index_load_skipped: self.page_index_load_skipped.clone(),
            baseline_metrics: Arc::clone(&self.baseline_metrics),
        }
    }
}

/// Each part of the view of a set is the view of the handle in the field of the
/// same name, and the baseline metrics are those in their field.
pub(crate) proof fn view_reads_each_field(set: ParquetMetricSet)
    ensures
        set@.row_groups_pruned_bloom_filter == pruning_view(set.row_groups_pruned_bloom_filter),
        set@.limit_pruned_row_groups == pruning_view(set.limit_pruned_row_groups),
        set@.row_groups_pruned_statistics == pruning_view(set.row_groups_pruned_statistics),
        set@.page_index_pages_pruned == pruning_view(set.page_index_pages_pruned),
        set@.bytes_scanned == count_view(set.bytes_scanned),
        set@.metadata_load_time == time_view(set.metadata_load_time),
        set@.files_ranges_pruned_statistics == pruning_view(set.files_ranges_pruned_statistics),
        set@.scan_efficiency_ratio == ratio_view(set.scan_efficiency_ratio),
        set@.predicate_evaluation_errors == count_view(set.predicate_evaluation_errors),
        set@.pushdown_rows_pruned == count_view(set.pushdown_rows_pruned),
        set@.pushdown_rows_matched == count_view(set.pushdown_rows_matched),
        set@.row_pushdown_eval_time == time_view(set.row_pushdown_eval_time),
        set@.statistics_eval_time == time_view(set.statistics_eval_time),
        set@.bloom_filter_eval_time == time_view(set.bloom_filter_eval_time),
        set@.page_index_eval_time == time_view(set.page_index_eval_time),
        set@.page_index_rows_pruned == pruning_view(set.page_index_rows_pruned),
        set@.predicate_cache_inner_records == gauge_view(set.predicate_cache_inner_records),
        set@.predicate_cache_records == gauge_view(set.predicate_cache_records),
        set@.row_groups_pruned_dynamic_filter == count_view(set.row_groups_pruned_dynamic_filter),
        set@.predicate_creation_errors == count_view(set.predicate_creation_errors),
        set@.page_index_pages_skipped_by_fully_matched == count_view(
            set.page_index_pages_skipped_by_fully_matched,
        ),
        set@.page_index_load_skipped == count_view(set.page_index_load_skipped),
        set@.baseline == *set.baseline_metrics,
{
}

/// Another holder of the same metrics set, for a task that creates metric sets of
/// its own. It has registered nothing yet, and differs from every holder that
/// `metrics` has made before.
pub fn share_metrics(metrics: &mut ExecutionPlanMetricsSet) -> (res: ExecutionPlanMetricsSet)
    ensures
        holder_of(res) == holder_of(*old(metrics)).child(clones_made(*old(metrics))),
        clones_made(res) == 0,
        registered(res) == Seq::<MetricEntry>::empty(),
        clones_made(*final(metrics)) == clones_made(*old(metrics)) + 1,
        holder_of(*final(metrics)) == holder_of(*old(metrics)),
        registered(*final(metrics)) == registered(*old(metrics)),
{
    clone_holder(metrics)
}

/// The labels that a scope's metrics carry: the filename label, where there is
/// one.
pub open spec fn scope_labels(filename_label: Option<&Label>) -> Seq<LabelText> {
    match filename_label {
        Some(label) => seq![label_view(*label)],
        None => Seq::empty(),
    }
}

} // verus!
