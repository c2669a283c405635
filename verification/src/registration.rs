//! The mathematical model: what is fixed about a metric when it is registered,
//! what has been recorded through a handle, and which metrics a scan scope has.

use datafusion_physical_plan::metrics::{MetricCategory, MetricType, RatioMergeStrategy};
use vstd::prelude::*;

verus! {

/// The shape of the value that a registered metric reports.
pub enum MetricKind {
    Counter,
    GaugeValue,
    Timer,
    Pruning,
    Ratio(RatioMergeStrategy),
    OutputRows,
    OutputBytes,
    OutputBatches,
    ElapsedCompute,
    StartTimestamp,
    EndTimestamp,
}

/// The text of a label.
#[verifier::ext_equal]
pub struct LabelText {
    pub name: Seq<char>,
    pub value: Seq<char>,
}

/// Everything that is fixed about a metric when it is registered. A metric
/// without a partition belongs to the operator as a whole.
#[verifier::ext_equal]
pub struct Registration {
    pub name: Seq<char>,
    pub kind: MetricKind,
    pub level: MetricType,
    pub category: Option<MetricCategory>,
    pub partition: Option<usize>,
    pub labels: Seq<LabelText>,
}

/// A holder of a metrics set: the tag of the set, which its clones have too,
/// and how the holder came to it. The path of a clone is that of the holder it
/// was cloned from, followed by how many clones that holder had made before.
#[verifier::ext_equal]
pub struct Holder {
    pub set: int,
    pub path: Seq<nat>,
}

/// A registered metric: the holder that registered it, a tag that tells the
/// metrics of that holder apart, and what it is registered as.
#[verifier::ext_equal]
pub struct MetricEntry {
    pub holder: Holder,
    pub tag: int,
    pub registration: Registration,
}

/// One change to a metric's value.
pub enum Update {
    /// The amount was added to a counter.
    Add(usize),
    /// The amount was added to the numerator of a ratio.
    AddPart(usize),
}

/// The view of a metric handle: the metric that it reports to, and the updates
/// that were made through it, oldest first.
#[verifier::ext_equal]
pub struct HandleView {
    pub entry: MetricEntry,
    pub updates: Seq<Update>,
}

/// The view of a metric builder: the tag of the set that it registers with,
/// and what it has been told so far.
#[verifier::ext_equal]
pub struct BuilderView {
    pub target: int,
    pub partition: Option<usize>,
    pub labels: Seq<LabelText>,
    pub level: MetricType,
    pub category: Option<MetricCategory>,
}

impl BuilderView {
    /// A builder for the set with the given tag that has been told nothing yet:
    /// at developer level, with no partition, labels or category.
    pub open spec fn blank(target: int) -> BuilderView {
        BuilderView {
            target,
            partition: None,
            labels: Seq::empty(),
            level: MetricType::Dev,
            category: None,
        }
    }
}

impl Holder {
    /// The holder that this one makes by cloning, after so many earlier clones.
    pub open spec fn child(self, earlier_clones: nat) -> Holder {
        Holder { set: self.set, path: self.path.push(earlier_clones) }
    }
}

impl MetricEntry {
    /// Whether the entries are one metric. A metric is registered once, by one
    /// holder, so entries that differ in holder or tag have separate values.
    pub open spec fn is_same_metric(self, other: MetricEntry) -> bool {
        self.holder == other.holder && self.tag == other.tag
    }
}

impl HandleView {
    /// A handle through which nothing has been recorded yet, to a metric with
    /// the given registration.
    pub open spec fn is_new(self, registration: Registration) -> bool {
        &&& self.entry.registration == registration
        &&& self.updates == Seq::<Update>::empty()
    }

    /// The view of another handle to the same metric, through which nothing
    /// has been recorded yet.
    pub open spec fn cloned(self) -> HandleView {
        HandleView { entry: self.entry, updates: Seq::empty() }
    }

    /// The view after one more update.
    pub open spec fn updated(self, update: Update) -> HandleView {
        HandleView { entry: self.entry, updates: self.updates.push(update) }
    }
}

/// The registrations of the metrics, in their order.
pub open spec fn registrations(entries: Seq<MetricEntry>) -> Seq<Registration> {
    entries.map_values(|entry: MetricEntry| entry.registration)
}

/// Whether the metric is none of those in the list.
pub open spec fn is_unknown(entries: Seq<MetricEntry>, entry: MetricEntry) -> bool {
    forall|i: int| 0 <= i < entries.len() ==> !(#[trigger] entries[i]).is_same_metric(entry)
}

/// Whether `after` continues `before` with new metrics only: with none that is
/// already in `before`, and with none twice.
pub open spec fn adds_new_metrics(before: Seq<MetricEntry>, after: Seq<MetricEntry>) -> bool {
    &&& before.is_prefix_of(after)
    &&& forall|i: int, j: int|
        0 <= i < j < after.len() && before.len() <= j ==> !(#[trigger] after[i]).is_same_metric(
            #[trigger] after[j],
        )
}

/// Registering one more new metric keeps to new metrics.
pub broadcast proof fn lemma_one_more_new_metric(
    before: Seq<MetricEntry>,
    between: Seq<MetricEntry>,
    entry: MetricEntry,
)
    requires
        adds_new_metrics(before, between),
        is_unknown(between, entry),
    ensures
        #[trigger] adds_new_metrics(before, between.push(entry)),
{
    let after = between.push(entry);
    assert forall|i: int, j: int| 0 <= i < j < after.len() && before.len() <= j implies !(
    #[trigger] after[i]).is_same_metric(#[trigger] after[j]) by {
        assert(after[i] == between[i]);
    }
}

/// Adding new metrics in two steps adds new metrics.
pub proof fn lemma_more_new_metrics(
    before: Seq<MetricEntry>,
    between: Seq<MetricEntry>,
    after: Seq<MetricEntry>,
)
    requires
        adds_new_metrics(before, between),
        adds_new_metrics(between, after),
    ensures
        adds_new_metrics(before, after),
{
    assert forall|i: int, j: int| 0 <= i < j < after.len() && before.len() <= j implies !(
    #[trigger] after[i]).is_same_metric(#[trigger] after[j]) by {
        if j < between.len() {
            assert(after[i] == between[i] && after[j] == between[j]);
        }
    }
}

/// The amounts of a list of counter updates, added up as `usize` counters do:
/// modulo the number of `usize` values.
pub open spec fn count_total(updates: Seq<Update>) -> nat
    decreases updates.len(),
{
    if updates.len() == 0 {
        0
    } else {
        match updates.last() {
            Update::Add(n) => (count_total(updates.drop_last()) + n as nat) % (
            usize::MAX as nat + 1),
            Update::AddPart(_) => count_total(updates.drop_last()),
        }
    }
}

/// The numerator that a list of ratio updates leads to, starting from zero and
/// modulo the number of `usize` values.
pub open spec fn part_total(updates: Seq<Update>) -> nat
    decreases updates.len(),
{
    if updates.len() == 0 {
        0
    } else {
        match updates.last() {
            Update::AddPart(n) => (part_total(updates.drop_last()) + n as nat) % (
            usize::MAX as nat + 1),
            Update::Add(_) => part_total(updates.drop_last()),
        }
    }
}

/// The label that ties a metric to one file.
pub open spec fn filename_label(filename: Seq<char>) -> LabelText {
    LabelText { name: "filename"@, value: filename }
}

/// Whether the registration carries a label called `filename`.
pub open spec fn has_filename_label(registration: Registration) -> bool {
    exists|i: int|
        0 <= i < registration.labels.len() && #[trigger] registration.labels[i].name
            == "filename"@
}

/// A metric for high-level insight, tied to a partition.
pub open spec fn summary(
    name: Seq<char>,
    kind: MetricKind,
    category: Option<MetricCategory>,
    partition: usize,
    labels: Seq<LabelText>,
) -> Registration {
    Registration {
        name,
        kind,
        level: MetricType::Summary,
        category,
        partition: Some(partition),
        labels,
    }
}

/// A metric for developers, tied to a partition.
pub open spec fn dev(
    name: Seq<char>,
    kind: MetricKind,
    category: Option<MetricCategory>,
    partition: usize,
    labels: Seq<LabelText>,
) -> Registration {
    Registration {
        name,
        kind,
        level: MetricType::Dev,
        category,
        partition: Some(partition),
        labels,
    }
}

/// The metrics that a scan scope registers, in order. The scope is a partition
/// and the labels that tell it from other scopes of that partition.
///
/// Two metrics never carry the labels: pruned file ranges are counted for the
/// partition, and predicate creation errors for the operator as a whole.
pub open spec fn scan_registrations(partition: usize, labels: Seq<LabelText>) -> Seq<
    Registration,
> {
    let rows = Some(MetricCategory::Rows);
    let bytes = Some(MetricCategory::Bytes);
    let timing = Some(MetricCategory::Timing);
    let none = None::<MetricCategory>;
    let unlabelled = Seq::<LabelText>::empty();
    let count = MetricKind::Counter;
    let gauge = MetricKind::GaugeValue;
    let time = MetricKind::Timer;
    let pruning = MetricKind::Pruning;
    let ratio = MetricKind::Ratio(RatioMergeStrategy::AddPartSetTotal);
    seq![
        summary("row_groups_pruned_bloom_filter"@, pruning, rows, partition, labels),
        summary("limit_pruned_row_groups"@, pruning, rows, partition, labels),
        summary("row_groups_pruned_statistics"@, pruning, rows, partition, labels),
        summary("page_index_pages_pruned"@, pruning, rows, partition, labels),
        summary("bytes_scanned"@, count, bytes, partition, labels),
        summary("metadata_load_time"@, time, timing, partition, labels),
        summary("files_ranges_pruned_statistics"@, pruning, rows, partition, unlabelled),
        summary("scan_efficiency_ratio"@, ratio, rows, partition, labels),
        dev("predicate_evaluation_errors"@, count, rows, partition, labels),
        dev("pushdown_rows_pruned"@, count, rows, partition, labels),
        dev("pushdown_rows_matched"@, count, rows, partition, labels),
        dev("row_pushdown_eval_time"@, time, timing, partition, labels),
        dev("statistics_eval_time"@, time, timing, partition, labels),
        dev("bloom_filter_eval_time"@, time, timing, partition, labels),
        dev("page_index_eval_time"@, time, timing, partition, labels),
        dev("page_index_rows_pruned"@, pruning, rows, partition, labels),
        dev("predicate_cache_inner_records"@, gauge, rows, partition, labels),
        dev("predicate_cache_records"@, gauge, rows, partition, labels),
        summary("row_groups_pruned_dynamic_filter"@, count, none, partition, labels),
        Registration {
            name: "num_predicate_creation_errors"@,
            kind: count,
            level: MetricType::Dev,
            category: rows,
            partition: None,
            labels: unlabelled,
        },
        summary("page_index_pages_skipped_by_fully_matched"@, count, rows, partition, labels),
        summary("page_index_load_skipped"@, count, none, partition, labels),
    ]
}

/// The metrics that baseline metrics register for a partition, in order.
pub open spec fn baseline_registrations(partition: usize) -> Seq<Registration> {
    let rows = Some(MetricCategory::Rows);
    let bytes = Some(MetricCategory::Bytes);
    let timing = Some(MetricCategory::Timing);
    let unlabelled = Seq::<LabelText>::empty();
    seq![
        dev("start_timestamp"@, MetricKind::StartTimestamp, timing, partition, unlabelled),
        summary("end_timestamp"@, MetricKind::EndTimestamp, timing, partition, unlabelled),
        summary("elapsed_compute"@, MetricKind::ElapsedCompute, timing, partition, unlabelled),
        summary("output_rows"@, MetricKind::OutputRows, rows, partition, unlabelled),
        summary("output_bytes"@, MetricKind::OutputBytes, bytes, partition, unlabelled),
        dev("output_batches"@, MetricKind::OutputBatches, rows, partition, unlabelled),
    ]
}

/// All that is registered for a scan scope, in order: its own metrics and then
/// the baseline metrics.
pub open spec fn scope_registrations(partition: usize, labels: Seq<LabelText>) -> Seq<
    Registration,
> {
    scan_registrations(partition, labels) + baseline_registrations(partition)
}

} // verus!
