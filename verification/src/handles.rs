//! DataFusion's metric types and the calls that this library makes on them.
//!
//! Nothing that calls DataFusion here is proved. A handle (`Count`, `Gauge` and
//! so on) shares its value with its clones and with the set that it is
//! registered with, and a set shares its metrics with its clones, possibly
//! across threads. The views below therefore speak only of what was done
//! through the handle or the set at hand: that stays true whatever other
//! holders do meanwhile. So that a contract can relate the states before and
//! after, calls that have an effect take `&mut`, although DataFusion itself
//! asks for a shared reference; to call one from a shared reference, clone the
//! handle or set first.
//!
//! What a function does through a clone that it makes itself would not show in
//! the views. Two promises keep that out of the functions that make them.
//! Recording is `no_unwind` and cloning a handle is not, so a `no_unwind`
//! function records through the handles it was given alone. Registering is
//! `opens_invariants none`, and neither cloning a handle nor recording is, so a
//! function with that promise records nothing at all. Of sets, a clone that can
//! register counts in [`clones_made`]; a [`BuilderSource`] cannot register.

use crate::registration::{
    adds_new_metrics, baseline_registrations, is_unknown, registrations, BuilderView, HandleView,
    Holder, LabelText, MetricEntry, MetricKind, Registration, Update,
};
use datafusion_physical_plan::metrics::{
    BaselineMetrics, Count, ExecutionPlanMetricsSet, Gauge, Label, MetricBuilder, MetricCategory,
    MetricType, PruningMetrics, RatioMergeStrategy, RatioMetrics, Time,
};
use std::sync::Arc;
use vstd::prelude::*;

verus! {

/// `MetricType`: the level at which a metric is shown, with its variants.
#[verifier::external_type_specification]
pub struct ExMetricType(MetricType);

/// `MetricCategory`: what a metric measures, with its variants.
#[verifier::external_type_specification]
pub struct ExMetricCategory(MetricCategory);

/// `RatioMergeStrategy`: how two ratios are merged, with its variants.
#[verifier::external_type_specification]
pub struct ExRatioMergeStrategy(RatioMergeStrategy);

/// `ExecutionPlanMetricsSet`: a shared list of metrics.
#[verifier::external_type_specification]
#[verifier::external_body]
pub struct ExExecutionPlanMetricsSet(ExecutionPlanMetricsSet);

/// `Label`: a name and a value.
#[verifier::external_type_specification]
#[verifier::external_body]
pub struct ExLabel(Label);

/// `MetricBuilder`: the settings for one metric of a set.
#[verifier::external_type_specification]
#[verifier::external_body]
pub struct ExMetricBuilder<'a>(MetricBuilder<'a>);

/// `Count`: a handle to a counter.
#[verifier::external_type_specification]
#[verifier::external_body]
pub struct ExCount(Count);

/// `Gauge`: a handle to a gauge.
#[verifier::external_type_specification]
#[verifier::external_body]
pub struct ExGauge(Gauge);

/// `Time`: a handle to a sum of durations.
#[verifier::external_type_specification]
#[verifier::external_body]
pub struct ExTime(Time);

/// `PruningMetrics`: a handle to counters of pruned and matched items.
#[verifier::external_type_specification]
#[verifier::external_body]
pub struct ExPruningMetrics(PruningMetrics);

/// `RatioMetrics`: a handle to a numerator and a denominator.
#[verifier::external_type_specification]
#[verifier::external_body]
pub struct ExRatioMetrics(RatioMetrics);

/// `BaselineMetrics`: handles to the metrics that most operators have.
#[verifier::external_type_specification]
#[verifier::external_body]
pub struct ExBaselineMetrics(BaselineMetrics);

/// The metrics that the holder of this set has registered with it, oldest
/// first. Sets only ever grow at the end, so the set holds these metrics in
/// this order; what holders of its clones register may stand between them.
pub uninterp spec fn registered(metrics: ExecutionPlanMetricsSet) -> Seq<MetricEntry>;

/// Who holds this set. A set and its clones share one list of metrics, so they
/// have the same set tag; each of them is a holder of its own, with another
/// path.
pub uninterp spec fn holder_of(metrics: ExecutionPlanMetricsSet) -> Holder;

/// How many other holders this one has made with [`clone_holder`].
pub uninterp spec fn clones_made(metrics: ExecutionPlanMetricsSet) -> nat;

/// The name and the value of a label.
pub uninterp spec fn label_view(label: Label) -> LabelText;

/// The settings that a builder holds.
pub uninterp spec fn builder_view(builder: MetricBuilder<'_>) -> BuilderView;

/// What a counter handle is registered as, and what was recorded through it.
pub uninterp spec fn count_view(count: Count) -> HandleView;

/// What a gauge handle is registered as, and what was recorded through it.
pub uninterp spec fn gauge_view(gauge: Gauge) -> HandleView;

/// What a time handle is registered as, and what was recorded through it.
pub uninterp spec fn time_view(time: Time) -> HandleView;

/// What a pruning handle is registered as, and what was recorded through it.
pub uninterp spec fn pruning_view(pruning: PruningMetrics) -> HandleView;

/// What a ratio handle is registered as, and what was recorded through it.
pub uninterp spec fn ratio_view(ratio: RatioMetrics) -> HandleView;

/// The metrics that were registered when the baseline metrics were created.
pub uninterp spec fn baseline_view(baseline: BaselineMetrics) -> Seq<MetricEntry>;

/// `MetricBuilder::new`: a builder for the given set, at developer level, with
/// no partition, labels or category.
pub assume_specification<'a>[ MetricBuilder::<'a>::new ](
    metrics: &'a ExecutionPlanMetricsSet,
) -> (builder: MetricBuilder<'a>)
    ensures
        builder_view(builder) == BuilderView::blank(holder_of(*metrics).set),
    opens_invariants none
;

/// `MetricBuilder::with_label`: adds one label after those already there.
pub assume_specification<'a>[ MetricBuilder::<'a>::with_label ](
    builder: MetricBuilder<'a>,
    label: Label,
) -> (res: MetricBuilder<'a>)
    ensures
        builder_view(res) == (BuilderView {
            labels: builder_view(builder).labels.push(label_view(label)),
            ..builder_view(builder)
        }),
    opens_invariants none
;

/// `MetricBuilder::with_type`: replaces the level.
pub assume_specification<'a>[ MetricBuilder::<'a>::with_type ](
    builder: MetricBuilder<'a>,
    metric_type: MetricType,
) -> (res: MetricBuilder<'a>)
    ensures
        builder_view(res) == (BuilderView { level: metric_type, ..builder_view(builder) }),
    opens_invariants none
;

/// `MetricBuilder::with_category`: replaces the category.
pub assume_specification<'a>[ MetricBuilder::<'a>::with_category ](
    builder: MetricBuilder<'a>,
    category: MetricCategory,
) -> (res: MetricBuilder<'a>)
    ensures
        builder_view(res) == (BuilderView {
            category: Some(category),
            ..builder_view(builder)
        }),
    opens_invariants none
;

/// `Label::new`: a label with the given name and value. The value is stored
/// once and shared by the clones of the label.
#[verifier::external_body]
pub(crate) fn shared_label(name: &'static str, value: &str) -> (label: Label)
    ensures
        label_view(label) == (LabelText { name: name@, value: value@ }),
    opens_invariants none
{
    Label::new(name, Arc::<str>::from(value))
}

/// `Label::clone`: a label with the same name and value.
#[verifier::external_body]
pub(crate) fn copy_label(label: &Label) -> (res: Label)
    ensures
        label_view(res) == label_view(*label),
    opens_invariants none
{
    label.clone()
}

/// `MetricBuilder::clone`: a builder with the same settings.
#[verifier::external_body]
pub(crate) fn copy_builder<'a>(builder: &MetricBuilder<'a>) -> (res: MetricBuilder<'a>)
    ensures
        builder_view(res) == builder_view(*builder),
    opens_invariants none
{
    builder.clone()
}

/// Makes builders for a set, and does nothing else with it. A builder borrows
/// the set that it registers with; borrowing it from here leaves the holder of
/// the set free to be changed by each registration.
pub struct BuilderSource {
    set: ExecutionPlanMetricsSet,
}

impl BuilderSource {
    /// The tag of the set that the builders register with.
    pub closed spec fn target(self) -> int {
        holder_of(self.set).set
    }

    /// A new builder for the set.
    pub(crate) fn builder(&self) -> (builder: MetricBuilder<'_>)
        ensures
            builder_view(builder) == BuilderView::blank(self.target()),
        opens_invariants none
    {
        MetricBuilder::new(&self.set)
    }
}

/// `ExecutionPlanMetricsSet::clone`, for builders: the clone shares the list of
/// metrics. It is handed out as a source of builders only, so that nothing can
/// be registered through it unseen, and is no holder.
#[verifier::external_body]
pub(crate) fn builder_source(metrics: &ExecutionPlanMetricsSet) -> (source: BuilderSource)
    ensures
        source.target() == holder_of(*metrics).set,
    opens_invariants none
{
    BuilderSource { set: metrics.clone() }
}

/// `ExecutionPlanMetricsSet::clone`: another holder of the same list of metrics,
/// which has registered nothing yet. It differs from all holders made before.
#[verifier::external_body]
pub(crate) fn clone_holder(metrics: &mut ExecutionPlanMetricsSet) -> (res: ExecutionPlanMetricsSet)
    ensures
        holder_of(res) == holder_of(*old(metrics)).child(clones_made(*old(metrics))),
        clones_made(res) == 0,
        registered(res) == Seq::<MetricEntry>::empty(),
        clones_made(*final(metrics)) == clones_made(*old(metrics)) + 1,
        holder_of(*final(metrics)) == holder_of(*old(metrics)),
        registered(*final(metrics)) == registered(*old(metrics)),
{
    metrics.clone()
}

/// The registration that a builder's settings and the arguments of its final
/// call lead to.
pub open spec fn registration(
    builder: BuilderView,
    name: Seq<char>,
    kind: MetricKind,
    category: Option<MetricCategory>,
    partition: Option<usize>,
) -> Registration {
    Registration {
        name,
        kind,
        level: builder.level,
        category,
        partition,
        labels: builder.labels,
    }
}

/// `MetricBuilder::counter`: registers a new counter for a partition with the
/// builder's set, which is the set behind `metrics`, and returns its handle.
/// The category is the builder's.
#[allow(unused_variables)]
#[verifier::external_body]
pub(crate) fn register_counter(
    metrics: &mut ExecutionPlanMetricsSet,
    builder: MetricBuilder<'_>,
    name: &'static str,
    partition: usize,
) -> (count: Count)
    requires
        builder_view(builder).target == holder_of(*old(metrics)).set,
    ensures
        count_view(count).is_new(
            registration(
                builder_view(builder),
                name@,
                MetricKind::Counter,
                builder_view(builder).category,
                Some(partition),
            ),
        ),
        count_view(count).entry.holder == holder_of(*old(metrics)),
        is_unknown(registered(*old(metrics)), count_view(count).entry),
        registered(*final(metrics)) == registered(*old(metrics)).push(count_view(count).entry),
        holder_of(*final(metrics)) == holder_of(*old(metrics)),
        clones_made(*final(metrics)) == clones_made(*old(metrics)),
    opens_invariants none
{
    builder.counter(name, partition)
}

/// `MetricBuilder::global_counter`: registers a new counter with the builder's
/// set, which is the set behind `metrics`, and returns its handle. Partition
/// and category are the builder's.
#[allow(unused_variables)]
#[verifier::external_body]
pub(crate) fn register_global_counter(
    metrics: &mut ExecutionPlanMetricsSet,
    builder: MetricBuilder<'_>,
    name: &'static str,
) -> (count: Count)
    requires
        builder_view(builder).target == holder_of(*old(metrics)).set,
    ensures
        count_view(count).is_new(
            registration(
                builder_view(builder),
                name@,
                MetricKind::Counter,
                builder_view(builder).category,
                builder_view(builder).partition,
            ),
        ),
        count_view(count).entry.holder == holder_of(*old(metrics)),
        is_unknown(registered(*old(metrics)), count_view(count).entry),
        registered(*final(metrics)) == registered(*old(metrics)).push(count_view(count).entry),
        holder_of(*final(metrics)) == holder_of(*old(metrics)),
        clones_made(*final(metrics)) == clones_made(*old(metrics)),
    opens_invariants none
{
    builder.global_counter(name)
}

/// `MetricBuilder::gauge`: registers a new gauge for a partition with the
/// builder's set, which is the set behind `metrics`, and returns its handle.
/// The category is the builder's.
#[allow(unused_variables)]
#[verifier::external_body]
pub(crate) fn register_gauge(
    metrics: &mut ExecutionPlanMetricsSet,
    builder: MetricBuilder<'_>,
    name: &'static str,
    partition: usize,
) -> (gauge: Gauge)
    requires
        builder_view(builder).target == holder_of(*old(metrics)).set,
    ensures
        gauge_view(gauge).is_new(
            registration(
                builder_view(builder),
                name@,
                MetricKind::GaugeValue,
                builder_view(builder).category,
                Some(partition),
            ),
        ),
        gauge_view(gauge).entry.holder == holder_of(*old(metrics)),
        is_unknown(registered(*old(metrics)), gauge_view(gauge).entry),
        registered(*final(metrics)) == registered(*old(metrics)).push(gauge_view(gauge).entry),
        holder_of(*final(metrics)) == holder_of(*old(metrics)),
        clones_made(*final(metrics)) == clones_made(*old(metrics)),
    opens_invariants none
{
    builder.gauge(name, partition)
}

/// `MetricBuilder::subset_time`: registers a new timer for a partition with
/// the builder's set, which is the set behind `metrics`, and returns its
/// handle. The category is always timing.
#[allow(unused_variables)]
#[verifier::external_body]
pub(crate) fn register_time(
    metrics: &mut ExecutionPlanMetricsSet,
    builder: MetricBuilder<'_>,
    name: &'static str,
    partition: usize,
) -> (time: Time)
    requires
        builder_view(builder).target == holder_of(*old(metrics)).set,
    ensures
        time_view(time).is_new(
            registration(
                builder_view(builder),
                name@,
                MetricKind::Timer,
                Some(MetricCategory::Timing),
                Some(partition),
            ),
        ),
        time_view(time).entry.holder == holder_of(*old(metrics)),
        is_unknown(registered(*old(metrics)), time_view(time).entry),
        registered(*final(metrics)) == registered(*old(metrics)).push(time_view(time).entry),
        holder_of(*final(metrics)) == holder_of(*old(metrics)),
        clones_made(*final(metrics)) == clones_made(*old(metrics)),
    opens_invariants none
{
    builder.subset_time(name, partition)
}

/// `MetricBuilder::pruning_metrics`: registers new pruning counters for a
/// partition with the builder's set, which is the set behind `metrics`, and
/// returns their handle. The category is always rows.
#[allow(unused_variables)]
#[verifier::external_body]
pub(crate) fn register_pruning(
    metrics: &mut ExecutionPlanMetricsSet,
    builder: MetricBuilder<'_>,
    name: &'static str,
    partition: usize,
) -> (pruning: PruningMetrics)
    requires
        builder_view(builder).target == holder_of(*old(metrics)).set,
    ensures
        pruning_view(pruning).is_new(
            registration(
                builder_view(builder),
                name@,
                MetricKind::Pruning,
                Some(MetricCategory::Rows),
                Some(partition),
            ),
        ),
        pruning_view(pruning).entry.holder == holder_of(*old(metrics)),
        is_unknown(registered(*old(metrics)), pruning_view(pruning).entry),
        registered(*final(metrics)) == registered(*old(metrics)).push(
            pruning_view(pruning).entry,
        ),
        holder_of(*final(metrics)) == holder_of(*old(metrics)),
        clones_made(*final(metrics)) == clones_made(*old(metrics)),
    opens_invariants none
{
    builder.pruning_metrics(name, partition)
}

/// `MetricBuilder::ratio_metrics_with_strategy`: registers a new ratio, merged
/// by the given strategy, for a partition with the builder's set, which is the
/// set behind `metrics`, and returns its handle. The category is always rows.
#[allow(unused_variables)]
#[verifier::external_body]
pub(crate) fn register_ratio(
    metrics: &mut ExecutionPlanMetricsSet,
    builder: MetricBuilder<'_>,
    name: &'static str,
    partition: usize,
    merge_strategy: RatioMergeStrategy,
) -> (ratio: RatioMetrics)
    requires
        builder_view(builder).target == holder_of(*old(metrics)).set,
    ensures
        ratio_view(ratio).is_new(
            registration(
                builder_view(builder),
                name@,
                MetricKind::Ratio(merge_strategy),
                Some(MetricCategory::Rows),
                Some(partition),
            ),
        ),
        ratio_view(ratio).entry.holder == holder_of(*old(metrics)),
        is_unknown(registered(*old(metrics)), ratio_view(ratio).entry),
        registered(*final(metrics)) == registered(*old(metrics)).push(ratio_view(ratio).entry),
        holder_of(*final(metrics)) == holder_of(*old(metrics)),
        clones_made(*final(metrics)) == clones_made(*old(metrics)),
    opens_invariants none
{
    builder.ratio_metrics_with_strategy(name, partition, merge_strategy)
}

/// `BaselineMetrics::new`: registers the baseline metrics of a partition, all
/// without labels, and returns their handles, to be shared. It also sets the
/// start timestamp to the current time, of which nothing is said here.
#[verifier::external_body]
pub(crate) fn register_baseline(
    metrics: &mut ExecutionPlanMetricsSet,
    partition: usize,
) -> (baseline: Arc<BaselineMetrics>)
    ensures
        registrations(baseline_view(*baseline)) == baseline_registrations(partition),
        forall|i: int|
            0 <= i < baseline_view(*baseline).len() ==> (#[trigger] baseline_view(
                *baseline,
            )[i]).holder == holder_of(*old(metrics)),
        registered(*final(metrics)) == registered(*old(metrics)) + baseline_view(*baseline),
        adds_new_metrics(registered(*old(metrics)), registered(*final(metrics))),
        holder_of(*final(metrics)) == holder_of(*old(metrics)),
        clones_made(*final(metrics)) == clones_made(*old(metrics)),
    opens_invariants none
{
    Arc::new(BaselineMetrics::new(metrics, partition))
}

/// `Count::clone`: another handle to the same metric, through which nothing has
/// been recorded yet.
pub assume_specification[ <Count as Clone>::clone ](count: &Count) -> (res: Count)
    ensures
        count_view(res) == count_view(*count).cloned(),
;

/// `Gauge::clone`: another handle to the same metric, through which nothing has
/// been recorded yet.
pub assume_specification[ <Gauge as Clone>::clone ](gauge: &Gauge) -> (res: Gauge)
    ensures
        gauge_view(res) == gauge_view(*gauge).cloned(),
;

/// `Time::clone`: another handle to the same metric, through which nothing has
/// been recorded yet.
pub assume_specification[ <Time as Clone>::clone ](time: &Time) -> (res: Time)
    ensures
        time_view(res) == time_view(*time).cloned(),
;

/// `PruningMetrics::clone`: another handle to the same metric, through which nothing has
/// been recorded yet.
pub assume_specification[ <PruningMetrics as Clone>::clone ](
    pruning: &PruningMetrics,
) -> (res: PruningMetrics)
    ensures
        pruning_view(res) == pruning_view(*pruning).cloned(),
;

/// `RatioMetrics::clone`: another handle to the same metric, through which nothing has
/// been recorded yet.
pub assume_specification[ <RatioMetrics as Clone>::clone ](
    ratio: &RatioMetrics,
) -> (res: RatioMetrics)
    ensures
        ratio_view(res) == ratio_view(*ratio).cloned(),
;

/// `Count::add`: adds `n` to the counter, wrapping around on overflow, and never
/// panics.
#[verifier::external_body]
pub(crate) fn add_count(count: &mut Count, n: usize)
    ensures
        count_view(*final(count)) == count_view(*old(count)).updated(Update::Add(n)),
    no_unwind
{
    count.add(n)
}

/// `RatioMetrics::add_part`: adds `n` to the numerator, wrapping around on
/// overflow, leaves the denominator alone, and never panics.
#[verifier::external_body]
pub(crate) fn add_ratio_part(ratio: &mut RatioMetrics, n: usize)
    ensures
        ratio_view(*final(ratio)) == ratio_view(*old(ratio)).updated(Update::AddPart(n)),
    no_unwind
{
    ratio.add_part(n)
}

} // verus!
