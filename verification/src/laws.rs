//! Promises that hold across calls, over the views that the contracts use.

use crate::handles::{
    baseline_view, count_view, gauge_view, label_view, pruning_view, ratio_view, registration,
    time_view,
};
use crate::metrics::{scope_labels, view_reads_each_field, MetricSetView, ParquetMetricSet};
use crate::registration::{
    count_total, filename_label, has_filename_label, part_total, registrations,
    scan_registrations, scope_registrations, BuilderView, HandleView, Holder, LabelText,
    MetricEntry, MetricKind, Registration, Update,
};
use datafusion_physical_plan::metrics::{Label, MetricCategory, MetricType, RatioMergeStrategy};
use vstd::prelude::*;

verus! {

/// How many of the registrations have the given name.
pub open spec fn count_named(list: Seq<Registration>, name: Seq<char>) -> nat
    decreases list.len(),
{
    if list.len() == 0 {
        0
    } else {
        count_named(list.drop_last(), name) + if list.last().name == name {
            1nat
        } else {
            0nat
        }
    }
}

/// The sum of the amounts, modulo the number of `usize` values.
pub open spec fn wrapped_sum(amounts: Seq<usize>) -> nat
    decreases amounts.len(),
{
    if amounts.len() == 0 {
        0
    } else {
        (wrapped_sum(amounts.drop_last()) + amounts.last() as nat) % (usize::MAX as nat + 1)
    }
}

/// The sum of the amounts.
pub open spec fn plain_sum(amounts: Seq<usize>) -> nat
    decreases amounts.len(),
{
    if amounts.len() == 0 {
        0
    } else {
        plain_sum(amounts.drop_last()) + amounts.last() as nat
    }
}

/// The lists, one after the other.
pub open spec fn joined(amounts: Seq<Seq<usize>>) -> Seq<usize>
    decreases amounts.len(),
{
    if amounts.len() == 0 {
        Seq::empty()
    } else {
        joined(amounts.drop_last()) + amounts.last()
    }
}

/// Through this set no scanned bytes have been recorded.
pub open spec fn has_not_scanned(set: MetricSetView) -> bool {
    &&& set.bytes_scanned.updates == Seq::<Update>::empty()
    &&& set.scan_efficiency_ratio.updates == Seq::<Update>::empty()
}

/// The trace of a set, or of a clone of one, that records the amounts as scanned
/// bytes, one after the other.
pub open spec fn records_scans(trace: Seq<MetricSetView>, amounts: Seq<usize>) -> bool {
    &&& trace.len() == amounts.len() + 1
    &&& has_not_scanned(trace[0])
    &&& forall|i: int|
        #![trigger amounts[i]]
        0 <= i < amounts.len() ==> trace[i + 1] == trace[i].scanned(amounts[i])
}

/// What was counted as scanned bytes at the end of the traces, added up.
pub open spec fn counted_together(traces: Seq<Seq<MetricSetView>>) -> nat
    decreases traces.len(),
{
    if traces.len() == 0 {
        0
    } else {
        (counted_together(traces.drop_last()) + count_total(
            traces.last().last().bytes_scanned.updates,
        )) % (usize::MAX as nat + 1)
    }
}

/// What was added to the numerator at the end of the traces, added up.
pub open spec fn numerator_together(traces: Seq<Seq<MetricSetView>>) -> nat
    decreases traces.len(),
{
    if traces.len() == 0 {
        0
    } else {
        (numerator_together(traces.drop_last()) + part_total(
            traces.last().last().scan_efficiency_ratio.updates,
        )) % (usize::MAX as nat + 1)
    }
}

/// A number that tells the names of a scope's metrics apart: their lengths and
/// two of their letters do.
spec fn name_key(name: Seq<char>) -> int {
    name.len() * 0x10000 + name[0] as int * 0x100 + if name.len() > 11 {
        name[11] as int
    } else {
        0
    }
}

/// The metrics of a scope have different names.
pub proof fn metric_names_are_distinct(partition: usize, labels: Seq<LabelText>)
    ensures
        forall|i: int, j: int|
            #![trigger
                scope_registrations(partition, labels)[i],
                scope_registrations(partition, labels)[j]
            ]
            0 <= i < j < scope_registrations(partition, labels).len() ==> scope_registrations(
                partition,
                labels,
            )[i].name != scope_registrations(partition, labels)[j].name,
{
    reveal_strlit("row_groups_pruned_bloom_filter");
    assert(name_key("row_groups_pruned_bloom_filter"@) == 0x1e7270);
    reveal_strlit("limit_pruned_row_groups");
    assert(name_key("limit_pruned_row_groups"@) == 0x176c64);
    reveal_strlit("row_groups_pruned_statistics");
    assert(name_key("row_groups_pruned_statistics"@) == 0x1c7270);
    reveal_strlit("page_index_pages_pruned");
    assert(name_key("page_index_pages_pruned"@) == 0x177070);
    reveal_strlit("bytes_scanned");
    assert(name_key("bytes_scanned"@) == 0xd6265);
    reveal_strlit("metadata_load_time");
    assert(name_key("metadata_load_time"@) == 0x126d61);
    reveal_strlit("files_ranges_pruned_statistics");
    assert(name_key("files_ranges_pruned_statistics"@) == 0x1e6673);
    reveal_strlit("scan_efficiency_ratio");
    assert(name_key("scan_efficiency_ratio"@) == 0x157365);
    reveal_strlit("predicate_evaluation_errors");
    assert(name_key("predicate_evaluation_errors"@) == 0x1b7076);
    reveal_strlit("pushdown_rows_pruned");
    assert(name_key("pushdown_rows_pruned"@) == 0x147077);
    reveal_strlit("pushdown_rows_matched");
    assert(name_key("pushdown_rows_matched"@) == 0x157077);
    reveal_strlit("row_pushdown_eval_time");
    assert(name_key("row_pushdown_eval_time"@) == 0x16726e);
    reveal_strlit("statistics_eval_time");
    assert(name_key("statistics_eval_time"@) == 0x147365);
    reveal_strlit("bloom_filter_eval_time");
    assert(name_key("bloom_filter_eval_time"@) == 0x166272);
    reveal_strlit("page_index_eval_time");
    assert(name_key("page_index_eval_time"@) == 0x147065);
    reveal_strlit("page_index_rows_pruned");
    assert(name_key("page_index_rows_pruned"@) == 0x167072);
    reveal_strlit("predicate_cache_inner_records");
    assert(name_key("predicate_cache_inner_records"@) == 0x1d7061);
    reveal_strlit("predicate_cache_records");
    assert(name_key("predicate_cache_records"@) == 0x177061);
    reveal_strlit("row_groups_pruned_dynamic_filter");
    assert(name_key("row_groups_pruned_dynamic_filter"@) == 0x207270);
    reveal_strlit("num_predicate_creation_errors");
    assert(name_key("num_predicate_creation_errors"@) == 0x1d6e74);
    reveal_strlit("page_index_pages_skipped_by_fully_matched");
    assert(name_key("page_index_pages_skipped_by_fully_matched"@) == 0x297070);
    reveal_strlit("page_index_load_skipped");
    assert(name_key("page_index_load_skipped"@) == 0x17706c);
    reveal_strlit("start_timestamp");
    assert(name_key("start_timestamp"@) == 0xf7374);
    reveal_strlit("end_timestamp");
    assert(name_key("end_timestamp"@) == 0xd656d);
    reveal_strlit("elapsed_compute");
    assert(name_key("elapsed_compute"@) == 0xf6570);
    reveal_strlit("output_rows");
    assert(name_key("output_rows"@) == 0xb6f00);
    reveal_strlit("output_bytes");
    assert(name_key("output_bytes"@) == 0xc6f73);
    reveal_strlit("output_batches");
    assert(name_key("output_batches"@) == 0xe6f68);
}

/// In compact mode no metric carries a label, so none carries a `filename`.
pub proof fn compact_metrics_carry_no_filename(partition: usize)
    ensures
        forall|i: int|
            #![trigger scope_registrations(partition, Seq::empty())[i]]
            0 <= i < scope_registrations(partition, Seq::empty()).len() ==> {
                &&& scope_registrations(partition, Seq::empty())[i].labels == Seq::<
                    LabelText,
                >::empty()
                &&& !has_filename_label(scope_registrations(partition, Seq::empty())[i])
            },
{
}

/// In verbose mode every metric of the scan carries the name of the file as
/// its only label, except for the pruned file ranges and the predicate
/// creation errors; these two and the baseline metrics carry no label.
pub proof fn verbose_metrics_carry_filename(partition: usize, filename: Seq<char>)
    ensures
        ({
            let list = scope_registrations(partition, seq![filename_label(filename)]);
            let scan = scan_registrations(partition, seq![filename_label(filename)]);
            forall|i: int|
                #![trigger list[i]]
                0 <= i < list.len() ==> if i < scan.len() && list[i].name
                    != "files_ranges_pruned_statistics"@ && list[i].name
                    != "num_predicate_creation_errors"@ {
                    &&& list[i].labels == seq![filename_label(filename)]
                    &&& has_filename_label(list[i])
                } else {
                    &&& list[i].labels == Seq::<LabelText>::empty()
                    &&& !has_filename_label(list[i])
                }
        }),
{
    let labels = seq![filename_label(filename)];
    let list = scope_registrations(partition, labels);
    metric_names_are_distinct(partition, labels);
    assert(list[6].name == "files_ranges_pruned_statistics"@);
    assert(list[19].name == "num_predicate_creation_errors"@);
    assert forall|i: int| #![trigger list[i]] 0 <= i < list.len() implies if i
        < scan_registrations(partition, labels).len() && list[i].name
        != "files_ranges_pruned_statistics"@ && list[i].name
        != "num_predicate_creation_errors"@ {
        &&& list[i].labels == labels
        &&& has_filename_label(list[i])
    } else {
        &&& list[i].labels == Seq::<LabelText>::empty()
        &&& !has_filename_label(list[i])
    } by {
        if i < scan_registrations(partition, labels).len() && i != 6 && i != 19 {
            assert(list[i].labels == labels);
            assert(list[i].labels[0].name == "filename"@);
        } else {
            assert(list[i].labels == Seq::<LabelText>::empty());
        }
    }
}

/// The mode decides about labels only: scopes of one partition register the
/// same metrics in the same order, whatever their labels.
pub proof fn modes_differ_in_labels_only(
    partition: usize,
    one: Seq<LabelText>,
    other: Seq<LabelText>,
)
    ensures
        scope_registrations(partition, one).len() == scope_registrations(partition, other).len(),
        forall|i: int|
            #![trigger scope_registrations(partition, one)[i]]
            0 <= i < scope_registrations(partition, one).len() ==> scope_registrations(
                partition,
                one,
            )[i] == (Registration {
                labels: scope_registrations(partition, one)[i].labels,
                ..scope_registrations(partition, other)[i]
            }),
{
}

/// Every metric belongs to the partition of its scope, except for the
/// predicate creation errors, which belong to the operator as a whole.
pub proof fn metrics_belong_to_partition(partition: usize, labels: Seq<LabelText>)
    ensures
        forall|i: int|
            #![trigger scope_registrations(partition, labels)[i]]
            0 <= i < scope_registrations(partition, labels).len() ==> scope_registrations(
                partition,
                labels,
            )[i].partition == if scope_registrations(partition, labels)[i].name
                == "num_predicate_creation_errors"@ {
                None
            } else {
                Some(partition)
            },
{
    metric_names_are_distinct(partition, labels);
    assert(scope_registrations(partition, labels)[19].name == "num_predicate_creation_errors"@);
}

proof fn lemma_count_concatenated(
    first: Seq<Registration>,
    second: Seq<Registration>,
    name: Seq<char>,
)
    ensures
        count_named(first + second, name) == count_named(first, name) + count_named(second, name),
    decreases second.len(),
{
    if second.len() == 0 {
        assert(first + second =~= first);
    } else {
        assert((first + second).drop_last() =~= first + second.drop_last());
        lemma_count_concatenated(first, second.drop_last(), name);
    }
}

proof fn lemma_count_absent(list: Seq<Registration>, name: Seq<char>)
    requires
        forall|i: int| 0 <= i < list.len() ==> list[i].name != name,
    ensures
        count_named(list, name) == 0,
    decreases list.len(),
{
    if list.len() > 0 {
        lemma_count_absent(list.drop_last(), name);
    }
}

proof fn lemma_count_single(list: Seq<Registration>, at: int)
    requires
        0 <= at < list.len(),
        forall|i: int|
            0 <= i < list.len() && i != at ==> list[i].name != list[at].name,
    ensures
        count_named(list, list[at].name) == 1,
    decreases list.len(),
{
    let rest = list.drop_last();
    if at == list.len() - 1 {
        lemma_count_absent(rest, list[at].name);
    } else {
        lemma_count_single(rest, at);
        assert(rest[at] == list[at]);
    }
}

/// Creating a set registers the metrics of its scope, in the order of
/// [`scope_registrations`]; through the holder it is created with, nothing else
/// is registered.
pub proof fn creation_registers_the_scope(
    set: MetricSetView,
    partition: usize,
    labels: Seq<LabelText>,
    holder: Holder,
    before: Seq<MetricEntry>,
    after: Seq<MetricEntry>,
)
    requires
        set.is_created(partition, labels, holder, before, after),
    ensures
        registrations(after) == registrations(before) + scope_registrations(partition, labels),
{
    assert(registrations(set.entries()) =~= scope_registrations(partition, labels));
    assert(registrations(before + set.entries()) =~= registrations(before) + registrations(
        set.entries(),
    ));
}

/// Creating a set registers each of its metrics exactly once, whatever was
/// registered before.
pub proof fn scope_registers_each_metric_once(
    before: Seq<Registration>,
    partition: usize,
    labels: Seq<LabelText>,
    at: int,
)
    requires
        0 <= at < scope_registrations(partition, labels).len(),
    ensures
        ({
            let name = scope_registrations(partition, labels)[at].name;
            count_named(before + scope_registrations(partition, labels), name) == count_named(
                before,
                name,
            ) + 1
        }),
{
    let list = scope_registrations(partition, labels);
    metric_names_are_distinct(partition, labels);
    assert forall|i: int| 0 <= i < list.len() && i != at implies list[i].name != list[at].name by {
        if i < at {
            assert(scope_registrations(partition, labels)[i].name != scope_registrations(
                partition,
                labels,
            )[at].name);
        } else {
            assert(scope_registrations(partition, labels)[at].name != scope_registrations(
                partition,
                labels,
            )[i].name);
        }
    }
    lemma_count_single(list, at);
    lemma_count_concatenated(before, list, list[at].name);
}

/// In compact mode the files of a partition share one set. Creating it adds one
/// `bytes_scanned` metric to what its holder has registered, and no metric with
/// a `filename`.
pub proof fn compact_mode_registers_per_partition(
    set: MetricSetView,
    partition: usize,
    holder: Holder,
    before: Seq<MetricEntry>,
    after: Seq<MetricEntry>,
)
    requires
        set.is_created(partition, Seq::empty(), holder, before, after),
    ensures
        count_named(registrations(after), "bytes_scanned"@) == count_named(
            registrations(before),
            "bytes_scanned"@,
        ) + 1,
        forall|i: int|
            before.len() <= i < after.len() ==> !has_filename_label(
                (#[trigger] after[i]).registration,
            ),
{
    let added = scope_registrations(partition, Seq::empty());
    creation_registers_the_scope(set, partition, Seq::empty(), holder, before, after);
    assert(added[4].name == "bytes_scanned"@);
    scope_registers_each_metric_once(registrations(before), partition, Seq::empty(), 4);
    compact_metrics_carry_no_filename(partition);
    assert forall|i: int| before.len() <= i < after.len() implies !has_filename_label(
        (#[trigger] after[i]).registration,
    ) by {
        assert(registrations(after)[i] == added[i - before.len()]);
    }
}

/// In verbose mode each file of a partition has its own set. Creating one set
/// after the other adds as many `bytes_scanned` metrics as there are files to
/// what their holder has registered, and each carries the name of its file.
pub proof fn verbose_mode_registers_per_file(
    sets: Seq<MetricSetView>,
    partition: usize,
    filenames: Seq<Seq<char>>,
    holder: Holder,
    logs: Seq<Seq<MetricEntry>>,
)
    requires
        sets.len() == filenames.len(),
        logs.len() == filenames.len() + 1,
        forall|i: int|
            #![trigger sets[i]]
            0 <= i < sets.len() ==> sets[i].is_created(
                partition,
                seq![filename_label(filenames[i])],
                holder,
                logs[i],
                logs[i + 1],
            ),
    ensures
        count_named(registrations(logs.last()), "bytes_scanned"@) == count_named(
            registrations(logs[0]),
            "bytes_scanned"@,
        ) + filenames.len(),
        forall|i: int|
            #![trigger sets[i]]
            0 <= i < sets.len() ==> sets[i].bytes_scanned.entry.registration.labels
                == seq![filename_label(filenames[i])],
    decreases filenames.len(),
{
    if filenames.len() > 0 {
        let last = filenames.len() - 1;
        let labels = seq![filename_label(filenames[last])];
        assert forall|i: int| #![trigger sets.drop_last()[i]] 0 <= i < last implies
            sets.drop_last()[i].is_created(
            partition,
            seq![filename_label(filenames.drop_last()[i])],
            holder,
            logs.drop_last()[i],
            logs.drop_last()[i + 1],
        ) by {
            assert(sets[i] == sets.drop_last()[i]);
        }
        verbose_mode_registers_per_file(
            sets.drop_last(),
            partition,
            filenames.drop_last(),
            holder,
            logs.drop_last(),
        );
        creation_registers_the_scope(
            sets[last],
            partition,
            labels,
            holder,
            logs[last],
            logs[last + 1],
        );
        assert(scope_registrations(partition, labels)[4].name == "bytes_scanned"@);
        scope_registers_each_metric_once(registrations(logs[last]), partition, labels, 4);
        assert forall|i: int| #![trigger sets[i]] 0 <= i < sets.len() implies
            sets[i].bytes_scanned.entry.registration.labels == seq![
            filename_label(filenames[i]),
        ] by {
            let set = sets[i];
            let labels = seq![filename_label(filenames[i])];
            assert(set.is_new(partition, labels));
        }
    }
}

/// One call that created a set: the set as it was then, its scope, the holder
/// that it was created with, and what that holder had registered before and
/// after.
pub struct Creation {
    pub set: MetricSetView,
    pub partition: usize,
    pub labels: Seq<LabelText>,
    pub holder: Holder,
    pub before: Seq<MetricEntry>,
    pub after: Seq<MetricEntry>,
}

impl Creation {
    /// The call did what creating a set does.
    pub open spec fn took_place(self) -> bool {
        self.set.is_created(self.partition, self.labels, self.holder, self.before, self.after)
    }

    /// The two are separate calls: through different holders, of one metrics
    /// set or of two, or this one earlier through the same holder.
    pub open spec fn is_apart_from(self, later: Creation) -> bool {
        self.holder != later.holder || self.after.is_prefix_of(later.before)
    }
}

/// A clone is another holder than the one it was cloned from and than that
/// holder's other clones, and clones of different holders are different.
pub proof fn clones_are_different_holders(one: Holder, i: nat, other: Holder, j: nat)
    ensures
        one.child(i) != one,
        one != other || i != j ==> one.child(i) != other.child(j),
        one.child(i).path.len() == one.path.len() + 1,
{
    assert(one.child(i).path.drop_last() =~= one.path);
    assert(other.child(j).path.drop_last() =~= other.path);
    assert(one.child(i).path.last() == i);
    assert(other.child(j).path.last() == j);
}

/// Sets from separate calls have no metric in common, whatever their
/// partitions and labels: each is dedicated to its scope.
pub proof fn sets_share_no_metric(one: Creation, other: Creation)
    requires
        one.took_place(),
        other.took_place(),
        one.is_apart_from(other),
    ensures
        forall|i: int, j: int|
            0 <= i < one.set.entries().len() && 0 <= j < other.set.entries().len() ==> !(
            #[trigger] one.set.entries()[i]).is_same_metric(#[trigger] other.set.entries()[j]),
{
    assert forall|i: int, j: int|
        0 <= i < one.set.entries().len() && 0 <= j < other.set.entries().len() implies !(
    #[trigger] one.set.entries()[i]).is_same_metric(#[trigger] other.set.entries()[j]) by {
        if one.holder == other.holder {
            let first = one.before.len() + i;
            let second = other.before.len() + j;
            assert(one.after[first] == one.set.entries()[i]);
            assert(other.before[first] == one.after[first]);
            assert(other.after[first] == other.before[first]);
            assert(other.after[second] == other.set.entries()[j]);
        }
    }
}

/// Recording scanned bytes through a set leaves a set from a separate call
/// alone, whichever came first: each handle through which something is recorded
/// reports to a metric that the other set does not have. The set, `now`, may
/// have recorded bytes since it was created, or be a clone.
pub proof fn scanning_leaves_other_sets_alone(
    one: Creation,
    now: MetricSetView,
    bytes: usize,
    other: Creation,
)
    requires
        one.took_place(),
        other.took_place(),
        one.is_apart_from(other) || other.is_apart_from(one),
        now.entries() == one.set.entries(),
    ensures
        forall|i: int, j: int|
            #![trigger now.handles()[i], other.set.entries()[j]]
            0 <= i < now.handles().len() && 0 <= j < other.set.entries().len() && now.scanned(
                bytes,
            ).handles()[i] != now.handles()[i] ==> !now.handles()[i].entry.is_same_metric(
                other.set.entries()[j],
            ),
{
    if one.is_apart_from(other) {
        sets_share_no_metric(one, other);
    } else {
        sets_share_no_metric(other, one);
    }
    assert forall|i: int, j: int|
        #![trigger now.handles()[i], other.set.entries()[j]]
        0 <= i < now.handles().len() && 0 <= j < other.set.entries().len() && now.scanned(
            bytes,
        ).handles()[i] != now.handles()[i] implies !now.handles()[i].entry.is_same_metric(
        other.set.entries()[j],
    ) by {
        assert(one.set.entries()[i] == now.handles()[i].entry) by {
            assert(now.entries()[i] == now.handles()[i].entry);
        }
    }
}

/// Each handle of a new set reports to the metric that was registered for it,
/// at its place in the order of registration, and to no other metric that the
/// holder has registered, earlier or together with it.
pub proof fn handles_report_to_their_own_metrics(
    set: MetricSetView,
    partition: usize,
    labels: Seq<LabelText>,
    holder: Holder,
    before: Seq<MetricEntry>,
    after: Seq<MetricEntry>,
)
    requires
        set.is_created(partition, labels, holder, before, after),
    ensures
        forall|i: int|
            #![trigger set.handles()[i]]
            0 <= i < set.handles().len() ==> {
                &&& after[before.len() + i] == set.handles()[i].entry
                &&& set.handles()[i].entry.registration == scan_registrations(
                    partition,
                    labels,
                )[i]
            },
        forall|i: int, k: int|
            #![trigger set.handles()[i], after[k]]
            0 <= i < set.handles().len() && 0 <= k < after.len() && k != before.len() + i
                ==> !after[k].is_same_metric(set.handles()[i].entry),
{
    assert forall|i: int| #![trigger set.handles()[i]] 0 <= i < set.handles().len() implies {
        &&& after[before.len() + i] == set.handles()[i].entry
        &&& set.handles()[i].entry.registration == scan_registrations(partition, labels)[i]
    } by {
        assert(set.entries()[i] == set.handles()[i].entry);
    }
    assert forall|i: int, k: int|
        #![trigger set.handles()[i], after[k]]
        0 <= i < set.handles().len() && 0 <= k < after.len() && k != before.len() + i
            implies !after[k].is_same_metric(set.handles()[i].entry) by {
        assert(after[before.len() + i] == set.handles()[i].entry);
    }
}

/// Each handle of a new set reports under the name of its field; only that of
/// the predicate creation errors has another name.
pub proof fn handles_report_under_their_field_names(
    set: MetricSetView,
    partition: usize,
    labels: Seq<LabelText>,
)
    requires
        set.is_new(partition, labels),
    ensures
        set.row_groups_pruned_bloom_filter.entry.registration.name
            == "row_groups_pruned_bloom_filter"@,
        set.limit_pruned_row_groups.entry.registration.name == "limit_pruned_row_groups"@,
        set.row_groups_pruned_statistics.entry.registration.name == "row_groups_pruned_statistics"@,
        set.page_index_pages_pruned.entry.registration.name == "page_index_pages_pruned"@,
        set.bytes_scanned.entry.registration.name == "bytes_scanned"@,
        set.metadata_load_time.entry.registration.name == "metadata_load_time"@,
        set.files_ranges_pruned_statistics.entry.registration.name
            == "files_ranges_pruned_statistics"@,
        set.scan_efficiency_ratio.entry.registration.name == "scan_efficiency_ratio"@,
        set.predicate_evaluation_errors.entry.registration.name == "predicate_evaluation_errors"@,
        set.pushdown_rows_pruned.entry.registration.name == "pushdown_rows_pruned"@,
        set.pushdown_rows_matched.entry.registration.name == "pushdown_rows_matched"@,
        set.row_pushdown_eval_time.entry.registration.name == "row_pushdown_eval_time"@,
        set.statistics_eval_time.entry.registration.name == "statistics_eval_time"@,
        set.bloom_filter_eval_time.entry.registration.name == "bloom_filter_eval_time"@,
        set.page_index_eval_time.entry.registration.name == "page_index_eval_time"@,
        set.page_index_rows_pruned.entry.registration.name == "page_index_rows_pruned"@,
        set.predicate_cache_inner_records.entry.registration.name
            == "predicate_cache_inner_records"@,
        set.predicate_cache_records.entry.registration.name == "predicate_cache_records"@,
        set.row_groups_pruned_dynamic_filter.entry.registration.name
            == "row_groups_pruned_dynamic_filter"@,
        set.predicate_creation_errors.entry.registration.name == "num_predicate_creation_errors"@,
        set.page_index_pages_skipped_by_fully_matched.entry.registration.name
            == "page_index_pages_skipped_by_fully_matched"@,
        set.page_index_load_skipped.entry.registration.name == "page_index_load_skipped"@,
{
}

/// The metrics of one set, the baseline metrics among them, are different.
pub proof fn metrics_of_a_set_are_distinct(
    set: MetricSetView,
    partition: usize,
    labels: Seq<LabelText>,
    holder: Holder,
    before: Seq<MetricEntry>,
    after: Seq<MetricEntry>,
)
    requires
        set.is_created(partition, labels, holder, before, after),
    ensures
        forall|i: int, j: int|
            0 <= i < j < set.entries().len() ==> !(#[trigger] set.entries()[i]).is_same_metric(
                #[trigger] set.entries()[j],
            ),
{
    assert forall|i: int, j: int| 0 <= i < j < set.entries().len() implies !(
    #[trigger] set.entries()[i]).is_same_metric(#[trigger] set.entries()[j]) by {
        assert(after[before.len() + i] == set.entries()[i]);
        assert(after[before.len() + j] == set.entries()[j]);
    }
}

/// What a new set of a partition has, whichever partition and labels: each
/// handle is registered under its name, as this kind of metric, at this level,
/// in this category, for that partition and with those labels, unless it says
/// otherwise here.
pub proof fn handles_are_registered_as(
    set: MetricSetView,
    partition: usize,
    labels: Seq<LabelText>,
)
    requires
        set.is_new(partition, labels),
    ensures
        set.row_groups_pruned_bloom_filter.entry.registration == (Registration {
            name: "row_groups_pruned_bloom_filter"@,
            kind: MetricKind::Pruning,
            level: MetricType::Summary,
            category: Some(MetricCategory::Rows),
            partition: Some(partition),
            labels: labels,
        }),
        set.limit_pruned_row_groups.entry.registration == (Registration {
            name: "limit_pruned_row_groups"@,
            kind: MetricKind::Pruning,
            level: MetricType::Summary,
            category: Some(MetricCategory::Rows),
            partition: Some(partition),
            labels: labels,
        }),
        set.row_groups_pruned_statistics.entry.registration == (Registration {
            name: "row_groups_pruned_statistics"@,
            kind: MetricKind::Pruning,
            level: MetricType::Summary,
            category: Some(MetricCategory::Rows),
            partition: Some(partition),
            labels: labels,
        }),
        set.page_index_pages_pruned.entry.registration == (Registration {
            name: "page_index_pages_pruned"@,
            kind: MetricKind::Pruning,
            level: MetricType::Summary,
            category: Some(MetricCategory::Rows),
            partition: Some(partition),
            labels: labels,
        }),
        set.bytes_scanned.entry.registration == (Registration {
            name: "bytes_scanned"@,
            kind: MetricKind::Counter,
            level: MetricType::Summary,
            category: Some(MetricCategory::Bytes),
            partition: Some(partition),
            labels: labels,
        }),
        set.metadata_load_time.entry.registration == (Registration {
            name: "metadata_load_time"@,
            kind: MetricKind::Timer,
            level: MetricType::Summary,
            category: Some(MetricCategory::Timing),
            partition: Some(partition),
            labels: labels,
        }),
        set.files_ranges_pruned_statistics.entry.registration == (Registration {
            name: "files_ranges_pruned_statistics"@,
            kind: MetricKind::Pruning,
            level: MetricType::Summary,
            category: Some(MetricCategory::Rows),
            partition: Some(partition),
            labels: Seq::empty(),
        }),
        set.scan_efficiency_ratio.entry.registration == (Registration {
            name: "scan_efficiency_ratio"@,
            kind: MetricKind::Ratio(RatioMergeStrategy::AddPartSetTotal),
            level: MetricType::Summary,
            category: Some(MetricCategory::Rows),
            partition: Some(partition),
            labels: labels,
        }),
        set.predicate_evaluation_errors.entry.registration == (Registration {
            name: "predicate_evaluation_errors"@,
            kind: MetricKind::Counter,
            level: MetricType::Dev,
            category: Some(MetricCategory::Rows),
            partition: Some(partition),
            labels: labels,
        }),
        set.pushdown_rows_pruned.entry.registration == (Registration {
            name: "pushdown_rows_pruned"@,
            kind: MetricKind::Counter,
            level: MetricType::Dev,
            category: Some(MetricCategory::Rows),
            partition: Some(partition),
            labels: labels,
        }),
        set.pushdown_rows_matched.entry.registration == (Registration {
            name: "pushdown_rows_matched"@,
            kind: MetricKind::Counter,
            level: MetricType::Dev,
            category: Some(MetricCategory::Rows),
            partition: Some(partition),
            labels: labels,
        }),
        set.row_pushdown_eval_time.entry.registration == (Registration {
            name: "row_pushdown_eval_time"@,
            kind: MetricKind::Timer,
            level: MetricType::Dev,
            category: Some(MetricCategory::Timing),
            partition: Some(partition),
            labels: labels,
        }),
        set.statistics_eval_time.entry.registration == (Registration {
            name: "statistics_eval_time"@,
            kind: MetricKind::Timer,
            level: MetricType::Dev,
            category: Some(MetricCategory::Timing),
            partition: Some(partition),
            labels: labels,
        }),
        set.bloom_filter_eval_time.entry.registration == (Registration {
            name: "bloom_filter_eval_time"@,
            kind: MetricKind::Timer,
            level: MetricType::Dev,
            category: Some(MetricCategory::Timing),
            partition: Some(partition),
            labels: labels,
        }),
        set.page_index_eval_time.entry.registration == (Registration {
            name: "page_index_eval_time"@,
            kind: MetricKind::Timer,
            level: MetricType::Dev,
            category: Some(MetricCategory::Timing),
            partition: Some(partition),
            labels: labels,
        }),
        set.page_index_rows_pruned.entry.registration == (Registration {
            name: "page_index_rows_pruned"@,
            kind: MetricKind::Pruning,
            level: MetricType::Dev,
            category: Some(MetricCategory::Rows),
            partition: Some(partition),
            labels: labels,
        }),
        set.predicate_cache_inner_records.entry.registration == (Registration {
            name: "predicate_cache_inner_records"@,
            kind: MetricKind::GaugeValue,
            level: MetricType::Dev,
            category: Some(MetricCategory::Rows),
            partition: Some(partition),
            labels: labels,
        }),
        set.predicate_cache_records.entry.registration == (Registration {
            name: "predicate_cache_records"@,
            kind: MetricKind::GaugeValue,
            level: MetricType::Dev,
            category: Some(MetricCategory::Rows),
            partition: Some(partition),
            labels: labels,
        }),
        set.row_groups_pruned_dynamic_filter.entry.registration == (Registration {
            name: "row_groups_pruned_dynamic_filter"@,
            kind: MetricKind::Counter,
            level: MetricType::Summary,
            category: None,
            partition: Some(partition),
            labels: labels,
        }),
        set.predicate_creation_errors.entry.registration == (Registration {
            name: "num_predicate_creation_errors"@,
            kind: MetricKind::Counter,
            level: MetricType::Dev,
            category: Some(MetricCategory::Rows),
            partition: None,
            labels: Seq::empty(),
        }),
        set.page_index_pages_skipped_by_fully_matched.entry.registration == (Registration {
            name: "page_index_pages_skipped_by_fully_matched"@,
            kind: MetricKind::Counter,
            level: MetricType::Summary,
            category: Some(MetricCategory::Rows),
            partition: Some(partition),
            labels: labels,
        }),
        set.page_index_load_skipped.entry.registration == (Registration {
            name: "page_index_load_skipped"@,
            kind: MetricKind::Counter,
            level: MetricType::Summary,
            category: None,
            partition: Some(partition),
            labels: labels,
        }),
{
}

/// The baseline metrics of a new set, whichever its partition and labels.
pub proof fn baseline_is_registered_as(
    set: MetricSetView,
    partition: usize,
    labels: Seq<LabelText>,
)
    requires
        set.is_new(partition, labels),
    ensures
        baseline_view(set.baseline).len() == 6,
        baseline_view(set.baseline)[0].registration == (Registration {
            name: "start_timestamp"@,
            kind: MetricKind::StartTimestamp,
            level: MetricType::Dev,
            category: Some(MetricCategory::Timing),
            partition: Some(partition),
            labels: Seq::empty(),
        }),
        baseline_view(set.baseline)[1].registration == (Registration {
            name: "end_timestamp"@,
            kind: MetricKind::EndTimestamp,
            level: MetricType::Summary,
            category: Some(MetricCategory::Timing),
            partition: Some(partition),
            labels: Seq::empty(),
        }),
        baseline_view(set.baseline)[2].registration == (Registration {
            name: "elapsed_compute"@,
            kind: MetricKind::ElapsedCompute,
            level: MetricType::Summary,
            category: Some(MetricCategory::Timing),
            partition: Some(partition),
            labels: Seq::empty(),
        }),
        baseline_view(set.baseline)[3].registration == (Registration {
            name: "output_rows"@,
            kind: MetricKind::OutputRows,
            level: MetricType::Summary,
            category: Some(MetricCategory::Rows),
            partition: Some(partition),
            labels: Seq::empty(),
        }),
        baseline_view(set.baseline)[4].registration == (Registration {
            name: "output_bytes"@,
            kind: MetricKind::OutputBytes,
            level: MetricType::Summary,
            category: Some(MetricCategory::Bytes),
            partition: Some(partition),
            labels: Seq::empty(),
        }),
        baseline_view(set.baseline)[5].registration == (Registration {
            name: "output_batches"@,
            kind: MetricKind::OutputBatches,
            level: MetricType::Dev,
            category: Some(MetricCategory::Rows),
            partition: Some(partition),
            labels: Seq::empty(),
        }),
{
    let entries = baseline_view(set.baseline);
    assert(registrations(entries).len() == entries.len());
    assert forall|i: int| 0 <= i < entries.len() implies registrations(entries)[i] == (
    #[trigger] entries[i]).registration by {}
}

/// Nothing has been recorded through any handle of a new set.
pub proof fn handles_of_new_sets_have_recorded_nothing(
    set: MetricSetView,
    partition: usize,
    labels: Seq<LabelText>,
)
    requires
        set.is_new(partition, labels),
    ensures
        set.row_groups_pruned_bloom_filter.updates == Seq::<Update>::empty(),
        set.limit_pruned_row_groups.updates == Seq::<Update>::empty(),
        set.row_groups_pruned_statistics.updates == Seq::<Update>::empty(),
        set.page_index_pages_pruned.updates == Seq::<Update>::empty(),
        set.bytes_scanned.updates == Seq::<Update>::empty(),
        set.metadata_load_time.updates == Seq::<Update>::empty(),
        set.files_ranges_pruned_statistics.updates == Seq::<Update>::empty(),
        set.scan_efficiency_ratio.updates == Seq::<Update>::empty(),
        set.predicate_evaluation_errors.updates == Seq::<Update>::empty(),
        set.pushdown_rows_pruned.updates == Seq::<Update>::empty(),
        set.pushdown_rows_matched.updates == Seq::<Update>::empty(),
        set.row_pushdown_eval_time.updates == Seq::<Update>::empty(),
        set.statistics_eval_time.updates == Seq::<Update>::empty(),
        set.bloom_filter_eval_time.updates == Seq::<Update>::empty(),
        set.page_index_eval_time.updates == Seq::<Update>::empty(),
        set.page_index_rows_pruned.updates == Seq::<Update>::empty(),
        set.predicate_cache_inner_records.updates == Seq::<Update>::empty(),
        set.predicate_cache_records.updates == Seq::<Update>::empty(),
        set.row_groups_pruned_dynamic_filter.updates == Seq::<Update>::empty(),
        set.predicate_creation_errors.updates == Seq::<Update>::empty(),
        set.page_index_pages_skipped_by_fully_matched.updates == Seq::<Update>::empty(),
        set.page_index_load_skipped.updates == Seq::<Update>::empty(),
{
}

/// Creating a set leaves what its holder has registered before in place and adds
/// the metrics behind the handles, in this order, then the baseline metrics, and
/// no others; each is registered by that holder.
pub proof fn creation_adds_the_metrics_of_the_handles(
    set: MetricSetView,
    partition: usize,
    labels: Seq<LabelText>,
    holder: Holder,
    before: Seq<MetricEntry>,
    after: Seq<MetricEntry>,
)
    requires
        set.is_created(partition, labels, holder, before, after),
    ensures
        after.len() == before.len() + 22 + baseline_view(set.baseline).len(),
        forall|i: int| 0 <= i < before.len() ==> #[trigger] after[i] == before[i],
        after[before.len() + 0int] == set.row_groups_pruned_bloom_filter.entry,
        after[before.len() + 1int] == set.limit_pruned_row_groups.entry,
        after[before.len() + 2int] == set.row_groups_pruned_statistics.entry,
        after[before.len() + 3int] == set.page_index_pages_pruned.entry,
        after[before.len() + 4int] == set.bytes_scanned.entry,
        after[before.len() + 5int] == set.metadata_load_time.entry,
        after[before.len() + 6int] == set.files_ranges_pruned_statistics.entry,
        after[before.len() + 7int] == set.scan_efficiency_ratio.entry,
        after[before.len() + 8int] == set.predicate_evaluation_errors.entry,
        after[before.len() + 9int] == set.pushdown_rows_pruned.entry,
        after[before.len() + 10int] == set.pushdown_rows_matched.entry,
        after[before.len() + 11int] == set.row_pushdown_eval_time.entry,
        after[before.len() + 12int] == set.statistics_eval_time.entry,
        after[before.len() + 13int] == set.bloom_filter_eval_time.entry,
        after[before.len() + 14int] == set.page_index_eval_time.entry,
        after[before.len() + 15int] == set.page_index_rows_pruned.entry,
        after[before.len() + 16int] == set.predicate_cache_inner_records.entry,
        after[before.len() + 17int] == set.predicate_cache_records.entry,
        after[before.len() + 18int] == set.row_groups_pruned_dynamic_filter.entry,
        after[before.len() + 19int] == set.predicate_creation_errors.entry,
        after[before.len() + 20int] == set.page_index_pages_skipped_by_fully_matched.entry,
        after[before.len() + 21int] == set.page_index_load_skipped.entry,
        forall|i: int|
            0 <= i < baseline_view(set.baseline).len() ==> after[before.len() + 22 + i]
                == #[trigger] baseline_view(set.baseline)[i],
        forall|i: int| before.len() <= i < after.len() ==> (#[trigger] after[i]).holder == holder,
{
    assert forall|i: int| before.len() <= i < after.len() implies (#[trigger] after[i]).holder
        == holder by {
        assert(after[i] == set.entries()[i - before.len()]);
    }
}

/// The partition shows in the partition of a metric and nowhere else: scopes of
/// different partitions with the same labels register the same metrics in the
/// same order.
pub proof fn partitions_differ_in_partition_only(one: usize, other: usize, labels: Seq<LabelText>)
    ensures
        scope_registrations(one, labels).len() == scope_registrations(other, labels).len(),
        forall|i: int|
            #![trigger scope_registrations(one, labels)[i]]
            0 <= i < scope_registrations(one, labels).len() ==> scope_registrations(one, labels)[i]
                == (Registration {
                partition: if scope_registrations(other, labels)[i].partition is None {
                    None
                } else {
                    Some(one)
                },
                ..scope_registrations(other, labels)[i]
            }),
{
}

/// A clone has, field by field, the metric of the set that it was cloned from;
/// nothing has been recorded through it, and it has the same baseline metrics.
pub proof fn clones_have_the_metric_of_each_field(set: MetricSetView)
    ensures
        set.cloned().row_groups_pruned_bloom_filter == (HandleView {
            entry: set.row_groups_pruned_bloom_filter.entry,
            updates: Seq::empty(),
        }),
        set.cloned().limit_pruned_row_groups == (HandleView {
            entry: set.limit_pruned_row_groups.entry,
            updates: Seq::empty(),
        }),
        set.cloned().row_groups_pruned_statistics == (HandleView {
            entry: set.row_groups_pruned_statistics.entry,
            updates: Seq::empty(),
        }),
        set.cloned().page_index_pages_pruned == (HandleView {
            entry: set.page_index_pages_pruned.entry,
            updates: Seq::empty(),
        }),
        set.cloned().bytes_scanned == (HandleView {
            entry: set.bytes_scanned.entry,
            updates: Seq::empty(),
        }),
        set.cloned().metadata_load_time == (HandleView {
            entry: set.metadata_load_time.entry,
            updates: Seq::empty(),
        }),
        set.cloned().files_ranges_pruned_statistics == (HandleView {
            entry: set.files_ranges_pruned_statistics.entry,
            updates: Seq::empty(),
        }),
        set.cloned().scan_efficiency_ratio == (HandleView {
            entry: set.scan_efficiency_ratio.entry,
            updates: Seq::empty(),
        }),
        set.cloned().predicate_evaluation_errors == (HandleView {
            entry: set.predicate_evaluation_errors.entry,
            updates: Seq::empty(),
        }),
        set.cloned().pushdown_rows_pruned == (HandleView {
            entry: set.pushdown_rows_pruned.entry,
            updates: Seq::empty(),
        }),
        set.cloned().pushdown_rows_matched == (HandleView {
            entry: set.pushdown_rows_matched.entry,
            updates: Seq::empty(),
        }),
        set.cloned().row_pushdown_eval_time == (HandleView {
            entry: set.row_pushdown_eval_time.entry,
            updates: Seq::empty(),
        }),
        set.cloned().statistics_eval_time == (HandleView {
            entry: set.statistics_eval_time.entry,
            updates: Seq::empty(),
        }),
        set.cloned().bloom_filter_eval_time == (HandleView {
            entry: set.bloom_filter_eval_time.entry,
            updates: Seq::empty(),
        }),
        set.cloned().page_index_eval_time == (HandleView {
            entry: set.page_index_eval_time.entry,
            updates: Seq::empty(),
        }),
        set.cloned().page_index_rows_pruned == (HandleView {
            entry: set.page_index_rows_pruned.entry,
            updates: Seq::empty(),
        }),
        set.cloned().predicate_cache_inner_records == (HandleView {
            entry: set.predicate_cache_inner_records.entry,
            updates: Seq::empty(),
        }),
        set.cloned().predicate_cache_records == (HandleView {
            entry: set.predicate_cache_records.entry,
            updates: Seq::empty(),
        }),
        set.cloned().row_groups_pruned_dynamic_filter == (HandleView {
            entry: set.row_groups_pruned_dynamic_filter.entry,
            updates: Seq::empty(),
        }),
        set.cloned().predicate_creation_errors == (HandleView {
            entry: set.predicate_creation_errors.entry,
            updates: Seq::empty(),
        }),
        set.cloned().page_index_pages_skipped_by_fully_matched == (HandleView {
            entry: set.page_index_pages_skipped_by_fully_matched.entry,
            updates: Seq::empty(),
        }),
        set.cloned().page_index_load_skipped == (HandleView {
            entry: set.page_index_load_skipped.entry,
            updates: Seq::empty(),
        }),
        set.cloned().baseline == set.baseline,
{
}

/// Recording scanned bytes records them once as counted and once as part of the
/// scan efficiency, after what was recorded before; through no other handle is
/// anything recorded, and the baseline metrics stay.
pub proof fn scanning_records_in_two_places_only(set: MetricSetView, bytes: usize)
    ensures
        set.scanned(bytes).row_groups_pruned_bloom_filter == set.row_groups_pruned_bloom_filter,
        set.scanned(bytes).limit_pruned_row_groups == set.limit_pruned_row_groups,
        set.scanned(bytes).row_groups_pruned_statistics == set.row_groups_pruned_statistics,
        set.scanned(bytes).page_index_pages_pruned == set.page_index_pages_pruned,
        set.scanned(bytes).bytes_scanned == (HandleView {
            entry: set.bytes_scanned.entry,
            updates: set.bytes_scanned.updates.push(Update::Add(bytes)),
        }),
        set.scanned(bytes).metadata_load_time == set.metadata_load_time,
        set.scanned(bytes).files_ranges_pruned_statistics == set.files_ranges_pruned_statistics,
        set.scanned(bytes).scan_efficiency_ratio == (HandleView {
            entry: set.scan_efficiency_ratio.entry,
            updates: set.scan_efficiency_ratio.updates.push(Update::AddPart(bytes)),
        }),
        set.scanned(bytes).predicate_evaluation_errors == set.predicate_evaluation_errors,
        set.scanned(bytes).pushdown_rows_pruned == set.pushdown_rows_pruned,
        set.scanned(bytes).pushdown_rows_matched == set.pushdown_rows_matched,
        set.scanned(bytes).row_pushdown_eval_time == set.row_pushdown_eval_time,
        set.scanned(bytes).statistics_eval_time == set.statistics_eval_time,
        set.scanned(bytes).bloom_filter_eval_time == set.bloom_filter_eval_time,
        set.scanned(bytes).page_index_eval_time == set.page_index_eval_time,
        set.scanned(bytes).page_index_rows_pruned == set.page_index_rows_pruned,
        set.scanned(bytes).predicate_cache_inner_records == set.predicate_cache_inner_records,
        set.scanned(bytes).predicate_cache_records == set.predicate_cache_records,
        set.scanned(bytes).row_groups_pruned_dynamic_filter == set.row_groups_pruned_dynamic_filter,
        set.scanned(bytes).predicate_creation_errors == set.predicate_creation_errors,
        set.scanned(bytes).page_index_pages_skipped_by_fully_matched
            == set.page_index_pages_skipped_by_fully_matched,
        set.scanned(bytes).page_index_load_skipped == set.page_index_load_skipped,
        set.scanned(bytes).baseline == set.baseline,
{
}

/// The handle in each public field of a set that creating it gave back is new,
/// and reports under the name of that field, whichever the partition and the
/// labels; only the predicate creation errors have another name. The metrics were
/// added in this order to what the holder has registered.
pub(crate) proof fn fields_of_new_sets_report_under_their_names(
    set: ParquetMetricSet,
    partition: usize,
    labels: Seq<LabelText>,
    holder: Holder,
    before: Seq<MetricEntry>,
    after: Seq<MetricEntry>,
)
    requires
        set@.is_created(partition, labels, holder, before, after),
    ensures
        pruning_view(set.row_groups_pruned_bloom_filter).entry.registration.name
            == "row_groups_pruned_bloom_filter"@,
        pruning_view(set.row_groups_pruned_bloom_filter).updates == Seq::<Update>::empty(),
        after[before.len() + 0int] == pruning_view(set.row_groups_pruned_bloom_filter).entry,
        pruning_view(set.limit_pruned_row_groups).entry.registration.name
            == "limit_pruned_row_groups"@,
        pruning_view(set.limit_pruned_row_groups).updates == Seq::<Update>::empty(),
        after[before.len() + 1int] == pruning_view(set.limit_pruned_row_groups).entry,
        pruning_view(set.row_groups_pruned_statistics).entry.registration.name
            == "row_groups_pruned_statistics"@,
        pruning_view(set.row_groups_pruned_statistics).updates == Seq::<Update>::empty(),
        after[before.len() + 2int] == pruning_view(set.row_groups_pruned_statistics).entry,
        pruning_view(set.page_index_pages_pruned).entry.registration.name
            == "page_index_pages_pruned"@,
        pruning_view(set.page_index_pages_pruned).updates == Seq::<Update>::empty(),
        after[before.len() + 3int] == pruning_view(set.page_index_pages_pruned).entry,
        count_view(set.bytes_scanned).entry.registration.name == "bytes_scanned"@,
        count_view(set.bytes_scanned).updates == Seq::<Update>::empty(),
        after[before.len() + 4int] == count_view(set.bytes_scanned).entry,
        time_view(set.metadata_load_time).entry.registration.name == "metadata_load_time"@,
        time_view(set.metadata_load_time).updates == Seq::<Update>::empty(),
        after[before.len() + 5int] == time_view(set.metadata_load_time).entry,
        pruning_view(set.files_ranges_pruned_statistics).entry.registration.name
            == "files_ranges_pruned_statistics"@,
        pruning_view(set.files_ranges_pruned_statistics).updates == Seq::<Update>::empty(),
        after[before.len() + 6int] == pruning_view(set.files_ranges_pruned_statistics).entry,
        ratio_view(set.scan_efficiency_ratio).entry.registration.name == "scan_efficiency_ratio"@,
        ratio_view(set.scan_efficiency_ratio).updates == Seq::<Update>::empty(),
        after[before.len() + 7int] == ratio_view(set.scan_efficiency_ratio).entry,
        count_view(set.predicate_evaluation_errors).entry.registration.name
            == "predicate_evaluation_errors"@,
        count_view(set.predicate_evaluation_errors).updates == Seq::<Update>::empty(),
        after[before.len() + 8int] == count_view(set.predicate_evaluation_errors).entry,
        count_view(set.pushdown_rows_pruned).entry.registration.name == "pushdown_rows_pruned"@,
        count_view(set.pushdown_rows_pruned).updates == Seq::<Update>::empty(),
        after[before.len() + 9int] == count_view(set.pushdown_rows_pruned).entry,
        count_view(set.pushdown_rows_matched).entry.registration.name == "pushdown_rows_matched"@,
        count_view(set.pushdown_rows_matched).updates == Seq::<Update>::empty(),
        after[before.len() + 10int] == count_view(set.pushdown_rows_matched).entry,
        time_view(set.row_pushdown_eval_time).entry.registration.name == "row_pushdown_eval_time"@,
        time_view(set.row_pushdown_eval_time).updates == Seq::<Update>::empty(),
        after[before.len() + 11int] == time_view(set.row_pushdown_eval_time).entry,
        time_view(set.statistics_eval_time).entry.registration.name == "statistics_eval_time"@,
        time_view(set.statistics_eval_time).updates == Seq::<Update>::empty(),
        after[before.len() + 12int] == time_view(set.statistics_eval_time).entry,
        time_view(set.bloom_filter_eval_time).entry.registration.name == "bloom_filter_eval_time"@,
        time_view(set.bloom_filter_eval_time).updates == Seq::<Update>::empty(),
        after[before.len() + 13int] == time_view(set.bloom_filter_eval_time).entry,
        time_view(set.page_index_eval_time).entry.registration.name == "page_index_eval_time"@,
        time_view(set.page_index_eval_time).updates == Seq::<Update>::empty(),
        after[before.len() + 14int] == time_view(set.page_index_eval_time).entry,
        pruning_view(set.page_index_rows_pruned).entry.registration.name
            == "page_index_rows_pruned"@,
        pruning_view(set.page_index_rows_pruned).updates == Seq::<Update>::empty(),
        after[before.len() + 15int] == pruning_view(set.page_index_rows_pruned).entry,
        gauge_view(set.predicate_cache_inner_records).entry.registration.name
            == "predicate_cache_inner_records"@,
        gauge_view(set.predicate_cache_inner_records).updates == Seq::<Update>::empty(),
        after[before.len() + 16int] == gauge_view(set.predicate_cache_inner_records).entry,
        gauge_view(set.predicate_cache_records).entry.registration.name
            == "predicate_cache_records"@,
        gauge_view(set.predicate_cache_records).updates == Seq::<Update>::empty(),
        after[before.len() + 17int] == gauge_view(set.predicate_cache_records).entry,
        count_view(set.row_groups_pruned_dynamic_filter).entry.registration.name
            == "row_groups_pruned_dynamic_filter"@,
        count_view(set.row_groups_pruned_dynamic_filter).updates == Seq::<Update>::empty(),
        after[before.len() + 18int] == count_view(set.row_groups_pruned_dynamic_filter).entry,
        count_view(set.predicate_creation_errors).entry.registration.name
            == "num_predicate_creation_errors"@,
        count_view(set.predicate_creation_errors).updates == Seq::<Update>::empty(),
        after[before.len() + 19int] == count_view(set.predicate_creation_errors).entry,
        count_view(set.page_index_pages_skipped_by_fully_matched).entry.registration.name
            == "page_index_pages_skipped_by_fully_matched"@,
        count_view(set.page_index_pages_skipped_by_fully_matched).updates == Seq::<Update>::empty(),
        after[before.len() + 20int]
            == count_view(set.page_index_pages_skipped_by_fully_matched).entry,
        count_view(set.page_index_load_skipped).entry.registration.name
            == "page_index_load_skipped"@,
        count_view(set.page_index_load_skipped).updates == Seq::<Update>::empty(),
        after[before.len() + 21int] == count_view(set.page_index_load_skipped).entry,
{
    view_reads_each_field(set);
    handles_are_registered_as(set@, partition, labels);
    handles_of_new_sets_have_recorded_nothing(set@, partition, labels);
    creation_adds_the_metrics_of_the_handles(set@, partition, labels, holder, before, after);
}

/// The handle in each public field of a clone is another handle to the metric of
/// that very field, through which nothing has been recorded, and the clone shares
/// the baseline metrics.
pub(crate) proof fn fields_of_clones_share_their_metrics(
    set: ParquetMetricSet,
    clone: ParquetMetricSet,
)
    requires
        clone@ == set@.cloned(),
    ensures
        pruning_view(clone.row_groups_pruned_bloom_filter).entry
            == pruning_view(set.row_groups_pruned_bloom_filter).entry,
        pruning_view(clone.row_groups_pruned_bloom_filter).updates == Seq::<Update>::empty(),
        pruning_view(clone.limit_pruned_row_groups).entry
            == pruning_view(set.limit_pruned_row_groups).entry,
        pruning_view(clone.limit_pruned_row_groups).updates == Seq::<Update>::empty(),
        pruning_view(clone.row_groups_pruned_statistics).entry
            == pruning_view(set.row_groups_pruned_statistics).entry,
        pruning_view(clone.row_groups_pruned_statistics).updates == Seq::<Update>::empty(),
        pruning_view(clone.page_index_pages_pruned).entry
            == pruning_view(set.page_index_pages_pruned).entry,
        pruning_view(clone.page_index_pages_pruned).updates == Seq::<Update>::empty(),
        count_view(clone.bytes_scanned).entry == count_view(set.bytes_scanned).entry,
        count_view(clone.bytes_scanned).updates == Seq::<Update>::empty(),
        time_view(clone.metadata_load_time).entry == time_view(set.metadata_load_time).entry,
        time_view(clone.metadata_load_time).updates == Seq::<Update>::empty(),
        pruning_view(clone.files_ranges_pruned_statistics).entry
            == pruning_view(set.files_ranges_pruned_statistics).entry,
        pruning_view(clone.files_ranges_pruned_statistics).updates == Seq::<Update>::empty(),
        ratio_view(clone.scan_efficiency_ratio).entry
            == ratio_view(set.scan_efficiency_ratio).entry,
        ratio_view(clone.scan_efficiency_ratio).updates == Seq::<Update>::empty(),
        count_view(clone.predicate_evaluation_errors).entry
            == count_view(set.predicate_evaluation_errors).entry,
        count_view(clone.predicate_evaluation_errors).updates == Seq::<Update>::empty(),
        count_view(clone.pushdown_rows_pruned).entry == count_view(set.pushdown_rows_pruned).entry,
        count_view(clone.pushdown_rows_pruned).updates == Seq::<Update>::empty(),
        count_view(clone.pushdown_rows_matched).entry
            == count_view(set.pushdown_rows_matched).entry,
        count_view(clone.pushdown_rows_matched).updates == Seq::<Update>::empty(),
        time_view(clone.row_pushdown_eval_time).entry
            == time_view(set.row_pushdown_eval_time).entry,
        time_view(clone.row_pushdown_eval_time).updates == Seq::<Update>::empty(),
        time_view(clone.statistics_eval_time).entry == time_view(set.statistics_eval_time).entry,
        time_view(clone.statistics_eval_time).updates == Seq::<Update>::empty(),
        time_view(clone.bloom_filter_eval_time).entry
            == time_view(set.bloom_filter_eval_time).entry,
        time_view(clone.bloom_filter_eval_time).updates == Seq::<Update>::empty(),
        time_view(clone.page_index_eval_time).entry == time_view(set.page_index_eval_time).entry,
        time_view(clone.page_index_eval_time).updates == Seq::<Update>::empty(),
        pruning_view(clone.page_index_rows_pruned).entry
            == pruning_view(set.page_index_rows_pruned).entry,
        pruning_view(clone.page_index_rows_pruned).updates == Seq::<Update>::empty(),
        gauge_view(clone.predicate_cache_inner_records).entry
            == gauge_view(set.predicate_cache_inner_records).entry,
        gauge_view(clone.predicate_cache_inner_records).updates == Seq::<Update>::empty(),
        gauge_view(clone.predicate_cache_records).entry
            == gauge_view(set.predicate_cache_records).entry,
        gauge_view(clone.predicate_cache_records).updates == Seq::<Update>::empty(),
        count_view(clone.row_groups_pruned_dynamic_filter).entry
            == count_view(set.row_groups_pruned_dynamic_filter).entry,
        count_view(clone.row_groups_pruned_dynamic_filter).updates == Seq::<Update>::empty(),
        count_view(clone.predicate_creation_errors).entry
            == count_view(set.predicate_creation_errors).entry,
        count_view(clone.predicate_creation_errors).updates == Seq::<Update>::empty(),
        count_view(clone.page_index_pages_skipped_by_fully_matched).entry
            == count_view(set.page_index_pages_skipped_by_fully_matched).entry,
        count_view(clone.page_index_pages_skipped_by_fully_matched).updates
            == Seq::<Update>::empty(),
        count_view(clone.page_index_load_skipped).entry
            == count_view(set.page_index_load_skipped).entry,
        count_view(clone.page_index_load_skipped).updates == Seq::<Update>::empty(),
        *clone.baseline_metrics == *set.baseline_metrics,
{
    view_reads_each_field(set);
    view_reads_each_field(clone);
    clones_have_the_metric_of_each_field(set@);
}

/// Recording scanned bytes shows in the counter of scanned bytes and in the
/// numerator of the scan efficiency, and through the other public fields nothing
/// is recorded.
pub(crate) proof fn fields_after_a_scan(
    before: ParquetMetricSet,
    bytes: usize,
    after: ParquetMetricSet,
)
    requires
        after@ == before@.scanned(bytes),
    ensures
        pruning_view(after.row_groups_pruned_bloom_filter)
            == pruning_view(before.row_groups_pruned_bloom_filter),
        pruning_view(after.limit_pruned_row_groups) == pruning_view(before.limit_pruned_row_groups),
        pruning_view(after.row_groups_pruned_statistics)
            == pruning_view(before.row_groups_pruned_statistics),
        pruning_view(after.page_index_pages_pruned) == pruning_view(before.page_index_pages_pruned),
        count_view(after.bytes_scanned).entry == count_view(before.bytes_scanned).entry,
        count_view(after.bytes_scanned).updates
            == count_view(before.bytes_scanned).updates.push(
            Update::Add(bytes),
        ),
        time_view(after.metadata_load_time) == time_view(before.metadata_load_time),
        pruning_view(after.files_ranges_pruned_statistics)
            == pruning_view(before.files_ranges_pruned_statistics),
        ratio_view(after.scan_efficiency_ratio).entry
            == ratio_view(before.scan_efficiency_ratio).entry,
        ratio_view(after.scan_efficiency_ratio).updates
            == ratio_view(before.scan_efficiency_ratio).updates.push(
            Update::AddPart(bytes),
        ),
        count_view(after.predicate_evaluation_errors)
            == count_view(before.predicate_evaluation_errors),
        count_view(after.pushdown_rows_pruned) == count_view(before.pushdown_rows_pruned),
        count_view(after.pushdown_rows_matched) == count_view(before.pushdown_rows_matched),
        time_view(after.row_pushdown_eval_time) == time_view(before.row_pushdown_eval_time),
        time_view(after.statistics_eval_time) == time_view(before.statistics_eval_time),
        time_view(after.bloom_filter_eval_time) == time_view(before.bloom_filter_eval_time),
        time_view(after.page_index_eval_time) == time_view(before.page_index_eval_time),
        pruning_view(after.page_index_rows_pruned) == pruning_view(before.page_index_rows_pruned),
        gauge_view(after.predicate_cache_inner_records)
            == gauge_view(before.predicate_cache_inner_records),
        gauge_view(after.predicate_cache_records) == gauge_view(before.predicate_cache_records),
        count_view(after.row_groups_pruned_dynamic_filter)
            == count_view(before.row_groups_pruned_dynamic_filter),
        count_view(after.predicate_creation_errors) == count_view(before.predicate_creation_errors),
        count_view(after.page_index_pages_skipped_by_fully_matched)
            == count_view(before.page_index_pages_skipped_by_fully_matched),
        count_view(after.page_index_load_skipped) == count_view(before.page_index_load_skipped),
        *after.baseline_metrics == *before.baseline_metrics,
{
    view_reads_each_field(before);
    view_reads_each_field(after);
    scanning_records_in_two_places_only(before@, bytes);
}

/// Scans in either order leave a set in the same state, but for the order in
/// which they were recorded: the same totals, and the same other handles.
pub proof fn scans_commute(set: MetricSetView, one: usize, other: usize)
    ensures
        ({
            let first = set.scanned(one).scanned(other);
            let second = set.scanned(other).scanned(one);
            &&& count_total(first.bytes_scanned.updates) == count_total(
                second.bytes_scanned.updates,
            )
            &&& part_total(first.scan_efficiency_ratio.updates) == part_total(
                second.scan_efficiency_ratio.updates,
            )
            &&& first == (MetricSetView {
                bytes_scanned: first.bytes_scanned,
                scan_efficiency_ratio: first.scan_efficiency_ratio,
                ..second
            })
        }),
{
    scanning_adds_to_both_totals(set, one);
    scanning_adds_to_both_totals(set, other);
    scanning_adds_to_both_totals(set.scanned(one), other);
    scanning_adds_to_both_totals(set.scanned(other), one);
    let count = count_total(set.bytes_scanned.updates) as int;
    let part = part_total(set.scan_efficiency_ratio.updates) as int;
    let size = usize::MAX as int + 1;
    lemma_remainders_commute(count, one as int, other as int, size);
    lemma_remainders_commute(part, one as int, other as int, size);
}

proof fn lemma_remainders_commute(start: int, one: int, other: int, size: int)
    requires
        size > 0,
    ensures
        ((start + one) % size + other) % size == ((start + other) % size + one) % size,
{
    vstd::arithmetic::div_mod::lemma_add_mod_noop_right(other, start + one, size);
    vstd::arithmetic::div_mod::lemma_add_mod_noop_right(one, start + other, size);
}

/// The label of a file is called `filename` and has the name of the file, as it
/// is, for its value; a scope without a label has no labels.
pub proof fn scopes_are_labelled_with_the_filename(filename: Seq<char>, label: &Label)
    ensures
        filename_label(filename).name == "filename"@,
        filename_label(filename).value == filename,
        scope_labels(None) == Seq::<LabelText>::empty(),
        scope_labels(Some(label)) == seq![label_view(*label)],
{
}

/// A builder that has been told nothing leads to a metric for developers,
/// without partition, labels or category, with the set it was made for.
pub proof fn blank_builders_are_for_developers(target: int)
    ensures
        BuilderView::blank(target).target == target,
        BuilderView::blank(target).level == MetricType::Dev,
        BuilderView::blank(target).partition is None,
        BuilderView::blank(target).category is None,
        BuilderView::blank(target).labels.len() == 0,
{
}

/// A metric is registered with the level and the labels of its builder, and with
/// the name, kind, category and partition that it is registered for.
pub proof fn registrations_follow_the_builder(
    builder: BuilderView,
    name: Seq<char>,
    kind: MetricKind,
    category: Option<MetricCategory>,
    partition: Option<usize>,
)
    ensures
        registration(builder, name, kind, category, partition) == (Registration {
            name,
            kind,
            level: builder.level,
            category,
            partition,
            labels: builder.labels,
        }),
{
}

/// Metrics are told apart by the holder that registered them and by their tag
/// there, whatever they are registered as.
pub proof fn metrics_are_told_apart_by_holder_and_tag(one: MetricEntry, other: MetricEntry)
    ensures
        one.is_same_metric(one),
        one.holder == other.holder && one.tag == other.tag ==> one.is_same_metric(other),
        one.holder != other.holder ==> !one.is_same_metric(other),
        one.tag != other.tag ==> !one.is_same_metric(other),
{
}

/// A handle is new when it has the given registration and nothing has been
/// recorded through it; recording keeps the metric and adds one update; a clone
/// keeps the metric and starts afresh.
pub proof fn handles_keep_their_metric(
    handle: HandleView,
    registration: Registration,
    update: Update,
)
    ensures
        handle.is_new(registration) <==> handle.entry.registration == registration
            && handle.updates.len() == 0,
        handle.updated(update).entry == handle.entry,
        handle.updated(update).updates == handle.updates.push(update),
        handle.cloned().entry == handle.entry,
        handle.cloned().updates.len() == 0,
{
    assert(handle.updates.len() == 0 ==> handle.updates =~= Seq::empty());
}

/// A clone of a set, and a set that has recorded scanned bytes, still have the
/// very metrics that the set was created with.
pub proof fn clones_and_scans_keep_the_metrics(set: MetricSetView, bytes: usize)
    ensures
        set.cloned().entries() == set.entries(),
        set.scanned(bytes).entries() == set.entries(),
{
    assert(set.cloned().entries() =~= set.entries());
    assert(set.scanned(bytes).entries() =~= set.entries());
}

/// Neither through a new set nor through a clone have scanned bytes been
/// recorded yet.
pub proof fn new_sets_and_clones_start_at_zero(
    set: MetricSetView,
    partition: usize,
    labels: Seq<LabelText>,
)
    ensures
        set.is_new(partition, labels) ==> has_not_scanned(set),
        has_not_scanned(set.cloned()),
        has_not_scanned(set) ==> {
            &&& count_total(set.bytes_scanned.updates) == 0
            &&& part_total(set.scan_efficiency_ratio.updates) == 0
        },
{
}

/// Recording scanned bytes adds them, modulo the number of `usize` values, both
/// to what was counted through the set and to the numerator through it.
pub proof fn scanning_adds_to_both_totals(set: MetricSetView, bytes: usize)
    ensures
        count_total(set.scanned(bytes).bytes_scanned.updates) == (count_total(
            set.bytes_scanned.updates,
        ) + bytes as nat) % (usize::MAX as nat + 1),
        part_total(set.scanned(bytes).scan_efficiency_ratio.updates) == (part_total(
            set.scan_efficiency_ratio.updates,
        ) + bytes as nat) % (usize::MAX as nat + 1),
{
    assert(set.scanned(bytes).bytes_scanned.updates.drop_last() =~= set.bytes_scanned.updates);
    assert(set.scanned(bytes).scan_efficiency_ratio.updates.drop_last()
        =~= set.scan_efficiency_ratio.updates);
}

/// Recording scanned bytes keeps the counter of scanned bytes and the
/// numerator of the scan efficiency, as recorded through the set, in step.
pub proof fn scanning_keeps_numerator_in_step(set: MetricSetView, bytes: usize)
    requires
        count_total(set.bytes_scanned.updates) == part_total(set.scan_efficiency_ratio.updates),
    ensures
        count_total(set.scanned(bytes).bytes_scanned.updates) == part_total(
            set.scanned(bytes).scan_efficiency_ratio.updates,
        ),
{
    scanning_adds_to_both_totals(set, bytes);
}

/// The bytes that were recorded as scanned through a set, in any number of
/// calls, are both what was counted through it as scanned bytes and what was
/// added through it to the scan efficiency numerator.
pub proof fn bytes_scanned_is_scan_efficiency_numerator(
    trace: Seq<MetricSetView>,
    amounts: Seq<usize>,
)
    requires
        records_scans(trace, amounts),
    ensures
        count_total(trace.last().bytes_scanned.updates) == wrapped_sum(amounts),
        part_total(trace.last().scan_efficiency_ratio.updates) == wrapped_sum(amounts),
    decreases amounts.len(),
{
    if amounts.len() > 0 {
        let earlier = trace.drop_last();
        assert(records_scans(earlier, amounts.drop_last())) by {
            assert forall|i: int| #![trigger amounts.drop_last()[i]] 0 <= i < amounts.len() - 1
                implies earlier[i + 1] == earlier[i].scanned(amounts.drop_last()[i]) by {
                assert(amounts.drop_last()[i] == amounts[i]);
            }
        }
        bytes_scanned_is_scan_efficiency_numerator(earlier, amounts.drop_last());
        assert(trace.last() == earlier.last().scanned(amounts.last())) by {
            assert(amounts[amounts.len() - 1] == amounts.last());
        }
        scanning_adds_to_both_totals(earlier.last(), amounts.last());
    }
}

/// The same holds of several sets together, such as a set and its clones, which
/// feed one counter and one ratio: what was counted through all of them, what
/// was added through all of them to the numerator, and the bytes that were
/// recorded through any of them have the same sum.
pub proof fn numerator_matches_over_a_set_and_its_clones(
    traces: Seq<Seq<MetricSetView>>,
    amounts: Seq<Seq<usize>>,
)
    requires
        traces.len() == amounts.len(),
        forall|i: int|
            #![trigger traces[i]]
            0 <= i < traces.len() ==> records_scans(traces[i], amounts[i]),
    ensures
        counted_together(traces) == wrapped_sum(joined(amounts)),
        numerator_together(traces) == wrapped_sum(joined(amounts)),
    decreases traces.len(),
{
    if traces.len() > 0 {
        let last = traces.len() - 1;
        assert forall|i: int| #![trigger traces.drop_last()[i]] 0 <= i < last implies records_scans(
            traces.drop_last()[i],
            amounts.drop_last()[i],
        ) by {
            assert(traces[i] == traces.drop_last()[i]);
        }
        numerator_matches_over_a_set_and_its_clones(traces.drop_last(), amounts.drop_last());
        assert(records_scans(traces[last], amounts[last]));
        bytes_scanned_is_scan_efficiency_numerator(traces.last(), amounts.last());
        lemma_sum_joined(joined(amounts.drop_last()), amounts.last());
    }
}

proof fn lemma_sum_joined(first: Seq<usize>, second: Seq<usize>)
    ensures
        wrapped_sum(first + second) == (wrapped_sum(first) + wrapped_sum(second)) % (
        usize::MAX as nat + 1),
{
    wrapped_sum_is_the_sum_while_it_fits(first + second);
    wrapped_sum_is_the_sum_while_it_fits(first);
    wrapped_sum_is_the_sum_while_it_fits(second);
    lemma_plain_sum_joined(first, second);
    vstd::arithmetic::div_mod::lemma_add_mod_noop(
        plain_sum(first) as int,
        plain_sum(second) as int,
        usize::MAX as int + 1,
    );
}

proof fn lemma_plain_sum_joined(first: Seq<usize>, second: Seq<usize>)
    ensures
        plain_sum(first + second) == plain_sum(first) + plain_sum(second),
    decreases second.len(),
{
    if second.len() == 0 {
        assert(first + second =~= first);
    } else {
        assert((first + second).drop_last() =~= first + second.drop_last());
        lemma_plain_sum_joined(first, second.drop_last());
    }
}

/// The sum modulo the number of `usize` values is the remainder of the plain
/// sum, and is the plain sum itself while that fits in a `usize`.
pub proof fn wrapped_sum_is_the_sum_while_it_fits(amounts: Seq<usize>)
    ensures
        wrapped_sum(amounts) == plain_sum(amounts) % (usize::MAX as nat + 1),
        plain_sum(amounts) <= usize::MAX ==> wrapped_sum(amounts) == plain_sum(amounts),
    decreases amounts.len(),
{
    if amounts.len() == 0 {
        vstd::arithmetic::div_mod::lemma_small_mod(0, usize::MAX as nat + 1);
    } else {
        let earlier = amounts.drop_last();
        let size = usize::MAX as int + 1;
        let last = amounts.last() as int;
        wrapped_sum_is_the_sum_while_it_fits(earlier);
        assert(wrapped_sum(amounts) as int == (wrapped_sum(earlier) as int + last) % size);
        assert(wrapped_sum(earlier) as int == plain_sum(earlier) as int % size);
        let sum = plain_sum(earlier) as int;
        assert((last + sum % size) % size == (last + sum) % size) by {
            vstd::arithmetic::div_mod::lemma_add_mod_noop_right(last, sum, size);
        }
        assert(wrapped_sum(earlier) as int + last == last + sum % size);
    }
    if plain_sum(amounts) <= usize::MAX {
        vstd::arithmetic::div_mod::lemma_small_mod(plain_sum(amounts), usize::MAX as nat + 1);
    }
}

/// As long as the bytes recorded through a set fit in a `usize`, what was
/// counted through it and its numerator are exactly their sum.
pub proof fn totals_are_exact_while_they_fit(trace: Seq<MetricSetView>, amounts: Seq<usize>)
    requires
        records_scans(trace, amounts),
        plain_sum(amounts) <= usize::MAX,
    ensures
        count_total(trace.last().bytes_scanned.updates) == plain_sum(amounts),
        part_total(trace.last().scan_efficiency_ratio.updates) == plain_sum(amounts),
{
    bytes_scanned_is_scan_efficiency_numerator(trace, amounts);
    wrapped_sum_is_the_sum_while_it_fits(amounts);
}

} // verus!
