//! The pass-level guarantees of the collector, stated over the snapshot
//! model: label-set consistency, tolerance of partial sensor failure, exact
//! device counting, and idempotence of sampling.

use vstd::prelude::*;

use crate::model::RowView;
use crate::model::SampleView;
use crate::model::label_set_spec;
use crate::model::lemma_process_labels_extend_device_labels;
use crate::model::process_label_spec;
use crate::snapshot::SeriesView;
use crate::snapshot::dim_series;
use crate::snapshot::fan_fn;
use crate::snapshot::gpu_util_fn;
use crate::snapshot::memory_free_fn;
use crate::snapshot::memory_total_fn;
use crate::snapshot::memory_used_fn;
use crate::snapshot::memory_util_fn;
use crate::snapshot::power_fn;
use crate::snapshot::process_fn;
use crate::snapshot::process_series;
use crate::snapshot::series_of;
use crate::snapshot::snapshot_arities_ok;
use crate::snapshot::snapshot_spec;
use crate::snapshot::temperature_fn;

verus! {

/// An element whose reading succeeded contributes its series to the family.
proof fn lemma_family_has_member<A>(s: Seq<A>, f: spec_fn(A) -> Option<SeriesView>, i: int)
    requires
        0 <= i < s.len(),
        f(s[i]) is Some,
    ensures
        s.filter_map(f).contains(f(s[i])->Some_0),
    decreases s.len(),
{
    broadcast use vstd::prelude::Seq::<_>::group_seq_extra;
    broadcast use vstd::seq_lib::group_seq_properties;

    if i == s.len() - 1 {
        assert(s.filter_map(f) == s.drop_last().filter_map(f) + seq![f(s.last())->Some_0]);
    } else {
        lemma_family_has_member(s.drop_last(), f, i);
        assert(s.drop_last()[i] == s[i]);
    }
}

/// A family holds no series under a label set that no element carries.
proof fn lemma_family_absent<A>(s: Seq<A>, f: spec_fn(A) -> Option<SeriesView>, l: Seq<Seq<char>>)
    requires
        forall|i: int|
            0 <= i < s.len() ==> !((#[trigger] f(s[i])) is Some && f(s[i])->Some_0.labels == l),
    ensures
        forall|k: int|
            0 <= k < s.filter_map(f).len() ==> (#[trigger] s.filter_map(f)[k]).labels != l,
{
    assert forall|k: int|
        0 <= k < s.filter_map(f).len() implies (#[trigger] s.filter_map(f)[k]).labels != l by {
        let elt = s.filter_map(f)[k];
        assert(s.filter_map(f).contains(elt));
        s.lemma_filter_map_contains(f, elt);
        let t = choose|t: A| #[trigger] s.contains(t) && f(t) == Some(elt);
        let n = choose|n: int| 0 <= n < s.len() && s[n] == t;
    }
}

/// Every series of a family comes from some element whose reading succeeded.
proof fn lemma_family_source<A>(s: Seq<A>, f: spec_fn(A) -> Option<SeriesView>, k: int)
    requires
        0 <= k < s.filter_map(f).len(),
    ensures
        exists|n: int|
            0 <= n < s.len() && (#[trigger] f(s[n])) == Some(s.filter_map(f)[k]),
{
    let elt = s.filter_map(f)[k];
    assert(s.filter_map(f).contains(elt));
    s.lemma_filter_map_contains(f, elt);
    let t = choose|t: A| #[trigger] s.contains(t) && f(t) == Some(elt);
    let n = choose|n: int| 0 <= n < s.len() && s[n] == t;
    assert(f(s[n]) == Some(elt));
}

/// Every series a family receives carries as many labels as its source's
/// mapping produces.
proof fn lemma_family_label_len<A>(s: Seq<A>, f: spec_fn(A) -> Option<SeriesView>, n: nat)
    requires
        forall|a: A| (#[trigger] f(a)) is Some ==> f(a)->Some_0.labels.len() == n,
    ensures
        forall|k: int|
            0 <= k < s.filter_map(f).len() ==> (#[trigger] s.filter_map(f)[k]).labels.len() == n,
{
    assert forall|k: int|
        0 <= k < s.filter_map(f).len() implies (#[trigger] s.filter_map(f)[k]).labels.len()
        == n by {
        lemma_family_source(s, f, k);
    }
}

/// Every snapshot a pass builds matches the catalog's label schemas: three
/// label values on every device-level series, six on every per-process
/// series.
pub proof fn lemma_snapshot_arities(samples: Seq<SampleView>, rows: Seq<RowView>)
    ensures
        snapshot_arities_ok(snapshot_spec(samples, rows)),
{
    lemma_family_label_len(samples, gpu_util_fn(), 3);
    lemma_family_label_len(samples, memory_util_fn(), 3);
    lemma_family_label_len(samples, power_fn(), 3);
    lemma_family_label_len(samples, temperature_fn(), 3);
    lemma_family_label_len(samples, fan_fn(), 3);
    lemma_family_label_len(samples, memory_total_fn(), 3);
    lemma_family_label_len(samples, memory_free_fn(), 3);
    lemma_family_label_len(samples, memory_used_fn(), 3);
    lemma_family_label_len(rows, process_fn(), 6);
}

/// Every series in a device-level family carries exactly the label 3-tuple
/// (minor_number, uuid, name) of the device it came from.
pub proof fn lemma_device_family_labels(
    samples: Seq<SampleView>,
    f: spec_fn(SampleView) -> Option<SeriesView>,
    k: int,
)
    requires
        forall|s: SampleView|
            (#[trigger] f(s)) is Some ==> f(s)->Some_0.labels == label_set_spec(s.identity),
        0 <= k < dim_series(samples, f).len(),
    ensures
        exists|n: int|
            0 <= n < samples.len() && dim_series(samples, f)[k].labels == label_set_spec(
                (#[trigger] samples[n]).identity,
            ),
{
    lemma_family_source(samples, f, k);
}

/// Every series in the per-process family carries the full 6-label set of
/// some enumerated process, and so begins with that process's device label
/// 3-tuple.
pub proof fn lemma_process_family_labels(rows: Seq<RowView>, k: int)
    requires
        0 <= k < process_series(rows).len(),
    ensures
        exists|n: int|
            0 <= n < rows.len() && process_series(rows)[k].labels == process_label_spec(
                #[trigger] rows[n],
            ),
{
    lemma_family_source(rows, process_fn(), k);
}

/// Every device-level dimension maps a device to a series under exactly the
/// device's label 3-tuple — no dimension invents or reorders labels.  With
/// `lemma_device_family_labels` this covers all eight device-level families.
pub proof fn lemma_dimension_fns_use_device_labels()
    ensures
        forall|s: SampleView|
            (#[trigger] gpu_util_fn()(s)) is Some ==> gpu_util_fn()(s)->Some_0.labels
                == label_set_spec(s.identity),
        forall|s: SampleView|
            (#[trigger] memory_util_fn()(s)) is Some ==> memory_util_fn()(s)->Some_0.labels
                == label_set_spec(s.identity),
        forall|s: SampleView|
            (#[trigger] power_fn()(s)) is Some ==> power_fn()(s)->Some_0.labels == label_set_spec(
                s.identity,
            ),
        forall|s: SampleView|
            (#[trigger] temperature_fn()(s)) is Some ==> temperature_fn()(s)->Some_0.labels
                == label_set_spec(s.identity),
        forall|s: SampleView|
            (#[trigger] fan_fn()(s)) is Some ==> fan_fn()(s)->Some_0.labels == label_set_spec(
                s.identity,
            ),
        forall|s: SampleView|
            (#[trigger] memory_total_fn()(s)) is Some ==> memory_total_fn()(s)->Some_0.labels
                == label_set_spec(s.identity),
        forall|s: SampleView|
            (#[trigger] memory_free_fn()(s)) is Some ==> memory_free_fn()(s)->Some_0.labels
                == label_set_spec(s.identity),
        forall|s: SampleView|
            (#[trigger] memory_used_fn()(s)) is Some ==> memory_used_fn()(s)->Some_0.labels
                == label_set_spec(s.identity),
{
}

/// Every per-process series carries its device's label 3-tuple as its first
/// three labels.
pub proof fn lemma_process_fn_extends_device_labels()
    ensures
        forall|r: RowView|
            (#[trigger] process_fn()(r)) is Some ==> process_fn()(r)->Some_0.labels.subrange(0, 3)
                == label_set_spec(r.identity),
{
    assert forall|r: RowView| (#[trigger] process_fn()(r)) is Some implies process_fn()(
        r,
    )->Some_0.labels.subrange(0, 3) == label_set_spec(r.identity) by {
        lemma_process_labels_extend_device_labels(r);
    }
}

/// Law: within one pass the (minor_number, uuid, name) 3-tuple used as
/// labels is identical across the device-level gauges and the process-level
/// gauge for the same device.  A device-level series for the device carries
/// exactly `label_set_spec` of its identity, and the process-level series of
/// a process on that device carries the same 3-tuple as its first three
/// labels.
pub proof fn lemma_label_tuple_consistent(
    samples: Seq<SampleView>,
    rows: Seq<RowView>,
    i: int,
    j: int,
)
    requires
        0 <= i < samples.len(),
        0 <= j < rows.len(),
        rows[j].identity == samples[i].identity,
        samples[i].utilization is Some,
        rows[j].used_memory is Some,
    ensures
        snapshot_spec(samples, rows).gpu_utilization.contains(
            series_of(samples[i], samples[i].utilization->Some_0.gpu as i64),
        ),
        series_of(samples[i], samples[i].utilization->Some_0.gpu as i64).labels == label_set_spec(
            samples[i].identity,
        ),
        snapshot_spec(samples, rows).process_memory.contains(
            SeriesView {
                labels: process_label_spec(rows[j]),
                value: rows[j].used_memory->Some_0 as i64,
            },
        ),
        process_label_spec(rows[j]).subrange(0, 3) == label_set_spec(samples[i].identity),
{
    lemma_family_has_member(samples, gpu_util_fn(), i);
    lemma_family_has_member(rows, process_fn(), j);
    lemma_process_labels_extend_device_labels(rows[j]);
}

/// Law: if one device's fan-speed read fails while its other sensors
/// succeed, the pass still carries that device's series, with the correct
/// values, in the other seven device-level families, and carries no
/// fan-speed series under that device's labels (no other device sharing its
/// label 3-tuple).
pub proof fn lemma_partial_sensor_failure(samples: Seq<SampleView>, rows: Seq<RowView>, i: int)
    requires
        0 <= i < samples.len(),
        samples[i].fan_speed is None,
        samples[i].utilization is Some,
        samples[i].power_usage is Some,
        samples[i].temperature is Some,
        samples[i].memory is Some,
        forall|j: int|
            0 <= j < samples.len() && j != i ==> label_set_spec((#[trigger] samples[j]).identity)
                != label_set_spec(samples[i].identity),
    ensures
        snapshot_spec(samples, rows).gpu_utilization.contains(
            series_of(samples[i], samples[i].utilization->Some_0.gpu as i64),
        ),
        snapshot_spec(samples, rows).memory_utilization.contains(
            series_of(samples[i], samples[i].utilization->Some_0.memory as i64),
        ),
        snapshot_spec(samples, rows).power_usage.contains(
            series_of(samples[i], samples[i].power_usage->Some_0 as i64),
        ),
        snapshot_spec(samples, rows).temperature.contains(
            series_of(samples[i], samples[i].temperature->Some_0 as i64),
        ),
        snapshot_spec(samples, rows).memory_total.contains(
            series_of(samples[i], samples[i].memory->Some_0.total as i64),
        ),
        snapshot_spec(samples, rows).memory_free.contains(
            series_of(samples[i], samples[i].memory->Some_0.free as i64),
        ),
        snapshot_spec(samples, rows).memory_used.contains(
            series_of(samples[i], samples[i].memory->Some_0.used as i64),
        ),
        forall|k: int|
            0 <= k < snapshot_spec(samples, rows).fan_speed.len() ==> (#[trigger] snapshot_spec(
                samples,
                rows,
            ).fan_speed[k]).labels != label_set_spec(samples[i].identity),
{
    lemma_family_has_member(samples, gpu_util_fn(), i);
    lemma_family_has_member(samples, memory_util_fn(), i);
    lemma_family_has_member(samples, power_fn(), i);
    lemma_family_has_member(samples, temperature_fn(), i);
    lemma_family_has_member(samples, memory_total_fn(), i);
    lemma_family_has_member(samples, memory_free_fn(), i);
    lemma_family_has_member(samples, memory_used_fn(), i);
    let l = label_set_spec(samples[i].identity);
    assert forall|j: int|
        0 <= j < samples.len() implies !((#[trigger] fan_fn()(samples[j])) is Some && fan_fn()(
        samples[j],
    )->Some_0.labels == l) by {
        if j == i {
        }
    }
    lemma_family_absent(samples, fan_fn(), l);
}

/// Law: the device-count gauge of a pass equals the number of devices the
/// telemetry source enumerated, no matter how many of them subsequently
/// failed individual sensor reads.
pub proof fn lemma_num_devices_counts_enumeration(samples: Seq<SampleView>, rows: Seq<RowView>)
    ensures
        snapshot_spec(samples, rows).num_devices == samples.len() as i64,
{
}

/// Law: sampling is idempotent.  Two passes over identical readings produce
/// identical gauge values for every family; nothing accumulates from one
/// pass into the next.
pub proof fn lemma_sampling_idempotent(
    samples1: Seq<SampleView>,
    rows1: Seq<RowView>,
    samples2: Seq<SampleView>,
    rows2: Seq<RowView>,
)
    requires
        samples1 == samples2,
        rows1 == rows2,
    ensures
        snapshot_spec(samples1, rows1) == snapshot_spec(samples2, rows2),
{
}

} // verus!
