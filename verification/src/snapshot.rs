//! One sampling pass's result: the values each gauge family receives.
//!
//! A pass maps every device's optional sensor readings onto a fixed catalog
//! of gauge families.  Each dimension is handled independently: a device
//! contributes a series to a family exactly when the reading for that
//! dimension succeeded, so one failed sensor never blocks the others.

use vstd::prelude::*;

use crate::model::DeviceSample;
use crate::model::ProcessRow;
use crate::model::RowView;
use crate::model::SampleView;
use crate::model::device_label_set;
use crate::model::label_set_spec;
use crate::model::process_label_set;
use crate::model::process_label_spec;

verus! {

/// One time series: a label set and the integer value written this pass.
pub struct Series {
    pub labels: Vec<String>,
    pub value: i64,
}

pub struct SeriesView {
    pub labels: Seq<Seq<char>>,
    pub value: i64,
}

impl View for Series {
    type V = SeriesView;

    open spec fn view(&self) -> SeriesView {
        SeriesView { labels: self.labels@.map_values(|s: String| s@), value: self.value }
    }
}

/// The gauge values of one complete, internally consistent sampling pass.
pub struct MetricsSnapshot {
    pub num_devices: i64,
    pub gpu_utilization: Vec<Series>,
    pub memory_utilization: Vec<Series>,
    pub power_usage: Vec<Series>,
    pub temperature: Vec<Series>,
    pub fan_speed: Vec<Series>,
    pub memory_total: Vec<Series>,
    pub memory_free: Vec<Series>,
    pub memory_used: Vec<Series>,
    pub process_memory: Vec<Series>,
}

pub struct SnapshotView {
    pub num_devices: i64,
    pub gpu_utilization: Seq<SeriesView>,
    pub memory_utilization: Seq<SeriesView>,
    pub power_usage: Seq<SeriesView>,
    pub temperature: Seq<SeriesView>,
    pub fan_speed: Seq<SeriesView>,
    pub memory_total: Seq<SeriesView>,
    pub memory_free: Seq<SeriesView>,
    pub memory_used: Seq<SeriesView>,
    pub process_memory: Seq<SeriesView>,
}

impl View for MetricsSnapshot {
    type V = SnapshotView;

    open spec fn view(&self) -> SnapshotView {
        SnapshotView {
            num_devices: self.num_devices,
            gpu_utilization: self.gpu_utilization@.map_values(|x: Series| x@),
            memory_utilization: self.memory_utilization@.map_values(|x: Series| x@),
            power_usage: self.power_usage@.map_values(|x: Series| x@),
            temperature: self.temperature@.map_values(|x: Series| x@),
            fan_speed: self.fan_speed@.map_values(|x: Series| x@),
            memory_total: self.memory_total@.map_values(|x: Series| x@),
            memory_free: self.memory_free@.map_values(|x: Series| x@),
            memory_used: self.memory_used@.map_values(|x: Series| x@),
            process_memory: self.process_memory@.map_values(|x: Series| x@),
        }
    }
}

/// The series a device contributes to a family: its label 3-tuple and a value.
pub open spec fn series_of(s: SampleView, v: i64) -> SeriesView {
    SeriesView { labels: label_set_spec(s.identity), value: v }
}

/// What a device contributes to the kernel-occupancy family, if anything.
pub open spec fn gpu_util_fn() -> spec_fn(SampleView) -> Option<SeriesView> {
    |s: SampleView|
        match s.utilization {
            Option::Some(u) => Option::Some(series_of(s, u.gpu as i64)),
            Option::None => Option::None,
        }
}

/// What a device contributes to the memory-occupancy family.
pub open spec fn memory_util_fn() -> spec_fn(SampleView) -> Option<SeriesView> {
    |s: SampleView|
        match s.utilization {
            Option::Some(u) => Option::Some(series_of(s, u.memory as i64)),
            Option::None => Option::None,
        }
}

/// What a device contributes to the power-draw family.
pub open spec fn power_fn() -> spec_fn(SampleView) -> Option<SeriesView> {
    |s: SampleView|
        match s.power_usage {
            Option::Some(p) => Option::Some(series_of(s, p as i64)),
            Option::None => Option::None,
        }
}

/// What a device contributes to the temperature family.
pub open spec fn temperature_fn() -> spec_fn(SampleView) -> Option<SeriesView> {
    |s: SampleView|
        match s.temperature {
            Option::Some(t) => Option::Some(series_of(s, t as i64)),
            Option::None => Option::None,
        }
}

/// What a device contributes to the fan-speed family.
pub open spec fn fan_fn() -> spec_fn(SampleView) -> Option<SeriesView> {
    |s: SampleView|
        match s.fan_speed {
            Option::Some(f) => Option::Some(series_of(s, f as i64)),
            Option::None => Option::None,
        }
}

/// What a device contributes to the total-memory family.
pub open spec fn memory_total_fn() -> spec_fn(SampleView) -> Option<SeriesView> {
    |s: SampleView|
        match s.memory {
            Option::Some(m) => Option::Some(series_of(s, m.total as i64)),
            Option::None => Option::None,
        }
}

/// What a device contributes to the free-memory family.
pub open spec fn memory_free_fn() -> spec_fn(SampleView) -> Option<SeriesView> {
    |s: SampleView|
        match s.memory {
            Option::Some(m) => Option::Some(series_of(s, m.free as i64)),
            Option::None => Option::None,
        }
}

/// What a device contributes to the used-memory family.
pub open spec fn memory_used_fn() -> spec_fn(SampleView) -> Option<SeriesView> {
    |s: SampleView|
        match s.memory {
            Option::Some(m) => Option::Some(series_of(s, m.used as i64)),
            Option::None => Option::None,
        }
}

/// What a process contributes to the per-process family, if its device
/// memory footprint is known: the device's 3-tuple extended with pid, user
/// and command.
pub open spec fn process_fn() -> spec_fn(RowView) -> Option<SeriesView> {
    |r: RowView|
        match r.used_memory {
            Option::Some(m) => Option::Some(
                SeriesView { labels: process_label_spec(r), value: m as i64 },
            ),
            Option::None => Option::None,
        }
}

/// One dimension's family: every device whose reading for that dimension
/// succeeded, in device-enumeration order, under its label 3-tuple.
pub open spec fn dim_series(
    samples: Seq<SampleView>,
    f: spec_fn(SampleView) -> Option<SeriesView>,
) -> Seq<SeriesView> {
    samples.filter_map(f)
}

/// The per-process family, in enumeration order.
pub open spec fn process_series(rows: Seq<RowView>) -> Seq<SeriesView> {
    rows.filter_map(process_fn())
}

/// The whole pass: the device count and the nine families.
pub open spec fn snapshot_spec(samples: Seq<SampleView>, rows: Seq<RowView>) -> SnapshotView {
    SnapshotView {
        num_devices: samples.len() as i64,
        gpu_utilization: dim_series(samples, gpu_util_fn()),
        memory_utilization: dim_series(samples, memory_util_fn()),
        power_usage: dim_series(samples, power_fn()),
        temperature: dim_series(samples, temperature_fn()),
        fan_speed: dim_series(samples, fan_fn()),
        memory_total: dim_series(samples, memory_total_fn()),
        memory_free: dim_series(samples, memory_free_fn()),
        memory_used: dim_series(samples, memory_used_fn()),
        process_memory: process_series(rows),
    }
}

/// Every series of the snapshot carries as many label values as its
/// family's schema has label names: three on the device-level families, six
/// on the per-process family.
pub open spec fn snapshot_arities_ok(s: SnapshotView) -> bool {
    &&& forall|k: int|
        0 <= k < s.gpu_utilization.len() ==> (#[trigger] s.gpu_utilization[k]).labels.len() == 3
    &&& forall|k: int|
        0 <= k < s.memory_utilization.len() ==> (#[trigger] s.memory_utilization[k]).labels.len()
            == 3
    &&& forall|k: int|
        0 <= k < s.power_usage.len() ==> (#[trigger] s.power_usage[k]).labels.len() == 3
    &&& forall|k: int|
        0 <= k < s.temperature.len() ==> (#[trigger] s.temperature[k]).labels.len() == 3
    &&& forall|k: int| 0 <= k < s.fan_speed.len() ==> (#[trigger] s.fan_speed[k]).labels.len() == 3
    &&& forall|k: int|
        0 <= k < s.memory_total.len() ==> (#[trigger] s.memory_total[k]).labels.len() == 3
    &&& forall|k: int|
        0 <= k < s.memory_free.len() ==> (#[trigger] s.memory_free[k]).labels.len() == 3
    &&& forall|k: int|
        0 <= k < s.memory_used.len() ==> (#[trigger] s.memory_used[k]).labels.len() == 3
    &&& forall|k: int|
        0 <= k < s.process_memory.len() ==> (#[trigger] s.process_memory[k]).labels.len() == 6
}

/// The views of a list of device samples.
pub open spec fn sample_views(samples: Seq<DeviceSample>) -> Seq<SampleView> {
    samples.map_values(|s: DeviceSample| s@)
}

/// The views of a list of process rows.
pub open spec fn row_views(rows: Seq<ProcessRow>) -> Seq<RowView> {
    rows.map_values(|r: ProcessRow| r@)
}

fn push_series(family: &mut Vec<Series>, labels: Vec<String>, value: i64)
    ensures
        final(family)@ == old(family)@.push(Series { labels, value }),
{
    family.push(Series { labels, value });
}

/// Build the snapshot of one pass from the device samples and process rows
/// the pass read.  The result is a function of the inputs alone: the device
/// count equals the number of devices enumerated, and each family holds
/// exactly the devices (or processes) whose reading for that dimension
/// succeeded, in enumeration order.
pub fn build_snapshot(samples: &Vec<DeviceSample>, rows: &Vec<ProcessRow>) -> (snap:
    MetricsSnapshot)
    requires
        samples@.len() <= 0xffff_ffff,
    ensures
        snap@ == snapshot_spec(sample_views(samples@), row_views(rows@)),
{
    let mut snap = MetricsSnapshot {
        num_devices: samples.len() as i64,
        gpu_utilization: Vec::new(),
        memory_utilization: Vec::new(),
        power_usage: Vec::new(),
        temperature: Vec::new(),
        fan_speed: Vec::new(),
        memory_total: Vec::new(),
        memory_free: Vec::new(),
        memory_used: Vec::new(),
        process_memory: Vec::new(),
    };
    let ghost all: Seq<SampleView> = sample_views(samples@);
    let mut i: usize = 0;
    while i < samples.len()
        invariant
            0 <= i <= samples.len(),
            samples@.len() <= 0xffff_ffff,
            all == sample_views(samples@),
            snap.num_devices == samples@.len() as i64,
            snap.gpu_utilization@.map_values(|x: Series| x@) == dim_series(
                all.take(i as int),
                gpu_util_fn(),
            ),
            snap.memory_utilization@.map_values(|x: Series| x@) == dim_series(
                all.take(i as int),
                memory_util_fn(),
            ),
            snap.power_usage@.map_values(|x: Series| x@) == dim_series(
                all.take(i as int),
                power_fn(),
            ),
            snap.temperature@.map_values(|x: Series| x@) == dim_series(
                all.take(i as int),
                temperature_fn(),
            ),
            snap.fan_speed@.map_values(|x: Series| x@) == dim_series(all.take(i as int), fan_fn()),
            snap.memory_total@.map_values(|x: Series| x@) == dim_series(
                all.take(i as int),
                memory_total_fn(),
            ),
            snap.memory_free@.map_values(|x: Series| x@) == dim_series(
                all.take(i as int),
                memory_free_fn(),
            ),
            snap.memory_used@.map_values(|x: Series| x@) == dim_series(
                all.take(i as int),
                memory_used_fn(),
            ),
            snap.process_memory@.len() == 0,
        decreases samples@.len() - i,
    {
        let s = &samples[i];
        match &s.utilization {
            Option::Some(u) => {
                push_series(&mut snap.gpu_utilization, device_label_set(&s.identity), u.gpu as i64);
                push_series(
                    &mut snap.memory_utilization,
                    device_label_set(&s.identity),
                    u.memory as i64,
                );
            },
            Option::None => {},
        }
        match &s.power_usage {
            Option::Some(p) => {
                push_series(&mut snap.power_usage, device_label_set(&s.identity), *p as i64);
            },
            Option::None => {},
        }
        match &s.temperature {
            Option::Some(t) => {
                push_series(&mut snap.temperature, device_label_set(&s.identity), *t as i64);
            },
            Option::None => {},
        }
        match &s.fan_speed {
            Option::Some(f) => {
                push_series(&mut snap.fan_speed, device_label_set(&s.identity), *f as i64);
            },
            Option::None => {},
        }
        match &s.memory {
            Option::Some(m) => {
                push_series(
                    &mut snap.memory_total,
                    device_label_set(&s.identity),
                    #[verifier::truncate] (m.total as i64),
                );
                push_series(
                    &mut snap.memory_free,
                    device_label_set(&s.identity),
                    #[verifier::truncate] (m.free as i64),
                );
                push_series(
                    &mut snap.memory_used,
                    device_label_set(&s.identity),
                    #[verifier::truncate] (m.used as i64),
                );
            },
            Option::None => {},
        }
        proof {
            broadcast use vstd::prelude::Seq::<_>::group_seq_extra;

            assert(all[i as int] == samples@[i as int]@);
            assert(snap.gpu_utilization@.map_values(|x: Series| x@) =~= dim_series(
                all.take(i as int + 1),
                gpu_util_fn(),
            ));
            assert(snap.memory_utilization@.map_values(|x: Series| x@) =~= dim_series(
                all.take(i as int + 1),
                memory_util_fn(),
            ));
            assert(snap.power_usage@.map_values(|x: Series| x@) =~= dim_series(
                all.take(i as int + 1),
                power_fn(),
            ));
            assert(snap.temperature@.map_values(|x: Series| x@) =~= dim_series(
                all.take(i as int + 1),
                temperature_fn(),
            ));
            assert(snap.fan_speed@.map_values(|x: Series| x@) =~= dim_series(
                all.take(i as int + 1),
                fan_fn(),
            ));
            assert(snap.memory_total@.map_values(|x: Series| x@) =~= dim_series(
                all.take(i as int + 1),
                memory_total_fn(),
            ));
            assert(snap.memory_free@.map_values(|x: Series| x@) =~= dim_series(
                all.take(i as int + 1),
                memory_free_fn(),
            ));
            assert(snap.memory_used@.map_values(|x: Series| x@) =~= dim_series(
                all.take(i as int + 1),
                memory_used_fn(),
            ));
        }
        i = i + 1;
    }
    proof {
        assert(all.take(samples@.len() as int) =~= all);
    }
    let ghost allrows: Seq<RowView> = row_views(rows@);
    let mut j: usize = 0;
    while j < rows.len()
        invariant
            0 <= j <= rows.len(),
            all == sample_views(samples@),
            allrows == row_views(rows@),
            snap.num_devices == samples@.len() as i64,
            snap.gpu_utilization@.map_values(|x: Series| x@) == dim_series(all, gpu_util_fn()),
            snap.memory_utilization@.map_values(|x: Series| x@) == dim_series(
                all,
                memory_util_fn(),
            ),
            snap.power_usage@.map_values(|x: Series| x@) == dim_series(all, power_fn()),
            snap.temperature@.map_values(|x: Series| x@) == dim_series(all, temperature_fn()),
            snap.fan_speed@.map_values(|x: Series| x@) == dim_series(all, fan_fn()),
            snap.memory_total@.map_values(|x: Series| x@) == dim_series(all, memory_total_fn()),
            snap.memory_free@.map_values(|x: Series| x@) == dim_series(all, memory_free_fn()),
            snap.memory_used@.map_values(|x: Series| x@) == dim_series(all, memory_used_fn()),
            snap.process_memory@.map_values(|x: Series| x@) == process_series(
                allrows.take(j as int),
            ),
        decreases rows@.len() - j,
    {
        let r = &rows[j];
        match &r.used_memory {
            Option::Some(m) => {
                push_series(
                    &mut snap.process_memory,
                    process_label_set(r),
                    #[verifier::truncate] (*m as i64),
                );
            },
            Option::None => {},
        }
        proof {
            broadcast use vstd::prelude::Seq::<_>::group_seq_extra;

            assert(allrows[j as int] == rows@[j as int]@);
            assert(snap.process_memory@.map_values(|x: Series| x@) =~= process_series(
                allrows.take(j as int + 1),
            ));
        }
        j = j + 1;
    }
    proof {
        assert(allrows.take(rows@.len() as int) =~= allrows);
        assert(snap.process_memory@.map_values(|x: Series| x@) == process_series(allrows));
    }
    snap
}

} // verus!
