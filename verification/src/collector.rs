//! The collector: one shared driver session and one gauge catalog, sampling
//! fresh on every request.

use vstd::prelude::*;

use crate::errors::CollectingError;
use crate::laws::lemma_snapshot_arities;
use crate::model::DeviceSample;
use crate::model::ProcessRow;
use crate::promreg::MetricsRegistry;
use crate::snapshot::build_snapshot;
use crate::snapshot::row_views;
use crate::snapshot::sample_views;
use crate::telemetry::TelemetryReader;
use crate::textfmt::gpustat_body;

verus! {

/// The exporter's long-lived state: the driver session and the metric
/// catalog, both created once at startup.
pub struct Collector {
    reader: TelemetryReader,
    registry: MetricsRegistry,
}

impl Collector {
    /// The metric catalog this collector serves, as registered at startup.
    pub closed spec fn catalog(&self) -> Seq<(Seq<char>, nat)> {
        self.registry.catalog()
    }

    /// Start the driver session and register the metric catalog.  Any
    /// failure here is fatal: the process must not begin serving with a
    /// broken schema.  On success the registry holds exactly the fixed
    /// catalog of ten integer gauge families.
    pub fn new() -> (r: Result<Collector, CollectingError>)
        ensures
            r is Ok ==> r->Ok_0.catalog() == MetricsRegistry::fixed_catalog(),
    {
        let reader = match TelemetryReader::init() {
            Ok(reader) => reader,
            Err(e) => {
                return Err(e);
            },
        };
        let registry = match MetricsRegistry::new() {
            Ok(registry) => registry,
            Err(e) => {
                return Err(e);
            },
        };
        Ok(Collector { reader, registry })
    }

    /// One device pass: enumerate the devices, read their sensors, build
    /// the snapshot and overwrite the gauges with it.  The snapshot written
    /// is exactly `snapshot_spec` of the samples read: the device count the
    /// source reported, and per dimension the devices whose reading
    /// succeeded.  A failure to enumerate or to resolve a device's
    /// structural identity aborts the pass with its error, always the device
    /// layer's own; the gauge writes themselves cannot fail, because every
    /// snapshot built here matches the catalog's label schemas.  A device
    /// pass enumerates no processes, so the per-process family is left
    /// untouched.
    pub fn collect(&self) -> (r: Result<(), CollectingError>)
        ensures
            r is Err ==> r->Err_0 is Nvml,
    {
        let (_count, samples) = match self.reader.read_devices() {
            Ok(p) => p,
            Err(e) => {
                return Err(e);
            },
        };
        let rows: Vec<ProcessRow> = Vec::new();
        let snap = build_snapshot(&samples, &rows);
        proof {
            lemma_snapshot_arities(sample_views(samples@), row_views(rows@));
        }
        match self.registry.apply(&snap) {
            Ok(_) => Ok(()),
            Err(e) => Err(e),
        }
    }

    /// One process pass: writes the numeric per-process gauge — one value
    /// per (device, process) with a known footprint, under the six-label
    /// set — and returns the human-readable status body, one line per
    /// running compute process in device order then process order, empty
    /// when nothing is running.  A failure is always the device layer's own;
    /// the gauge writes cannot fail, because every series built here carries
    /// six labels.
    pub fn process(&self) -> (r: Result<String, CollectingError>)
        ensures
            r is Err ==> r->Err_0 is Nvml,
    {
        let rows = match self.reader.read_process_rows() {
            Ok(rows) => rows,
            Err(e) => {
                return Err(e);
            },
        };
        let no_devices: Vec<DeviceSample> = Vec::new();
        let snap = build_snapshot(&no_devices, &rows);
        proof {
            lemma_snapshot_arities(sample_views(no_devices@), row_views(rows@));
            assert forall|k: int| 0 <= k < snap.process_memory@.len() implies (
            #[trigger] snap.process_memory@[k])@.labels.len() == 6 by {
                assert(snap@.process_memory[k] == snap.process_memory@[k]@);
            }
        }
        match self.registry.apply_process_memory(&snap.process_memory) {
            Ok(_) => {},
            Err(e) => {
                return Err(e);
            },
        }
        Ok(gpustat_body(&rows))
    }

    /// The registry's current gauge values in the text exposition format.
    pub fn metrics_text(&self) -> (r: Result<String, CollectingError>)
        ensures
            r is Err ==> r->Err_0 is Prometheus,
    {
        self.registry.encode_text()
    }
}

} // verus!
