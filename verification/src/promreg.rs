//! The metric registry: the fixed catalog of exported gauges, created once
//! at startup, whose values a pass overwrites.
//!
//! The gauge containers and the text exposition format belong to the
//! prometheus crate and are reached through trusted bindings; which series
//! each family receives is decided by the verified snapshot logic.

use vstd::prelude::*;
use vstd::string::StringExecFns;

use crate::errors::CollectingError;
use crate::snapshot::MetricsSnapshot;
use crate::snapshot::Series;
use crate::snapshot::snapshot_arities_ok;

verus! {

/// prometheus's registry, carried through opaquely.
#[verifier::external_type_specification]
#[verifier::external_body]
pub struct ExRegistry(prometheus::Registry);

/// prometheus's unlabeled integer gauge.  Verus refuses the gauge type's
/// declaration (its storage parameter is bounded by a prometheus trait), so
/// the gauge is held opaquely behind this handle.
#[verifier::external_body]
pub struct GaugeHandle {
    inner: prometheus::IntGauge,
}

/// prometheus's labeled integer gauge family.  Verus refuses the container
/// type's declaration (its builder type parameter is private to the
/// prometheus crate), so the family is held opaquely behind this handle.
#[verifier::external_body]
pub struct GaugeVecHandle {
    inner: prometheus::IntGaugeVec,
}

/// prometheus's text encoder, carried opaquely.
#[verifier::external_type_specification]
#[verifier::external_body]
pub struct ExTextEncoder(prometheus::TextEncoder);

/// One gathered metric family, carried opaquely.
#[verifier::external_type_specification]
#[verifier::external_body]
pub struct ExMetricFamily(prometheus::proto::MetricFamily);

/// The metric name an unlabeled gauge was created under.
pub uninterp spec fn gauge_name(g: GaugeHandle) -> Seq<char>;

/// The metric name a gauge family was created under.
pub uninterp spec fn family_name(g: GaugeVecHandle) -> Seq<char>;

/// The number of variable labels a gauge family was created with: the label
/// count every write into the family is checked against.
pub uninterp spec fn family_arity(g: GaugeVecHandle) -> nat;

/// Relies on prometheus::Registry::new_custom, which errs exactly on an
/// empty prefix: a fresh registry whose metric names carry the prefix.
#[verifier::external_body]
fn registry_new(namespace: &str) -> (r: Result<prometheus::Registry, prometheus::Error>)
    ensures
        r is Ok <==> namespace@.len() != 0,
{
    prometheus::Registry::new_custom(Some(namespace.to_string()), None)
}

/// Relies on prometheus::IntGauge::with_opts (Opts::new only builds its
/// argument record): one unlabeled integer gauge, created under the given
/// name; Err exactly on an illegal name or an empty help text.
#[verifier::external_body]
fn int_gauge_new(name: &str, help: &str) -> (r: Result<GaugeHandle, prometheus::Error>)
    ensures
        r is Ok ==> gauge_name(r->Ok_0) == name@,
{
    prometheus::IntGauge::with_opts(prometheus::Opts::new(name, help)).map(
        |g| GaugeHandle { inner: g },
    )
}

/// Relies on prometheus::IntGaugeVec::new (Opts::new only builds its
/// argument record): one labeled integer gauge family, created under the
/// given name with exactly the given variable label names; Err exactly on an
/// illegal name, an empty help text, or illegal or repeated label names.
#[verifier::external_body]
fn int_gauge_vec_new(name: &str, help: &str, labels: &Vec<String>) -> (r: Result<
    GaugeVecHandle,
    prometheus::Error,
>)
    ensures
        r is Ok ==> family_name(r->Ok_0) == name@,
        r is Ok ==> family_arity(r->Ok_0) == labels@.len(),
{
    let refs: Vec<&str> = labels.iter().map(|s| s.as_str()).collect();
    prometheus::IntGaugeVec::new(prometheus::Opts::new(name, help), &refs).map(
        |g| GaugeVecHandle { inner: g },
    )
}

/// Relies on prometheus::Registry::register: adds the gauge to the registry,
/// erring on a duplicate or inconsistent descriptor.  Success is not
/// promised even for a fresh name: the registry deduplicates by a 64-bit
/// descriptor hash, so the source does not rule out a collision.
#[verifier::external_body]
fn register_gauge(registry: &prometheus::Registry, gauge: &GaugeHandle) -> (r: Result<
    (),
    prometheus::Error,
>) {
    registry.register(Box::new(gauge.inner.clone()))
}

/// Relies on prometheus::Registry::register: adds the gauge family to the
/// registry, erring on a duplicate or inconsistent descriptor, with the same
/// hash-collision caveat as for the unlabeled gauge.
#[verifier::external_body]
fn register_gauge_vec(
    registry: &prometheus::Registry,
    gauge: &GaugeVecHandle,
) -> (r: Result<(), prometheus::Error>) {
    registry.register(Box::new(gauge.inner.clone()))
}

/// Relies on prometheus::IntGauge::set: overwrites the gauge's value.
#[verifier::external_body]
fn gauge_set(gauge: &GaugeHandle, value: i64) {
    gauge.inner.set(value)
}

/// Relies on prometheus::IntGaugeVec::get_metric_with_label_values: the
/// child gauge under those label values, created lazily on first use.  It
/// errs exactly when the number of values differs from the family's label
/// count; the label values themselves are unrestricted.
#[verifier::external_body]
fn gauge_vec_with_labels(gauge: &GaugeVecHandle, labels: &Vec<String>) -> (r: Result<
    GaugeHandle,
    prometheus::Error,
>)
    ensures
        r is Ok <==> labels@.len() == family_arity(*gauge),
{
    let refs: Vec<&str> = labels.iter().map(|s| s.as_str()).collect();
    gauge.inner.get_metric_with_label_values(&refs).map(|g| GaugeHandle { inner: g })
}

/// Relies on prometheus::Registry::gather: the registry's current values as
/// metric families, sorted by name.
#[verifier::external_body]
fn registry_gather(registry: &prometheus::Registry) -> (r: Vec<prometheus::proto::MetricFamily>) {
    registry.gather()
}

/// Relies on prometheus::TextEncoder::new.
#[verifier::external_body]
fn text_encoder_new() -> (r: prometheus::TextEncoder) {
    prometheus::TextEncoder::new()
}

/// Relies on prometheus::TextEncoder::encode_to_string: the families in the
/// text exposition format.
#[verifier::external_body]
fn encode_families(
    encoder: &prometheus::TextEncoder,
    families: &Vec<prometheus::proto::MetricFamily>,
) -> (r: Result<String, prometheus::Error>) {
    encoder.encode_to_string(families)
}

/// The label names of every per-device gauge family.
pub fn device_label_names() -> (v: Vec<String>)
    ensures
        v@.map_values(|s: String| s@) == seq![("minor_number")@, ("uuid")@, ("name")@],
{
    let mut v: Vec<String> = Vec::new();
    v.push(String::from_str("minor_number"));
    v.push(String::from_str("uuid"));
    v.push(String::from_str("name"));
    proof {
        assert(v@.map_values(|s: String| s@) =~= seq![("minor_number")@, ("uuid")@, ("name")@]);
    }
    v
}

/// The label names of the per-process gauge family: the device labels
/// extended with pid, user and command.
pub fn process_label_names() -> (v: Vec<String>)
    ensures
        v@.map_values(|s: String| s@) == seq![
            ("minor_number")@,
            ("uuid")@,
            ("name")@,
            ("pid")@,
            ("user")@,
            ("command")@,
        ],
{
    let mut v: Vec<String> = Vec::new();
    v.push(String::from_str("minor_number"));
    v.push(String::from_str("uuid"));
    v.push(String::from_str("name"));
    v.push(String::from_str("pid"));
    v.push(String::from_str("user"));
    v.push(String::from_str("command"));
    proof {
        assert(v@.map_values(|s: String| s@) =~= seq![
            ("minor_number")@,
            ("uuid")@,
            ("name")@,
            ("pid")@,
            ("user")@,
            ("command")@,
        ]);
    }
    v
}

/// The fixed catalog of exported gauges.  Registration happens exactly once,
/// in the constructor; a duplicate name or a bad label schema is a fatal
/// startup error.
pub struct MetricsRegistry {
    registry: prometheus::Registry,
    num_devices: GaugeHandle,
    gpu_utilization: GaugeVecHandle,
    memory_utilization: GaugeVecHandle,
    power_usage: GaugeVecHandle,
    temperature: GaugeVecHandle,
    fan_speed: GaugeVecHandle,
    memory_total: GaugeVecHandle,
    memory_free: GaugeVecHandle,
    memory_used: GaugeVecHandle,
    process_memory: GaugeVecHandle,
}

/// Create and register one per-device gauge family (three variable labels).
fn new_device_family(
    registry: &prometheus::Registry,
    name: &str,
    help: &str,
) -> (r: Result<GaugeVecHandle, prometheus::Error>)
    ensures
        r is Ok ==> family_name(r->Ok_0) == name@,
        r is Ok ==> family_arity(r->Ok_0) == 3,
{
    let labels = device_label_names();
    proof {
        assert(labels@.len() == labels@.map_values(|s: String| s@).len());
    }
    let family = match int_gauge_vec_new(name, help, &labels) {
        Ok(f) => f,
        Err(e) => {
            return Err(e);
        },
    };
    match register_gauge_vec(registry, &family) {
        Ok(_) => Ok(family),
        Err(e) => Err(e),
    }
}

impl MetricsRegistry {
    /// Every family carries the catalog's name and label count it was
    /// created with: eight device-level families of three labels, the
    /// per-process family of six, and the unlabeled device-count gauge.
    #[verifier::type_invariant]
    spec fn inv(self) -> bool {
        &&& gauge_name(self.num_devices) == ("num_devices")@
        &&& family_name(self.gpu_utilization) == ("gpu_utilization")@
        &&& family_name(self.memory_utilization) == ("memory_utilization")@
        &&& family_name(self.power_usage) == ("power_usage_milliwatts")@
        &&& family_name(self.temperature) == ("temperature_celsius")@
        &&& family_name(self.fan_speed) == ("fanspeed_percent")@
        &&& family_name(self.memory_total) == ("memory_total_bytes")@
        &&& family_name(self.memory_free) == ("memory_free_bytes")@
        &&& family_name(self.memory_used) == ("memory_used_bytes")@
        &&& family_name(self.process_memory) == ("process_memory_used_bytes")@
        &&& family_arity(self.gpu_utilization) == 3
        &&& family_arity(self.memory_utilization) == 3
        &&& family_arity(self.power_usage) == 3
        &&& family_arity(self.temperature) == 3
        &&& family_arity(self.fan_speed) == 3
        &&& family_arity(self.memory_total) == 3
        &&& family_arity(self.memory_free) == 3
        &&& family_arity(self.memory_used) == 3
        &&& family_arity(self.process_memory) == 6
    }

    /// The catalog as registered: each metric name paired with its variable
    /// label count, in registration order.
    pub closed spec fn catalog(&self) -> Seq<(Seq<char>, nat)> {
        seq![
            (gauge_name(self.num_devices), 0nat),
            (family_name(self.gpu_utilization), family_arity(self.gpu_utilization)),
            (family_name(self.memory_utilization), family_arity(self.memory_utilization)),
            (family_name(self.power_usage), family_arity(self.power_usage)),
            (family_name(self.temperature), family_arity(self.temperature)),
            (family_name(self.fan_speed), family_arity(self.fan_speed)),
            (family_name(self.memory_total), family_arity(self.memory_total)),
            (family_name(self.memory_free), family_arity(self.memory_free)),
            (family_name(self.memory_used), family_arity(self.memory_used)),
            (family_name(self.process_memory), family_arity(self.process_memory)),
        ]
    }

    /// The exporter's fixed catalog: ten integer gauges under these names,
    /// the device-count gauge unlabeled, the device-level families with
    /// three variable labels, the per-process family with six.
    pub open spec fn fixed_catalog() -> Seq<(Seq<char>, nat)> {
        seq![
            (("num_devices")@, 0nat),
            (("gpu_utilization")@, 3nat),
            (("memory_utilization")@, 3nat),
            (("power_usage_milliwatts")@, 3nat),
            (("temperature_celsius")@, 3nat),
            (("fanspeed_percent")@, 3nat),
            (("memory_total_bytes")@, 3nat),
            (("memory_free_bytes")@, 3nat),
            (("memory_used_bytes")@, 3nat),
            (("process_memory_used_bytes")@, 6nat),
        ]
    }
    /// Register the whole catalog under the exporter's namespace.  Any
    /// failure is fatal at startup: the process must not serve a broken
    /// schema.  On success the registry holds exactly the fixed catalog;
    /// success itself is not promised because the registry's duplicate check
    /// compares 64-bit descriptor hashes (see the register bindings).
    pub fn new() -> (r: Result<MetricsRegistry, CollectingError>)
        ensures
            r is Ok ==> r->Ok_0.catalog() == Self::fixed_catalog(),
            r is Err ==> r->Err_0 is Prometheus,
    {
        let registry = match registry_new("nvidia_gpu") {
            Ok(r) => r,
            Err(e) => {
                return Err(CollectingError::Prometheus(e));
            },
        };
        let num_devices = match int_gauge_new("num_devices", "Number of GPU devices") {
            Ok(g) => g,
            Err(e) => {
                return Err(CollectingError::Prometheus(e));
            },
        };
        match register_gauge(&registry, &num_devices) {
            Ok(_) => {},
            Err(e) => {
                return Err(CollectingError::Prometheus(e));
            },
        }
        let gpu_utilization = match new_device_family(
            &registry,
            "gpu_utilization",
            "Percent of time over the past sample period during which one or more kernels were executing on the GPU device",
        ) {
            Ok(f) => f,
            Err(e) => {
                return Err(CollectingError::Prometheus(e));
            },
        };
        let memory_utilization = match new_device_family(
            &registry,
            "memory_utilization",
            "Percent of time over the past sample period during which global (device) memory was being read or written to.",
        ) {
            Ok(f) => f,
            Err(e) => {
                return Err(CollectingError::Prometheus(e));
            },
        };
        let power_usage = match new_device_family(
            &registry,
            "power_usage_milliwatts",
            "Power usage of the GPU device in milliwatts",
        ) {
            Ok(f) => f,
            Err(e) => {
                return Err(CollectingError::Prometheus(e));
            },
        };
        let temperature = match new_device_family(
            &registry,
            "temperature_celsius",
            "Temperature of the GPU device in celsius",
        ) {
            Ok(f) => f,
            Err(e) => {
                return Err(CollectingError::Prometheus(e));
            },
        };
        let fan_speed = match new_device_family(
            &registry,
            "fanspeed_percent",
            "Fan speed of the GPU device as a percent of its maximum",
        ) {
            Ok(f) => f,
            Err(e) => {
                return Err(CollectingError::Prometheus(e));
            },
        };
        let memory_total = match new_device_family(
            &registry,
            "memory_total_bytes",
            "Total memory available by the GPU device in bytes",
        ) {
            Ok(f) => f,
            Err(e) => {
                return Err(CollectingError::Prometheus(e));
            },
        };
        let memory_free = match new_device_family(
            &registry,
            "memory_free_bytes",
            "Free memory of the GPU device in bytes",
        ) {
            Ok(f) => f,
            Err(e) => {
                return Err(CollectingError::Prometheus(e));
            },
        };
        let memory_used = match new_device_family(
            &registry,
            "memory_used_bytes",
            "Memory used by the GPU device in bytes",
        ) {
            Ok(f) => f,
            Err(e) => {
                return Err(CollectingError::Prometheus(e));
            },
        };
        let process_labels = process_label_names();
        proof {
            assert(process_labels@.len() == process_labels@.map_values(|s: String| s@).len());
        }
        let process_memory = match int_gauge_vec_new(
            "process_memory_used_bytes",
            "Memory used by the process in bytes",
            &process_labels,
        ) {
            Ok(f) => f,
            Err(e) => {
                return Err(CollectingError::Prometheus(e));
            },
        };
        match register_gauge_vec(&registry, &process_memory) {
            Ok(_) => {},
            Err(e) => {
                return Err(CollectingError::Prometheus(e));
            },
        }
        let catalog = MetricsRegistry {
            registry,
            num_devices,
            gpu_utilization,
            memory_utilization,
            power_usage,
            temperature,
            fan_speed,
            memory_total,
            memory_free,
            memory_used,
            process_memory,
        };
        proof {
            assert(catalog.catalog() =~= Self::fixed_catalog());
        }
        Ok(catalog)
    }

    /// Overwrite one family's children with one snapshot family's series:
    /// Ok whenever every series carries as many label values as the family
    /// has label names.
    fn apply_family(family: &GaugeVecHandle, series: &Vec<Series>) -> (r: Result<
        (),
        CollectingError,
    >)
        ensures
            (forall|k: int|
                0 <= k < series@.len() ==> (#[trigger] series@[k])@.labels.len() == family_arity(
                    *family,
                ) as int) ==> r is Ok,
            r is Err ==> r->Err_0 is Prometheus,
    {
        let mut i: usize = 0;
        while i < series.len()
            invariant
                0 <= i <= series@.len(),
            decreases series@.len() - i,
        {
            let entry = &series[i];
            proof {
                assert(series@[i as int]@.labels.len() == entry.labels@.len());
            }
            let child = match gauge_vec_with_labels(family, &entry.labels) {
                Ok(c) => c,
                Err(e) => {
                    return Err(CollectingError::Prometheus(e));
                },
            };
            gauge_set(&child, entry.value);
            i = i + 1;
        }
        Ok(())
    }

    /// Write one pass's snapshot into the gauges, overwriting previous
    /// values.  A label set a family has not seen yet lazily creates that
    /// series.  A snapshot whose series all carry the catalog's label counts
    /// (as every snapshot built by `build_snapshot` does) is applied whole.
    pub fn apply(&self, snap: &MetricsSnapshot) -> (r: Result<(), CollectingError>)
        ensures
            snapshot_arities_ok(snap@) ==> r is Ok,
            r is Err ==> r->Err_0 is Prometheus,
    {
        proof {
            use_type_invariant(&*self);
            assert forall|k: int|
                snapshot_arities_ok(snap@) && 0 <= k < snap.gpu_utilization@.len() implies (
            #[trigger] snap.gpu_utilization@[k])@.labels.len() == family_arity(
                self.gpu_utilization,
            ) as int by {
                assert(snap@.gpu_utilization[k] == snap.gpu_utilization@[k]@);
            }
            assert forall|k: int|
                snapshot_arities_ok(snap@) && 0 <= k < snap.memory_utilization@.len() implies (
            #[trigger] snap.memory_utilization@[k])@.labels.len() == family_arity(
                self.memory_utilization,
            ) as int by {
                assert(snap@.memory_utilization[k] == snap.memory_utilization@[k]@);
            }
            assert forall|k: int|
                snapshot_arities_ok(snap@) && 0 <= k < snap.power_usage@.len() implies (
            #[trigger] snap.power_usage@[k])@.labels.len() == family_arity(
                self.power_usage,
            ) as int by {
                assert(snap@.power_usage[k] == snap.power_usage@[k]@);
            }
            assert forall|k: int|
                snapshot_arities_ok(snap@) && 0 <= k < snap.temperature@.len() implies (
            #[trigger] snap.temperature@[k])@.labels.len() == family_arity(
                self.temperature,
            ) as int by {
                assert(snap@.temperature[k] == snap.temperature@[k]@);
            }
            assert forall|k: int|
                snapshot_arities_ok(snap@) && 0 <= k < snap.fan_speed@.len() implies (
            #[trigger] snap.fan_speed@[k])@.labels.len() == family_arity(self.fan_speed) as int by {
                assert(snap@.fan_speed[k] == snap.fan_speed@[k]@);
            }
            assert forall|k: int|
                snapshot_arities_ok(snap@) && 0 <= k < snap.memory_total@.len() implies (
            #[trigger] snap.memory_total@[k])@.labels.len() == family_arity(
                self.memory_total,
            ) as int by {
                assert(snap@.memory_total[k] == snap.memory_total@[k]@);
            }
            assert forall|k: int|
                snapshot_arities_ok(snap@) && 0 <= k < snap.memory_free@.len() implies (
            #[trigger] snap.memory_free@[k])@.labels.len() == family_arity(
                self.memory_free,
            ) as int by {
                assert(snap@.memory_free[k] == snap.memory_free@[k]@);
            }
            assert forall|k: int|
                snapshot_arities_ok(snap@) && 0 <= k < snap.memory_used@.len() implies (
            #[trigger] snap.memory_used@[k])@.labels.len() == family_arity(
                self.memory_used,
            ) as int by {
                assert(snap@.memory_used[k] == snap.memory_used@[k]@);
            }
            assert forall|k: int|
                snapshot_arities_ok(snap@) && 0 <= k < snap.process_memory@.len() implies (
            #[trigger] snap.process_memory@[k])@.labels.len() == family_arity(
                self.process_memory,
            ) as int by {
                assert(snap@.process_memory[k] == snap.process_memory@[k]@);
            }
        }
        gauge_set(&self.num_devices, snap.num_devices);
        match Self::apply_family(&self.gpu_utilization, &snap.gpu_utilization) {
            Ok(_) => {},
            Err(e) => {
                return Err(e);
            },
        }
        match Self::apply_family(&self.memory_utilization, &snap.memory_utilization) {
            Ok(_) => {},
            Err(e) => {
                return Err(e);
            },
        }
        match Self::apply_family(&self.power_usage, &snap.power_usage) {
            Ok(_) => {},
            Err(e) => {
                return Err(e);
            },
        }
        match Self::apply_family(&self.temperature, &snap.temperature) {
            Ok(_) => {},
            Err(e) => {
                return Err(e);
            },
        }
        match Self::apply_family(&self.fan_speed, &snap.fan_speed) {
            Ok(_) => {},
            Err(e) => {
                return Err(e);
            },
        }
        match Self::apply_family(&self.memory_total, &snap.memory_total) {
            Ok(_) => {},
            Err(e) => {
                return Err(e);
            },
        }
        match Self::apply_family(&self.memory_free, &snap.memory_free) {
            Ok(_) => {},
            Err(e) => {
                return Err(e);
            },
        }
        match Self::apply_family(&self.memory_used, &snap.memory_used) {
            Ok(_) => {},
            Err(e) => {
                return Err(e);
            },
        }
        match Self::apply_family(&self.process_memory, &snap.process_memory) {
            Ok(_) => {},
            Err(e) => {
                return Err(e);
            },
        }
        Ok(())
    }

    /// Write the per-process family alone: the numeric variant of the
    /// process pass, one value per (device, process) under the six-label
    /// set.  A list whose series all carry six label values is applied
    /// whole.
    pub fn apply_process_memory(&self, series: &Vec<Series>) -> (r: Result<(), CollectingError>)
        ensures
            (forall|k: int|
                0 <= k < series@.len() ==> (#[trigger] series@[k])@.labels.len() == 6) ==> r is Ok,
            r is Err ==> r->Err_0 is Prometheus,
    {
        proof {
            use_type_invariant(&*self);
        }
        Self::apply_family(&self.process_memory, series)
    }

    /// Encode the registry's current gauge values in the text exposition
    /// format.
    pub fn encode_text(&self) -> (r: Result<String, CollectingError>)
        ensures
            r is Err ==> r->Err_0 is Prometheus,
    {
        let families = registry_gather(&self.registry);
        let encoder = text_encoder_new();
        match encode_families(&encoder, &families) {
            Ok(s) => Ok(s),
            Err(e) => Err(CollectingError::Prometheus(e)),
        }
    }
}

} // verus!
