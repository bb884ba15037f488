use gpu_exporter::errors::CollectingError;
use gpu_exporter::model::DeviceIdentity;
use gpu_exporter::model::DeviceSample;
use gpu_exporter::model::MemoryStats;
use gpu_exporter::model::ProcessRow;
use gpu_exporter::model::UtilizationRates;
use gpu_exporter::promreg::MetricsRegistry;
use gpu_exporter::snapshot::MetricsSnapshot;
use gpu_exporter::snapshot::Series;
use gpu_exporter::snapshot::build_snapshot;

fn example_sample() -> DeviceSample {
    DeviceSample {
        identity: DeviceIdentity {
            minor_number: 0,
            uuid: "GPU-1234".to_string(),
            name: "Tesla T4".to_string(),
        },
        utilization: Some(UtilizationRates { gpu: 37, memory: 12 }),
        power_usage: Some(70000),
        temperature: Some(40),
        fan_speed: Some(25),
        memory: Some(MemoryStats { total: 16000000000, free: 15000000000, used: 1000000000 }),
    }
}

fn encode(samples: &Vec<DeviceSample>, rows: &Vec<ProcessRow>) -> String {
    let registry = MetricsRegistry::new().expect("schema registration must succeed");
    let snap = build_snapshot(samples, rows);
    registry.apply(&snap).expect("writing gauges must succeed");
    registry.encode_text().expect("encoding must succeed")
}

#[test]
fn exposition_contains_example_series() {
    let text = encode(&vec![example_sample()], &vec![]);
    assert!(
        text.contains(
            "nvidia_gpu_gpu_utilization{minor_number=\"0\",name=\"Tesla T4\",uuid=\"GPU-1234\"} 37"
        ),
        "missing utilization series in:\n{}",
        text
    );
    assert!(
        text.contains(
            "nvidia_gpu_memory_total_bytes{minor_number=\"0\",name=\"Tesla T4\",uuid=\"GPU-1234\"} 16000000000"
        ),
        "missing total-memory series in:\n{}",
        text
    );
    assert!(text.contains("nvidia_gpu_num_devices 1"), "missing device count in:\n{}", text);
}

#[test]
fn fan_failure_omits_only_fan_series() {
    let mut fanless = example_sample();
    fanless.fan_speed = None;
    let text = encode(&vec![fanless], &vec![]);
    assert!(!text.contains("nvidia_gpu_fanspeed_percent{"), "fan series present in:\n{}", text);
    assert!(text.contains("nvidia_gpu_gpu_utilization{"), "utilization missing in:\n{}", text);
    assert!(text.contains("nvidia_gpu_memory_utilization{"), "memory util missing in:\n{}", text);
    assert!(text.contains("nvidia_gpu_power_usage_milliwatts{"), "power missing in:\n{}", text);
    assert!(text.contains("nvidia_gpu_temperature_celsius{"), "temperature missing in:\n{}", text);
    assert!(text.contains("nvidia_gpu_memory_free_bytes{"), "free memory missing in:\n{}", text);
    assert!(text.contains("nvidia_gpu_memory_used_bytes{"), "used memory missing in:\n{}", text);
    assert!(text.contains("nvidia_gpu_num_devices 1"), "device count missing in:\n{}", text);
}

#[test]
fn repeated_passes_encode_identically() {
    let registry = MetricsRegistry::new().expect("schema registration must succeed");
    let samples = vec![example_sample()];
    let rows: Vec<ProcessRow> = vec![];
    let snap = build_snapshot(&samples, &rows);
    registry.apply(&snap).expect("first pass");
    let first = registry.encode_text().expect("first encoding");
    let snap_again = build_snapshot(&samples, &rows);
    registry.apply(&snap_again).expect("second pass");
    let second = registry.encode_text().expect("second encoding");
    assert_eq!(first, second);
}

#[test]
fn process_series_carries_six_labels() {
    let rows = vec![ProcessRow {
        device_index: 0,
        identity: DeviceIdentity {
            minor_number: 0,
            uuid: "GPU-1234".to_string(),
            name: "Tesla T4".to_string(),
        },
        pid: 4242,
        user: "alice".to_string(),
        command: "python train.py".to_string(),
        used_memory: Some(500000000),
        temperature: 40,
        gpu_utilization: 37,
        memory: MemoryStats { total: 16000000000, free: 15000000000, used: 1000000000 },
    }];
    let text = encode(&vec![example_sample()], &rows);
    assert!(
        text.contains(
            "nvidia_gpu_process_memory_used_bytes{command=\"python train.py\",minor_number=\"0\",name=\"Tesla T4\",pid=\"4242\",user=\"alice\",uuid=\"GPU-1234\"} 500000000"
        ),
        "missing process series in:\n{}",
        text
    );
}

#[test]
fn mismatched_label_count_is_a_prometheus_error() {
    let registry = MetricsRegistry::new().expect("schema registration must succeed");
    let snap = MetricsSnapshot {
        num_devices: 0,
        gpu_utilization: vec![Series { labels: vec!["lonely".to_string()], value: 1 }],
        memory_utilization: vec![],
        power_usage: vec![],
        temperature: vec![],
        fan_speed: vec![],
        memory_total: vec![],
        memory_free: vec![],
        memory_used: vec![],
        process_memory: vec![],
    };
    let err = registry.apply(&snap).unwrap_err();
    assert!(matches!(err, CollectingError::Prometheus(_)));
}

#[test]
fn independent_registries_share_no_state() {
    let first = MetricsRegistry::new().expect("first registry");
    let second = MetricsRegistry::new().expect("second registry");
    let snap = build_snapshot(&vec![example_sample()], &vec![]);
    first.apply(&snap).expect("writing the first registry");
    let untouched = second.encode_text().expect("encoding the second registry");
    assert!(!untouched.contains("nvidia_gpu_gpu_utilization{"));
}

#[test]
fn process_pass_variant_writes_the_gauge() {
    let registry = MetricsRegistry::new().expect("schema registration must succeed");
    let samples: Vec<DeviceSample> = vec![];
    let rows = vec![ProcessRow {
        device_index: 0,
        identity: DeviceIdentity {
            minor_number: 0,
            uuid: "GPU-1234".to_string(),
            name: "Tesla T4".to_string(),
        },
        pid: 7,
        user: "bob".to_string(),
        command: "inference".to_string(),
        used_memory: Some(123456),
        temperature: 40,
        gpu_utilization: 37,
        memory: MemoryStats { total: 16000000000, free: 15000000000, used: 1000000000 },
    }];
    let snap = build_snapshot(&samples, &rows);
    registry.apply_process_memory(&snap.process_memory).expect("six-label series must apply");
    let text = registry.encode_text().expect("encoding must succeed");
    assert!(
        text.contains(
            "nvidia_gpu_process_memory_used_bytes{command=\"inference\",minor_number=\"0\",name=\"Tesla T4\",pid=\"7\",user=\"bob\",uuid=\"GPU-1234\"} 123456"
        ),
        "missing process series in:\n{}",
        text
    );
}

#[test]
fn process_gauge_rejects_short_label_sets() {
    let registry = MetricsRegistry::new().expect("schema registration must succeed");
    let series = vec![Series { labels: vec!["only".to_string(), "three".to_string(), "labels".to_string()], value: 9 }];
    let err = registry.apply_process_memory(&series).unwrap_err();
    assert!(matches!(err, CollectingError::Prometheus(_)));
}
