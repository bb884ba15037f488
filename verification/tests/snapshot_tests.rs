use gpu_exporter::model::DeviceIdentity;
use gpu_exporter::model::DeviceSample;
use gpu_exporter::model::MemoryStats;
use gpu_exporter::model::ProcessRow;
use gpu_exporter::model::UtilizationRates;
use gpu_exporter::snapshot::build_snapshot;

fn healthy_sample(index: u32, name: &str) -> DeviceSample {
    DeviceSample {
        identity: DeviceIdentity {
            minor_number: index,
            uuid: format!("GPU-{}", index),
            name: name.to_string(),
        },
        utilization: Some(UtilizationRates { gpu: 37, memory: 12 }),
        power_usage: Some(70000),
        temperature: Some(40),
        fan_speed: Some(25),
        memory: Some(MemoryStats { total: 16000000000, free: 15000000000, used: 1000000000 }),
    }
}

fn labels_of(index: u32, name: &str) -> Vec<String> {
    vec![index.to_string(), format!("GPU-{}", index), name.to_string()]
}

#[test]
fn num_devices_counts_every_enumerated_device() {
    let mut broken = healthy_sample(1, "Tesla T4");
    broken.utilization = None;
    broken.power_usage = None;
    broken.temperature = None;
    broken.fan_speed = None;
    broken.memory = None;
    let samples = vec![healthy_sample(0, "Tesla T4"), broken];
    let rows: Vec<ProcessRow> = vec![];
    let snap = build_snapshot(&samples, &rows);
    assert_eq!(snap.num_devices, 2);
    assert_eq!(snap.gpu_utilization.len(), 1);
    assert_eq!(snap.fan_speed.len(), 1);
}

#[test]
fn fan_failure_keeps_other_dimensions() {
    let mut fanless = healthy_sample(0, "Tesla T4");
    fanless.fan_speed = None;
    let samples = vec![fanless, healthy_sample(1, "Tesla V100")];
    let rows: Vec<ProcessRow> = vec![];
    let snap = build_snapshot(&samples, &rows);

    let fanless_labels = labels_of(0, "Tesla T4");
    assert_eq!(snap.gpu_utilization[0].labels, fanless_labels);
    assert_eq!(snap.gpu_utilization[0].value, 37);
    assert_eq!(snap.memory_utilization[0].labels, fanless_labels);
    assert_eq!(snap.memory_utilization[0].value, 12);
    assert_eq!(snap.power_usage[0].labels, fanless_labels);
    assert_eq!(snap.power_usage[0].value, 70000);
    assert_eq!(snap.temperature[0].labels, fanless_labels);
    assert_eq!(snap.temperature[0].value, 40);
    assert_eq!(snap.memory_total[0].labels, fanless_labels);
    assert_eq!(snap.memory_total[0].value, 16000000000);
    assert_eq!(snap.memory_free[0].value, 15000000000);
    assert_eq!(snap.memory_used[0].value, 1000000000);

    assert_eq!(snap.fan_speed.len(), 1);
    assert_eq!(snap.fan_speed[0].labels, labels_of(1, "Tesla V100"));
    assert_eq!(snap.fan_speed[0].value, 25);
}

#[test]
fn label_tuple_identical_across_families() {
    let samples = vec![healthy_sample(0, "Tesla T4")];
    let rows = vec![ProcessRow {
        device_index: 0,
        identity: DeviceIdentity {
            minor_number: 0,
            uuid: "GPU-0".to_string(),
            name: "Tesla T4".to_string(),
        },
        pid: 4242,
        user: "alice".to_string(),
        command: "python train.py".to_string(),
        used_memory: Some(500000000),
        temperature: 40,
        gpu_utilization: 37,
        memory: MemoryStats { total: 16000000000, free: 15000000000, used: 1000000000 },
    }];
    let snap = build_snapshot(&samples, &rows);
    let device_labels = labels_of(0, "Tesla T4");
    for family in [
        &snap.gpu_utilization,
        &snap.memory_utilization,
        &snap.power_usage,
        &snap.temperature,
        &snap.fan_speed,
        &snap.memory_total,
        &snap.memory_free,
        &snap.memory_used,
    ] {
        assert_eq!(family[0].labels, device_labels);
    }
    assert_eq!(snap.process_memory.len(), 1);
    assert_eq!(&snap.process_memory[0].labels[..3], &device_labels[..]);
    assert_eq!(
        snap.process_memory[0].labels,
        vec!["0", "GPU-0", "Tesla T4", "4242", "alice", "python train.py"]
    );
    assert_eq!(snap.process_memory[0].value, 500000000);
}

#[test]
fn process_without_footprint_contributes_no_series() {
    let samples = vec![healthy_sample(0, "Tesla T4")];
    let rows = vec![ProcessRow {
        device_index: 0,
        identity: DeviceIdentity {
            minor_number: 0,
            uuid: "GPU-0".to_string(),
            name: "Tesla T4".to_string(),
        },
        pid: 4242,
        user: "alice".to_string(),
        command: "python".to_string(),
        used_memory: None,
        temperature: 40,
        gpu_utilization: 37,
        memory: MemoryStats { total: 16000000000, free: 15000000000, used: 1000000000 },
    }];
    let snap = build_snapshot(&samples, &rows);
    assert_eq!(snap.process_memory.len(), 0);
}

#[test]
fn sampling_is_idempotent() {
    let samples = vec![healthy_sample(0, "Tesla T4"), healthy_sample(1, "Tesla V100")];
    let rows: Vec<ProcessRow> = vec![];
    let first = build_snapshot(&samples, &rows);
    let second = build_snapshot(&samples, &rows);
    assert_eq!(first.num_devices, second.num_devices);
    for (a, b) in [
        (&first.gpu_utilization, &second.gpu_utilization),
        (&first.memory_utilization, &second.memory_utilization),
        (&first.power_usage, &second.power_usage),
        (&first.temperature, &second.temperature),
        (&first.fan_speed, &second.fan_speed),
        (&first.memory_total, &second.memory_total),
        (&first.memory_free, &second.memory_free),
        (&first.memory_used, &second.memory_used),
        (&first.process_memory, &second.process_memory),
    ] {
        assert_eq!(a.len(), b.len());
        for (x, y) in a.iter().zip(b.iter()) {
            assert_eq!(x.labels, y.labels);
            assert_eq!(x.value, y.value);
        }
    }
}
