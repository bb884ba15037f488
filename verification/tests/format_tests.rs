use gpu_exporter::digits::u64_to_dec;
use gpu_exporter::model::DeviceIdentity;
use gpu_exporter::model::MemoryStats;
use gpu_exporter::model::ProcessRow;
use gpu_exporter::model::device_label_set;
use gpu_exporter::model::process_label_set;
use gpu_exporter::textfmt::format_status_line;
use gpu_exporter::textfmt::gpustat_body;
use gpu_exporter::textfmt::join;

fn row(
    device_index: u32,
    name: &str,
    pid: u32,
    temperature: u32,
    gpu_utilization: u32,
    used: u64,
    total: u64,
) -> ProcessRow {
    ProcessRow {
        device_index,
        identity: DeviceIdentity {
            minor_number: device_index,
            uuid: format!("GPU-{}", device_index),
            name: name.to_string(),
        },
        pid,
        user: "alice".to_string(),
        command: "python train.py".to_string(),
        used_memory: Some(used),
        temperature,
        gpu_utilization,
        memory: MemoryStats { total, free: total - used, used },
    }
}

#[test]
fn decimal_rendering() {
    assert_eq!(u64_to_dec(0), "0");
    assert_eq!(u64_to_dec(7), "7");
    assert_eq!(u64_to_dec(10), "10");
    assert_eq!(u64_to_dec(37), "37");
    assert_eq!(u64_to_dec(16000000000), "16000000000");
    assert_eq!(u64_to_dec(u64::MAX), "18446744073709551615");
}

#[test]
fn device_labels_in_order() {
    let id = DeviceIdentity {
        minor_number: 3,
        uuid: "GPU-abc".to_string(),
        name: "Tesla T4".to_string(),
    };
    assert_eq!(device_label_set(&id), vec!["3", "GPU-abc", "Tesla T4"]);
}

#[test]
fn process_labels_extend_device_labels() {
    let r = row(0, "Tesla T4", 4242, 40, 37, 1000, 16000);
    let device = device_label_set(&r.identity);
    let process = process_label_set(&r);
    assert_eq!(&process[..3], &device[..]);
    assert_eq!(
        process,
        vec!["0", "GPU-0", "Tesla T4", "4242", "alice", "python train.py"]
    );
}

#[test]
fn status_line_layout() {
    let r = row(0, "Tesla T4", 4242, 40, 37, 1000, 16000);
    assert_eq!(format_status_line(&r), "[0] Tesla T4|40°C 37%| 1000 / 16000 MB");
}

#[test]
fn join_with_separators() {
    let none: Vec<String> = vec![];
    assert_eq!(join(&none, " "), "");
    let one = vec!["only".to_string()];
    assert_eq!(join(&one, " "), "only");
    let three = vec!["a".to_string(), "b".to_string(), "c".to_string()];
    assert_eq!(join(&three, " "), "a b c");
    assert_eq!(join(&three, "\n"), "a\nb\nc");
}

#[test]
fn gpustat_empty_when_no_processes() {
    let rows: Vec<ProcessRow> = vec![];
    assert_eq!(gpustat_body(&rows), "");
}

#[test]
fn gpustat_one_line_per_process() {
    let rows = vec![
        row(0, "Tesla T4", 11, 40, 37, 1000, 16000),
        row(1, "Tesla V100", 22, 55, 90, 9000, 32000),
    ];
    assert_eq!(
        gpustat_body(&rows),
        "[0] Tesla T4|40°C 37%| 1000 / 16000 MB\n[1] Tesla V100|55°C 90%| 9000 / 32000 MB"
    );
}
