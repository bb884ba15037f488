use gpu_exporter::errors::CollectingError;
use gpu_exporter::telemetry::TelemetryReader;

#[test]
fn driver_init_failure_is_an_nvml_error() {
    // On a host without accelerator support the session must fail with the
    // driver's own error; where a driver is present, starting a session is
    // the success path.
    match TelemetryReader::init() {
        Ok(_) => {}
        Err(e) => assert!(matches!(e, CollectingError::Nvml(_))),
    }
}
