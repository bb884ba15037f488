//! The device telemetry source: a driver session that enumerates the
//! accelerator devices present and reads their sensors.
//!
//! Every reading is fresh per pass; the session owns device identity and
//! lifetime.  A device's structural identity (minor number, UUID, name) is
//! required and its failure aborts the pass; every sensor dimension is
//! optional and its failure only omits that dimension.

use vstd::prelude::*;

use crate::errors::CollectingError;
use crate::identity::proc_cmdline;
use crate::identity::proc_open;
use crate::identity::proc_uid;
use crate::identity::user_by_uid;
use crate::identity::user_name;
use crate::model::DevProcess;
use crate::model::DeviceIdentity;
use crate::model::DeviceSample;
use crate::model::MemoryStats;
use crate::model::ProcessRow;
use crate::model::UtilizationRates;
use crate::textfmt::join;

verus! {

/// nvml_wrapper's driver session, carried through opaquely.
#[verifier::external_type_specification]
#[verifier::external_body]
pub struct ExNvml(nvml_wrapper::Nvml);

/// One device handle borrowed from the session.
#[verifier::external_type_specification]
#[verifier::external_body]
pub struct ExDevice<'nvml>(nvml_wrapper::Device<'nvml>);

/// Relies on nvml_wrapper::Nvml::init: a driver session, or the driver's
/// error when the host lacks accelerator support.
#[verifier::external_body]
fn nvml_init() -> (r: Result<nvml_wrapper::Nvml, nvml_wrapper::error::NvmlError>) {
    nvml_wrapper::Nvml::init()
}

/// Relies on nvml_wrapper::Nvml::device_count: how many devices are present.
#[verifier::external_body]
fn device_count(nvml: &nvml_wrapper::Nvml) -> (r: Result<u32, nvml_wrapper::error::NvmlError>) {
    nvml.device_count()
}

/// Relies on nvml_wrapper::Nvml::device_by_index: the handle for one device.
#[verifier::external_body]
fn device_by_index<'nvml>(nvml: &'nvml nvml_wrapper::Nvml, index: u32) -> (r: Result<
    nvml_wrapper::Device<'nvml>,
    nvml_wrapper::error::NvmlError,
>) {
    nvml.device_by_index(index)
}

/// Relies on nvml_wrapper::Device::minor_number: the host-assigned minor
/// number of the device node.
#[verifier::external_body]
fn device_minor_number(device: &nvml_wrapper::Device<'_>) -> (r: Result<
    u32,
    nvml_wrapper::error::NvmlError,
>) {
    device.minor_number()
}

/// Relies on nvml_wrapper::Device::uuid: the device's stable UUID string.
#[verifier::external_body]
fn device_uuid(device: &nvml_wrapper::Device<'_>) -> (r: Result<
    String,
    nvml_wrapper::error::NvmlError,
>) {
    device.uuid()
}

/// Relies on nvml_wrapper::Device::name: the device's model name.
#[verifier::external_body]
fn device_name(device: &nvml_wrapper::Device<'_>) -> (r: Result<
    String,
    nvml_wrapper::error::NvmlError,
>) {
    device.name()
}

/// Relies on nvml_wrapper::Device::utilization_rates: kernel-execution and
/// memory occupancy percentages, or nothing when the sensor is unreadable.
#[verifier::external_body]
fn device_utilization(device: &nvml_wrapper::Device<'_>) -> (r: Option<UtilizationRates>) {
    device.utilization_rates().ok().map(
        |u| UtilizationRates { gpu: u.gpu, memory: u.memory },
    )
}

/// Relies on nvml_wrapper::Device::power_usage: the instantaneous power draw
/// in milliwatts, or nothing when the sensor is unreadable.
#[verifier::external_body]
fn device_power_usage(device: &nvml_wrapper::Device<'_>) -> (r: Option<u32>) {
    device.power_usage().ok()
}

/// Relies on nvml_wrapper::Device::temperature, read at the die sensor: the
/// temperature in celsius, or nothing when the sensor is unreadable.
#[verifier::external_body]
fn device_temperature(device: &nvml_wrapper::Device<'_>) -> (r: Option<u32>) {
    device.temperature(nvml_wrapper::enum_wrappers::device::TemperatureSensor::Gpu).ok()
}

/// Relies on nvml_wrapper::Device::fan_speed: one fan's duty cycle in
/// percent, or nothing when the device has no readable fan.
#[verifier::external_body]
fn device_fan_speed(device: &nvml_wrapper::Device<'_>, fan_index: u32) -> (r: Option<u32>) {
    device.fan_speed(fan_index).ok()
}

/// Relies on nvml_wrapper::Device::memory_info: total, free and used device
/// memory in bytes, or nothing when the accounting is unreadable.
#[verifier::external_body]
fn device_memory_info(device: &nvml_wrapper::Device<'_>) -> (r: Option<MemoryStats>) {
    device.memory_info().ok().map(
        |m| MemoryStats { total: m.total, free: m.free, used: m.used },
    )
}

/// Relies on nvml_wrapper::Device::running_compute_processes: the processes
/// computing on the device, each with its id and, where the driver reports
/// it, its device memory use.
#[verifier::external_body]
fn device_running_processes(device: &nvml_wrapper::Device<'_>) -> (r: Result<
    Vec<DevProcess>,
    nvml_wrapper::error::NvmlError,
>) {
    device.running_compute_processes().map(
        |ps|
            ps.into_iter().map(
                |p| DevProcess {
                    pid: p.pid,
                    used_memory: match p.used_gpu_memory {
                        nvml_wrapper::enums::device::UsedGpuMemory::Used(m) => Some(m),
                        nvml_wrapper::enums::device::UsedGpuMemory::Unavailable => None,
                    },
                },
            ).collect(),
    )
}

/// The shared driver session every request samples through.
pub struct TelemetryReader {
    nvml: nvml_wrapper::Nvml,
}

impl TelemetryReader {
    /// Start the driver session.  Failure means the host environment lacks
    /// accelerator support; the process must not begin serving.
    pub fn init() -> (r: Result<TelemetryReader, CollectingError>)
        ensures
            r is Err ==> r->Err_0 is Nvml,
    {
        match nvml_init() {
            Ok(nvml) => Ok(TelemetryReader { nvml }),
            Err(e) => Err(CollectingError::Nvml(e)),
        }
    }

    /// Enumerate the devices present and read each one's sensors.  On
    /// success the count is what the source reported and the list holds
    /// exactly one sample per device, in index order; a failure to query the
    /// count or to resolve a device's structural identity aborts the pass.
    pub fn read_devices(&self) -> (r: Result<(u32, Vec<DeviceSample>), CollectingError>)
        ensures
            r is Ok ==> r->Ok_0.1@.len() == r->Ok_0.0 as int,
            r is Err ==> r->Err_0 is Nvml,
    {
        let count = match device_count(&self.nvml) {
            Ok(n) => n,
            Err(e) => {
                return Err(CollectingError::Nvml(e));
            },
        };
        let mut samples: Vec<DeviceSample> = Vec::new();
        let mut i: u32 = 0;
        while i < count
            invariant
                i <= count,
                samples@.len() == i as int,
            decreases count - i,
        {
            let device = match device_by_index(&self.nvml, i) {
                Ok(d) => d,
                Err(e) => {
                    return Err(CollectingError::Nvml(e));
                },
            };
            let minor_number = match device_minor_number(&device) {
                Ok(m) => m,
                Err(e) => {
                    return Err(CollectingError::Nvml(e));
                },
            };
            let uuid = match device_uuid(&device) {
                Ok(u) => u,
                Err(e) => {
                    return Err(CollectingError::Nvml(e));
                },
            };
            let name = match device_name(&device) {
                Ok(n) => n,
                Err(e) => {
                    return Err(CollectingError::Nvml(e));
                },
            };
            let sample = DeviceSample {
                identity: DeviceIdentity { minor_number, uuid, name },
                utilization: device_utilization(&device),
                power_usage: device_power_usage(&device),
                temperature: device_temperature(&device),
                fan_speed: device_fan_speed(&device, 0),
                memory: device_memory_info(&device),
            };
            samples.push(sample);
            i = i + 1;
        }
        Ok((count, samples))
    }

    /// Enumerate the running compute processes of every device and join each
    /// with the host's account of it.  A failure to resolve a device's
    /// structural identity aborts the pass; a device whose process list
    /// cannot be read contributes nothing; a process whose identity cannot
    /// be resolved, or whose device readings cannot be re-read for the
    /// status line, is dropped.
    pub fn read_process_rows(&self) -> (r: Result<Vec<ProcessRow>, CollectingError>)
        ensures
            r is Err ==> r->Err_0 is Nvml,
    {
        let count = match device_count(&self.nvml) {
            Ok(n) => n,
            Err(e) => {
                return Err(CollectingError::Nvml(e));
            },
        };
        let mut rows: Vec<ProcessRow> = Vec::new();
        let mut i: u32 = 0;
        while i < count
            invariant
                i <= count,
            decreases count - i,
        {
            let device = match device_by_index(&self.nvml, i) {
                Ok(d) => d,
                Err(e) => {
                    return Err(CollectingError::Nvml(e));
                },
            };
            let minor_number = match device_minor_number(&device) {
                Ok(m) => m,
                Err(e) => {
                    return Err(CollectingError::Nvml(e));
                },
            };
            let uuid = match device_uuid(&device) {
                Ok(u) => u,
                Err(e) => {
                    return Err(CollectingError::Nvml(e));
                },
            };
            let name = match device_name(&device) {
                Ok(n) => n,
                Err(e) => {
                    return Err(CollectingError::Nvml(e));
                },
            };
            let processes = match device_running_processes(&device) {
                Ok(ps) => ps,
                Err(_) => {
                    i = i + 1;
                    continue ;
                },
            };
            let mut j: usize = 0;
            while j < processes.len()
                invariant
                    i < count,
                decreases processes@.len() - j,
            {
                let entry = &processes[j];
                j = j + 1;
                if entry.pid > 0x7fff_ffff {
                    continue ;
                }
                let proc_handle = match proc_open(entry.pid as i32) {
                    Some(p) => p,
                    None => {
                        continue ;
                    },
                };
                let parts = match proc_cmdline(&proc_handle) {
                    Some(c) => c,
                    None => {
                        continue ;
                    },
                };
                let uid = match proc_uid(&proc_handle) {
                    Some(u) => u,
                    None => {
                        continue ;
                    },
                };
                let account = match user_by_uid(uid) {
                    Some(a) => a,
                    None => {
                        continue ;
                    },
                };
                let user = match user_name(&account) {
                    Some(u) => u,
                    None => {
                        continue ;
                    },
                };
                let temperature = match device_temperature(&device) {
                    Some(t) => t,
                    None => {
                        continue ;
                    },
                };
                let utilization = match device_utilization(&device) {
                    Some(u) => u,
                    None => {
                        continue ;
                    },
                };
                let memory = match device_memory_info(&device) {
                    Some(m) => m,
                    None => {
                        continue ;
                    },
                };
                let command = join(&parts, " ");
                rows.push(
                    ProcessRow {
                        device_index: i,
                        identity: DeviceIdentity {
                            minor_number,
                            uuid: uuid.clone(),
                            name: name.clone(),
                        },
                        pid: entry.pid,
                        user,
                        command,
                        used_memory: entry.used_memory,
                        temperature,
                        gpu_utilization: utilization.gpu,
                        memory,
                    },
                );
            }
            i = i + 1;
        }
        Ok(rows)
    }
}

} // verus!
