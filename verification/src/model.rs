//! The data a sampling pass works on: device identity, one device's sensor
//! readings, and one running compute process joined with its host identity.
//!
//! A device is identified durably by its minor number, UUID and model name;
//! that 3-tuple, rendered as strings, is the label set of every per-device
//! gauge.  Every sensor reading is optional: a sensor can be absent or
//! momentarily unreadable, and one missing reading must not block the others.

use vstd::prelude::*;

use crate::digits::dec_spec;
use crate::digits::u64_to_dec;

verus! {

/// The structural identity of one device: if any of these three cannot be
/// resolved, the whole sampling pass is aborted.
pub struct DeviceIdentity {
    pub minor_number: u32,
    pub uuid: String,
    pub name: String,
}

pub struct IdentityView {
    pub minor_number: u32,
    pub uuid: Seq<char>,
    pub name: Seq<char>,
}

impl View for DeviceIdentity {
    type V = IdentityView;

    open spec fn view(&self) -> IdentityView {
        IdentityView { minor_number: self.minor_number, uuid: self.uuid@, name: self.name@ }
    }
}

/// Kernel-execution and memory occupancy, both in percent.
#[derive(Clone, Copy, PartialEq, Eq, Structural)]
pub struct UtilizationRates {
    pub gpu: u32,
    pub memory: u32,
}

/// Device memory accounting, in bytes.
#[derive(Clone, Copy, PartialEq, Eq, Structural)]
pub struct MemoryStats {
    pub total: u64,
    pub free: u64,
    pub used: u64,
}

/// One device's readings for one sampling pass.  `None` in a field means the
/// sensor for that dimension could not be read this pass.
pub struct DeviceSample {
    pub identity: DeviceIdentity,
    pub utilization: Option<UtilizationRates>,
    pub power_usage: Option<u32>,
    pub temperature: Option<u32>,
    pub fan_speed: Option<u32>,
    pub memory: Option<MemoryStats>,
}

pub struct SampleView {
    pub identity: IdentityView,
    pub utilization: Option<UtilizationRates>,
    pub power_usage: Option<u32>,
    pub temperature: Option<u32>,
    pub fan_speed: Option<u32>,
    pub memory: Option<MemoryStats>,
}

impl View for DeviceSample {
    type V = SampleView;

    open spec fn view(&self) -> SampleView {
        SampleView {
            identity: self.identity@,
            utilization: self.utilization,
            power_usage: self.power_usage,
            temperature: self.temperature,
            fan_speed: self.fan_speed,
            memory: self.memory,
        }
    }
}

/// One entry of a device's running-compute-process enumeration: the process
/// id and, where the driver reports it, the device memory the process uses.
pub struct DevProcess {
    pub pid: u32,
    pub used_memory: Option<u64>,
}

/// One running compute process on one device, joined with the host's account
/// of that process and with the device readings re-read for the status line.
pub struct ProcessRow {
    pub device_index: u32,
    pub identity: DeviceIdentity,
    pub pid: u32,
    pub user: String,
    pub command: String,
    pub used_memory: Option<u64>,
    pub temperature: u32,
    pub gpu_utilization: u32,
    pub memory: MemoryStats,
}

pub struct RowView {
    pub device_index: u32,
    pub identity: IdentityView,
    pub pid: u32,
    pub user: Seq<char>,
    pub command: Seq<char>,
    pub used_memory: Option<u64>,
    pub temperature: u32,
    pub gpu_utilization: u32,
    pub memory: MemoryStats,
}

impl View for ProcessRow {
    type V = RowView;

    open spec fn view(&self) -> RowView {
        RowView {
            device_index: self.device_index,
            identity: self.identity@,
            pid: self.pid,
            user: self.user@,
            command: self.command@,
            used_memory: self.used_memory,
            temperature: self.temperature,
            gpu_utilization: self.gpu_utilization,
            memory: self.memory,
        }
    }
}

/// The label set of every per-device gauge: minor number (rendered in
/// decimal), UUID, model name, in that order.
pub open spec fn label_set_spec(id: IdentityView) -> Seq<Seq<char>> {
    seq![dec_spec(id.minor_number as nat), id.uuid, id.name]
}

/// The label set of the per-process gauge: the device's three labels
/// followed by pid (decimal), owning user and command line.
pub open spec fn process_label_spec(r: RowView) -> Seq<Seq<char>> {
    seq![
        dec_spec(r.identity.minor_number as nat),
        r.identity.uuid,
        r.identity.name,
        dec_spec(r.pid as nat),
        r.user,
        r.command,
    ]
}

/// The per-process label set begins with exactly the device label set: the
/// 3-tuple (minor_number, uuid, name) is shared between device-level and
/// process-level gauges for the same device.
pub proof fn lemma_process_labels_extend_device_labels(r: RowView)
    ensures
        process_label_spec(r).subrange(0, 3) == label_set_spec(r.identity),
{
    assert(process_label_spec(r).subrange(0, 3) =~= label_set_spec(r.identity));
}

/// Build the device label set as strings.
pub fn device_label_set(id: &DeviceIdentity) -> (r: Vec<String>)
    ensures
        r@.map_values(|s: String| s@) == label_set_spec(id@),
{
    let mut v: Vec<String> = Vec::new();
    v.push(u64_to_dec(id.minor_number as u64));
    v.push(id.uuid.clone());
    v.push(id.name.clone());
    proof {
        assert(v@.map_values(|s: String| s@) =~= label_set_spec(id@));
    }
    v
}

/// Build the process label set as strings.
pub fn process_label_set(r: &ProcessRow) -> (v: Vec<String>)
    ensures
        v@.map_values(|s: String| s@) == process_label_spec(r@),
{
    let mut v: Vec<String> = Vec::new();
    v.push(u64_to_dec(r.identity.minor_number as u64));
    v.push(r.identity.uuid.clone());
    v.push(r.identity.name.clone());
    v.push(u64_to_dec(r.pid as u64));
    v.push(r.user.clone());
    v.push(r.command.clone());
    proof {
        assert(v@.map_values(|s: String| s@) =~= process_label_spec(r@));
    }
    v
}

} // verus!
