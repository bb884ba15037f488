//! A pull-based accelerator telemetry exporter.
//!
//! On each request the collector enumerates the accelerator devices present,
//! reads their sensors, and maps the readings onto a fixed catalog of gauges;
//! a second pass joins per-device compute processes with host process
//! identity to build human-readable status lines.  The mapping from raw,
//! sometimes-missing readings onto the gauge catalog is pure logic and is
//! verified; the device driver, the host process table, and the metric text
//! encoding are reached through a small set of trusted bindings.

pub mod digits;
pub mod model;
pub mod snapshot;
pub mod laws;
pub mod textfmt;
pub mod router;
pub mod errors;
pub mod identity;
pub mod telemetry;
pub mod promreg;
pub mod collector;
