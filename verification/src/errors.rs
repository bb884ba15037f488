//! The error a sampling pass can abort with: either the device-management
//! layer failed, or the metric layer refused a registration or a write.

use vstd::prelude::*;

verus! {

/// nvml_wrapper's error enum, carried through opaquely.
#[verifier::external_type_specification]
#[verifier::external_body]
pub struct ExNvmlError(nvml_wrapper::error::NvmlError);

/// prometheus's error enum, carried through opaquely.
#[verifier::external_type_specification]
#[verifier::external_body]
pub struct ExPrometheusError(prometheus::Error);

/// Why a sampling pass was aborted.
#[derive(Debug)]
pub enum CollectingError {
    Nvml(nvml_wrapper::error::NvmlError),
    Prometheus(prometheus::Error),
}

impl From<nvml_wrapper::error::NvmlError> for CollectingError {
    fn from(err: nvml_wrapper::error::NvmlError) -> (r: CollectingError) {
        CollectingError::Nvml(err)
    }
}

impl vstd::std_specs::convert::FromSpecImpl<nvml_wrapper::error::NvmlError> for CollectingError {
    open spec fn obeys_from_spec() -> bool {
        true
    }

    open spec fn from_spec(t: nvml_wrapper::error::NvmlError) -> CollectingError {
        CollectingError::Nvml(t)
    }
}

impl From<prometheus::Error> for CollectingError {
    fn from(err: prometheus::Error) -> (r: CollectingError) {
        CollectingError::Prometheus(err)
    }
}

impl vstd::std_specs::convert::FromSpecImpl<prometheus::Error> for CollectingError {
    open spec fn obeys_from_spec() -> bool {
        true
    }

    open spec fn from_spec(t: prometheus::Error) -> CollectingError {
        CollectingError::Prometheus(t)
    }
}

} // verus!
