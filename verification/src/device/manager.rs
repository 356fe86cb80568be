use vstd::prelude::*;
use crate::device::error::DeviceError;
use crate::device::types::{Device, DeviceData};

verus! {

/// Entry point for device-level business rules. The durable store remains the
/// authority for registration and persistence, so the manager accepts every
/// request without further checks.
#[derive(Debug)]
pub struct DeviceManager {}

impl DeviceManager {
    pub fn new() -> (r: Self) {
        DeviceManager {}
    }

    /// Accepts a registration request; no rule rejects a device today.
    pub fn register_device(&self, _device: &Device) -> (r: Result<(), DeviceError>)
        ensures
            r is Ok,
    {
        Ok(())
    }

    /// Accepts an inbound payload; no rule rejects a payload today.
    pub fn process_data(&self, _data: &DeviceData) -> (r: Result<(), DeviceError>)
        ensures
            r is Ok,
    {
        Ok(())
    }
}

} // verus!
