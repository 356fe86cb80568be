use vstd::prelude::*;

verus! {

/// A device as presented at registration.
#[derive(Debug, Clone)]
pub struct Device {
    pub id: String,
    pub public_key: String,
}

/// One payload as a device submits it.
#[derive(Debug, Clone)]
pub struct DeviceData {
    pub device_id: String,
    pub payload: Vec<u8>,
}

} // verus!
