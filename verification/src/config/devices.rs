//! Device definitions from the configuration catalog.

use vstd::prelude::*;

use crate::catalog::NamedMap;

verus! {

/// Device definitions keyed by device name.
pub type DeviceMap = NamedMap<Device>;

/// A machine under test, of a declared device type, with a fixed set of
/// connected apparatuses.
#[derive(Debug)]
pub struct Device {
    pub device_type: String,
    pub login_username: String,
    pub connected_apparatuses: Vec<String>,
}

} // verus!
