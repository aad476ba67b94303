//! Device-type definitions from the configuration catalog.

use vstd::prelude::*;

use crate::catalog::NamedMap;

verus! {

/// Device-type definitions keyed by type name.
pub type DeviceTypeMap = NamedMap<DeviceType>;

/// A classification of devices: architecture, operating system, and how an
/// execution environment is materialized for them.
#[derive(Debug)]
pub struct DeviceType {
    pub architecture: String,
    pub os: String,
    pub classification: DeviceClassification,
}

/// Whether a device type is real hardware or container-backed.
#[derive(Debug)]
pub enum DeviceClassification {
    Real,
    Docker(DockerSpec),
}

/// The container image and in-container root path of a container-backed type.
#[derive(Debug)]
pub struct DockerSpec {
    pub image: String,
    pub htp_root: String,
}

impl DockerSpec {
    /// A field-for-field copy.
    pub fn duplicate(&self) -> (r: Self)
        ensures
            r == *self,
    {
        DockerSpec { image: self.image.clone(), htp_root: self.htp_root.clone() }
    }
}

} // verus!
