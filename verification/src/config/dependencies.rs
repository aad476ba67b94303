//! Dependency specifications from the configuration catalog.

use vstd::prelude::*;

use crate::catalog::NamedMap;

verus! {

/// Dependency specifications keyed by dependency name.
pub type DependencyMap = NamedMap<DependencySpecification>;

/// How one external software dependency is fetched, built and installed.
#[derive(Debug)]
pub struct DependencySpecification {
    pub url: String,
    /// Name of the device type the dependency is built on.
    pub build_on: String,
    pub build_script: String,
    pub install_script: String,
}

impl DependencySpecification {
    /// A field-for-field copy.
    pub fn duplicate(&self) -> (r: Self)
        ensures
            r == *self,
    {
        DependencySpecification {
            url: self.url.clone(),
            build_on: self.build_on.clone(),
            build_script: self.build_script.clone(),
            install_script: self.install_script.clone(),
        }
    }
}

} // verus!
