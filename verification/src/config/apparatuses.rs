//! Apparatus definitions from the configuration catalog.

use vstd::prelude::*;

use crate::catalog::NamedMap;

verus! {

/// Apparatus definitions keyed by apparatus name.
pub type ApparatusMap = NamedMap<Apparatus>;

/// A named peripheral or fixture attachable to devices.
#[derive(Debug)]
pub struct Apparatus {
    /// Whether only one test at a time may claim this apparatus.
    pub is_exclusively_locked: bool,
    pub peripherals: Vec<String>,
    pub wrapped_apparatuses: Vec<String>,
}

/// An apparatus that does not say otherwise is exclusively locked.
pub fn default_exclusively_locked() -> (r: bool)
    ensures
        r,
{
    true
}

impl Default for Apparatus {
    /// An exclusively locked apparatus with no peripherals.
    fn default() -> (r: Self)
        ensures
            r.is_exclusively_locked,
            r.peripherals@.len() == 0,
            r.wrapped_apparatuses@.len() == 0,
    {
        Apparatus {
            is_exclusively_locked: default_exclusively_locked(),
            peripherals: Vec::new(),
            wrapped_apparatuses: Vec::new(),
        }
    }
}

} // verus!
