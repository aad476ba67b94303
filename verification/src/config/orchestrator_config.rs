//! Orchestrator-wide settings.

use vstd::prelude::*;

verus! {

/// Host paths and persistence flags shared by every test instance.
#[derive(Debug)]
pub struct OrchestratorConfig {
    /// Root folder under which all per-test workspace folders are laid out.
    pub htp_folder_root: String,
    pub persist_test_runs: bool,
    pub host_addr: String,
    pub loki_addr: String,
}

impl OrchestratorConfig {
    /// A field-for-field copy.
    pub fn duplicate(&self) -> (r: Self)
        ensures
            r == *self,
    {
        OrchestratorConfig {
            htp_folder_root: self.htp_folder_root.clone(),
            persist_test_runs: self.persist_test_runs,
            host_addr: self.host_addr.clone(),
            loki_addr: self.loki_addr.clone(),
        }
    }
}

} // verus!
