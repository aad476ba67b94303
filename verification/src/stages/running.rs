//! The Runnable -> Terminated transition: run the test inside its own
//! execution environment.  The core computes the complete run plan — the
//! container, its mounts and port bindings, one install step per
//! dependency, and the on-device test command — and the embedding
//! application executes it, tearing the environment down unconditionally.

use vstd::prelude::*;

use crate::htp_test::HtpTest;
use crate::htp_test::Runnable;
use crate::htp_test::Terminated;

verus! {

/// A run failure: the message, the underlying cause, and the terminated
/// test record carrying both.
#[derive(Debug)]
pub struct RunningError {
    pub msg: String,
    pub source: String,
    pub terminated: HtpTest<Terminated>,
}

/// One command to execute inside the environment, with its
/// environment-variable bindings.
#[derive(Debug)]
pub struct ExecStep {
    pub env_vars: Vec<String>,
    pub script: String,
}

/// Everything the container backend needs to run one test: the container,
/// its mounts and SSH port binding, the dependency install steps, and the
/// on-device test command.
#[derive(Debug)]
pub struct RunPlan {
    pub image: String,
    pub htp_root: String,
    /// Test config/persist mounts followed by the two mounts of each
    /// dependency, in dependency order.
    pub mount_points: Vec<String>,
    /// Container port to expose.
    pub port_container: String,
    pub port_host_ip: String,
    pub port_host: String,
    /// One install step per dependency, in dependency order.
    pub installs: Vec<ExecStep>,
    /// Environment bindings of the test's own mounts.
    pub test_env_vars: Vec<String>,
    /// Working directory of the test command.
    pub working_dir: String,
    /// The on-device test script.
    pub command: String,
}

impl HtpTest<Runnable> {
    /// Compute the run plan for this test.  `None` exactly when the test
    /// specification declares no on-device test script.
    pub fn run_plan(&self) -> (r: Option<RunPlan>)
        requires
            self.validated_wf(),
        ensures
            r is Some <==> crate::htp_test::spec_of(
                *self,
            ).on_device_test_script is Some,
            r is Some ==> {
                let plan = r->Some_0;
                let deps = self.dependencies->Some_0@;
                &&& plan.image@ == "ghcr.io/viamrobotics/canon:amd64-cache"@
                &&& plan.htp_root@ == "/htp"@
                &&& plan.port_container@ == "22"@
                &&& plan.port_host_ip@ == "localhost"@
                &&& plan.port_host@ == "4321"@
                &&& plan.mount_points@.len() == 2 + 2 * deps.len()
                &&& plan.mount_points@[0]@ == self.config_folder.0@ + ":"@ + ("/htp"@ + "/"@
                    + "config"@)
                &&& plan.mount_points@[1]@ == self.persist_folder.0@ + ":"@ + ("/htp"@ + "/"@
                    + "persist"@)
                &&& (forall|j: int|
                    0 <= j < deps.len() ==> {
                        let d = #[trigger] deps[j];
                        &&& plan.mount_points@[2 + 2 * j]@ == d.build_input_folder.0@ + ":"@ + (
                        "/htp"@ + "/"@ + "dependencies"@ + "/"@ + (d.name@ + "-"@ + d.ver@) + "/"@
                            + "input"@)
                        &&& plan.mount_points@[2 + 2 * j + 1]@ == d.build_output_folder.0@ + ":"@
                            + ("/htp"@ + "/"@ + "dependencies"@ + "/"@ + (d.name@ + "-"@ + d.ver@)
                            + "/"@ + "output"@)
                    })
                &&& plan.installs@.len() == deps.len()
                &&& (forall|j: int|
                    0 <= j < deps.len() ==> {
                        let d = #[trigger] deps[j];
                        let step = plan.installs@[j];
                        &&& step.env_vars@.len() == 2
                        &&& step.env_vars@[0]@ == "HTP_BUILD_INPUT"@ + "="@ + ("/htp"@ + "/"@
                            + "dependencies"@ + "/"@ + (d.name@ + "-"@ + d.ver@) + "/"@ + "input"@)
                        &&& step.env_vars@[1]@ == "HTP_BUILD_OUTPUT"@ + "="@ + ("/htp"@ + "/"@
                            + "dependencies"@ + "/"@ + (d.name@ + "-"@ + d.ver@) + "/"@
                            + "output"@)
                        &&& step.script == d.spec.install_script
                    })
                &&& plan.test_env_vars@.len() == 2
                &&& plan.test_env_vars@[0]@ == "HTP_CONFIG"@ + "="@ + ("/htp"@ + "/"@ + "config"@)
                &&& plan.test_env_vars@[1]@ == "HTP_PERSIST"@ + "="@ + ("/htp"@ + "/"@
                    + "persist"@)
                &&& plan.working_dir@ == "/htp"@ + "/"@ + "config"@
                &&& plan.command == crate::htp_test::spec_of(
                    *self,
                ).on_device_test_script->Some_0
            },
    {
        let htp_root = "/htp";
        let command = match &self.get_test_spec().on_device_test_script {
            Some(command) => command.clone(),
            None => {
                return None;
            },
        };
        let test_mounts = self.test_mount_map(htp_root);
        let mut mount_points = test_mounts.mount_points();
        let test_env_vars = test_mounts.env_vars();
        let deps = self.dependencies.as_ref().unwrap();
        let n = deps.len();
        let mut installs: Vec<ExecStep> = Vec::new();
        let mut i: usize = 0;
        while i < n
            invariant
                self.validated_wf(),
                htp_root@ == "/htp"@,
                *deps == self.dependencies->Some_0,
                n == deps@.len(),
                i <= n,
                mount_points@.len() == 2 + 2 * i,
                mount_points@[0]@ == self.config_folder.0@ + ":"@ + ("/htp"@ + "/"@ + "config"@),
                mount_points@[1]@ == self.persist_folder.0@ + ":"@ + ("/htp"@ + "/"@ + "persist"@),
                forall|j: int|
                    0 <= j < i ==> {
                        let d = #[trigger] deps@[j];
                        &&& mount_points@[2 + 2 * j]@ == d.build_input_folder.0@ + ":"@ + ("/htp"@
                            + "/"@ + "dependencies"@ + "/"@ + (d.name@ + "-"@ + d.ver@) + "/"@
                            + "input"@)
                        &&& mount_points@[2 + 2 * j + 1]@ == d.build_output_folder.0@ + ":"@ + (
                        "/htp"@ + "/"@ + "dependencies"@ + "/"@ + (d.name@ + "-"@ + d.ver@) + "/"@
                            + "output"@)
                    },
                installs@.len() == i,
                forall|j: int|
                    0 <= j < i ==> {
                        let d = #[trigger] deps@[j];
                        let step = installs@[j];
                        &&& step.env_vars@.len() == 2
                        &&& step.env_vars@[0]@ == "HTP_BUILD_INPUT"@ + "="@ + ("/htp"@ + "/"@
                            + "dependencies"@ + "/"@ + (d.name@ + "-"@ + d.ver@) + "/"@ + "input"@)
                        &&& step.env_vars@[1]@ == "HTP_BUILD_OUTPUT"@ + "="@ + ("/htp"@ + "/"@
                            + "dependencies"@ + "/"@ + (d.name@ + "-"@ + d.ver@) + "/"@
                            + "output"@)
                        &&& step.script == d.spec.install_script
                    },
            decreases n - i,
        {
            let dep = &deps[i];
            let dep_mounts = dep.dependency_mount_map(htp_root);
            let mut dep_points = dep_mounts.mount_points();
            let dep_env_vars = dep_mounts.env_vars();
            let ghost before = mount_points@;
            let ghost dp = dep_points@;
            mount_points.append(&mut dep_points);
            proof {
                let d = deps@[i as int];
                let ii = i as int;
                assert(*dep == d);
                assert(htp_root@ == "/htp"@);
                assert(dep_mounts.0@[0].host_path@ == d.build_input_folder.0@);
                assert(dep_mounts.0@[0].inner_path@ == "/htp"@ + "/"@ + "dependencies"@ + "/"@ + (
                d.name@ + "-"@ + d.ver@) + "/"@ + "input"@);
                assert(dp[0]@ == dep_mounts.0@[0].host_path@ + ":"@ + dep_mounts.0@[0].inner_path@);
                assert(mount_points@.len() == before.len() + dp.len());
                assert forall|k: int| 0 <= k < before.len() implies mount_points@[k]
                    == before[k] by {}
                assert(mount_points@[2 + 2 * ii] == dp[0]);
                assert(mount_points@[2 + 2 * ii + 1] == dp[1]);
                assert(dp[0]@ == d.build_input_folder.0@ + ":"@ + ("/htp"@ + "/"@
                    + "dependencies"@ + "/"@ + (d.name@ + "-"@ + d.ver@) + "/"@ + "input"@));
                assert(dp[1]@ == d.build_output_folder.0@ + ":"@ + ("/htp"@ + "/"@
                    + "dependencies"@ + "/"@ + (d.name@ + "-"@ + d.ver@) + "/"@ + "output"@));
            }
            installs.push(
                ExecStep { env_vars: dep_env_vars, script: dep.spec.install_script.clone() },
            );
            proof {
                let d = deps@[i as int];
                assert(installs@.last().env_vars@[0]@ == "HTP_BUILD_INPUT"@ + "="@ + ("/htp"@
                    + "/"@ + "dependencies"@ + "/"@ + (d.name@ + "-"@ + d.ver@) + "/"@
                    + "input"@));
                assert(installs@.last().env_vars@[1]@ == "HTP_BUILD_OUTPUT"@ + "="@ + ("/htp"@
                    + "/"@ + "dependencies"@ + "/"@ + (d.name@ + "-"@ + d.ver@) + "/"@
                    + "output"@));
                assert forall|k: int| 0 <= k < installs@.len() - 1 implies installs@[k]
                    == installs@.drop_last()[k] by {}
            }
            i = i + 1;
        }
        Some(
            RunPlan {
                image: "ghcr.io/viamrobotics/canon:amd64-cache".to_owned(),
                htp_root: htp_root.to_owned(),
                mount_points,
                port_container: "22".to_owned(),
                port_host_ip: "localhost".to_owned(),
                port_host: "4321".to_owned(),
                installs,
                test_env_vars,
                working_dir: crate::text::path_join(htp_root, "config"),
                command,
            },
        )
    }
}

} // verus!
