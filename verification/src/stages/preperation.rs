//! The Validated -> Prepared transition: build each dependency whose
//! build-target device type is container-backed.  The core computes one
//! build plan per dependency — image, environment-variable bindings, bind
//! mounts and build script — and the embedding application executes the
//! plans against the container backend.  A dependency whose build target is
//! not container-backed is deferred (no plan).

use vstd::prelude::*;

use crate::catalog::spec_get;
use crate::config::device_types::DeviceClassification;
use crate::htp_test::HtpTest;
use crate::htp_test::Terminated;
use crate::htp_test::Validated;

verus! {

/// A dependency-build failure: the message, the underlying cause, and the
/// terminated test record carrying both.
#[derive(Debug)]
pub struct PreperationError {
    pub msg: String,
    pub source: String,
    pub terminated: HtpTest<Terminated>,
}

/// Everything the container backend needs to build one dependency.
#[derive(Debug)]
pub struct BuildPlan {
    /// Container image of the build-target device type.
    pub image: String,
    /// Root path inside the container.
    pub htp_root: String,
    /// `HTP_BUILD_INPUT` and `HTP_BUILD_OUTPUT` bindings.
    pub env_vars: Vec<String>,
    /// Host-path:inner-path bind mounts for the two build folders.
    pub mount_points: Vec<String>,
    /// The dependency's build script.
    pub script: String,
}

impl HtpTest<Validated> {
    /// One build plan per dependency, aligned with the dependency list:
    /// `Some` with the container build for a container-backed build target,
    /// `None` for a build target that the execution backend does not yet
    /// support.  The build folders are mounted under the fixed
    /// `dependencies/<name>-<version>/{input,output}` namespace beneath the
    /// target's root, exactly as they are when the dependency is installed.
    pub fn prepare_plans(&self) -> (r: Vec<Option<BuildPlan>>)
        requires
            self.validated_wf(),
        ensures
            r@.len() == self.dependencies->Some_0@.len(),
            forall|i: int|
                0 <= i < r@.len() ==> {
                    let d = self.dependencies->Some_0@[i];
                    let dt = spec_get(self.config->Some_0.device_types@, d.spec.build_on@)->Some_0;
                    match #[trigger] r@[i] {
                        Some(plan) => {
                            &&& dt.classification is Docker
                            &&& plan.image == dt.classification->Docker_0.image
                            &&& plan.htp_root == dt.classification->Docker_0.htp_root
                            &&& plan.env_vars@.len() == 2
                            &&& plan.env_vars@[0]@ == "HTP_BUILD_INPUT"@ + "="@ + (
                            dt.classification->Docker_0.htp_root@ + "/"@ + "dependencies"@ + "/"@
                                + (d.name@ + "-"@ + d.ver@) + "/"@ + "input"@)
                            &&& plan.env_vars@[1]@ == "HTP_BUILD_OUTPUT"@ + "="@ + (
                            dt.classification->Docker_0.htp_root@ + "/"@ + "dependencies"@ + "/"@
                                + (d.name@ + "-"@ + d.ver@) + "/"@ + "output"@)
                            &&& plan.mount_points@.len() == 2
                            &&& plan.mount_points@[0]@ == d.build_input_folder.0@ + ":"@ + (
                            dt.classification->Docker_0.htp_root@ + "/"@ + "dependencies"@ + "/"@
                                + (d.name@ + "-"@ + d.ver@) + "/"@ + "input"@)
                            &&& plan.mount_points@[1]@ == d.build_output_folder.0@ + ":"@ + (
                            dt.classification->Docker_0.htp_root@ + "/"@ + "dependencies"@ + "/"@
                                + (d.name@ + "-"@ + d.ver@) + "/"@ + "output"@)
                            &&& plan.script == d.spec.build_script
                        },
                        None => !(dt.classification is Docker),
                    }
                },
    {
        let cfg = self.config.as_ref().unwrap();
        let deps = self.dependencies.as_ref().unwrap();
        let mut plans: Vec<Option<BuildPlan>> = Vec::new();
        let n = deps.len();
        let mut i: usize = 0;
        while i < n
            invariant
                self.validated_wf(),
                *cfg == self.config->Some_0,
                *deps == self.dependencies->Some_0,
                n == deps@.len(),
                i <= n,
                plans@.len() == i,
                forall|j: int|
                    0 <= j < i ==> {
                        let d = self.dependencies->Some_0@[j];
                        let dt = spec_get(
                            self.config->Some_0.device_types@,
                            d.spec.build_on@,
                        )->Some_0;
                        match #[trigger] plans@[j] {
                            Some(plan) => {
                                &&& dt.classification is Docker
                                &&& plan.image == dt.classification->Docker_0.image
                                &&& plan.htp_root == dt.classification->Docker_0.htp_root
                                &&& plan.env_vars@.len() == 2
                                &&& plan.env_vars@[0]@ == "HTP_BUILD_INPUT"@ + "="@ + (
                                dt.classification->Docker_0.htp_root@ + "/"@ + "dependencies"@
                                    + "/"@ + (d.name@ + "-"@ + d.ver@) + "/"@ + "input"@)
                                &&& plan.env_vars@[1]@ == "HTP_BUILD_OUTPUT"@ + "="@ + (
                                dt.classification->Docker_0.htp_root@ + "/"@ + "dependencies"@
                                    + "/"@ + (d.name@ + "-"@ + d.ver@) + "/"@ + "output"@)
                                &&& plan.mount_points@.len() == 2
                                &&& plan.mount_points@[0]@ == d.build_input_folder.0@ + ":"@ + (
                                dt.classification->Docker_0.htp_root@ + "/"@ + "dependencies"@
                                    + "/"@ + (d.name@ + "-"@ + d.ver@) + "/"@ + "input"@)
                                &&& plan.mount_points@[1]@ == d.build_output_folder.0@ + ":"@ + (
                                dt.classification->Docker_0.htp_root@ + "/"@ + "dependencies"@
                                    + "/"@ + (d.name@ + "-"@ + d.ver@) + "/"@ + "output"@)
                                &&& plan.script == d.spec.build_script
                            },
                            None => !(dt.classification is Docker),
                        }
                    },
            decreases n - i,
        {
            let dep = &deps[i];
            let device_type = cfg.device_types.get(dep.spec.build_on.as_str()).unwrap();
            match &device_type.classification {
                DeviceClassification::Docker(spec) => {
                    let mounts = dep.dependency_mount_map(spec.htp_root.as_str());
                    let env_vars = mounts.env_vars();
                    let mount_points = mounts.mount_points();
                    proof {
                        let d = deps@[i as int];
                        assert(*dep == d);
                        assert(mounts.0@[0].host_path@ == d.build_input_folder.0@);
                        assert(env_vars@[0]@ == mounts.0@[0].env_var@ + "="@
                            + mounts.0@[0].inner_path@);
                        assert(env_vars@[1]@ == mounts.0@[1].env_var@ + "="@
                            + mounts.0@[1].inner_path@);
                        assert(mount_points@[0]@ == mounts.0@[0].host_path@ + ":"@
                            + mounts.0@[0].inner_path@);
                        assert(mount_points@[1]@ == mounts.0@[1].host_path@ + ":"@
                            + mounts.0@[1].inner_path@);
                    }
                    plans.push(
                        Some(
                            BuildPlan {
                                image: spec.image.clone(),
                                htp_root: spec.htp_root.clone(),
                                env_vars,
                                mount_points,
                                script: dep.spec.build_script.clone(),
                            },
                        ),
                    );
                },
                DeviceClassification::Real => {
                    plans.push(None);
                },
            }
            i = i + 1;
        }
        plans
    }
}

} // verus!
