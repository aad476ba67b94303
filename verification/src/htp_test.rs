//! The typed record of one test's progress through its lifecycle:
//! Queued, Validated, Prepared, Aquiring, Runnable, Terminated.
//!
//! The stage is a phantom type parameter, so operations that need a
//! post-validation record (the configuration accessors, the mount-map
//! builders) only exist on stages that carry the `PostValidation` marker;
//! calling them earlier fails to compile rather than at run time.

use vstd::prelude::*;

use crate::catalog::spec_get;
use crate::config::dependencies::DependencySpecification;
use crate::config::orchestrator_config::OrchestratorConfig;
use crate::config::tests::spec_get_test;
use crate::config::tests::TestGroup;
use crate::config::tests::TestSpecification;
use crate::config::tests::TestSpecificationID;
use crate::config::Config;
use crate::folder::DependencyFolderType;
use crate::folder::FolderType;
use crate::folder::HtpFolder;
use crate::folder::TestFolderType;
use crate::running_test_map::entry_matches;
use crate::running_test_map::ids_unique;
use crate::running_test_map::spec_contains_id;
use crate::running_test_map::RunningTestMap;
use crate::statistics::StatsSink;
use crate::text::join_with;
use crate::text::path_join;
use crate::TestID;

verus! {

/// How urgent a test is (lower is more urgent) and its display label.
/// Priority is carried on every test but not yet consulted by any
/// scheduling decision; it is a declared extension point.
#[derive(Debug)]
pub struct TestPriority(pub usize, pub &'static str);

impl TestPriority {
    /// The priority of a manually submitted administrative run.
    pub fn admin() -> (r: TestPriority)
        ensures
            r.0 == 0,
    {
        TestPriority(0, "Admin (Manual)")
    }
}

/// Stage tag: the test is enqueued and not yet validated.
#[derive(Debug)]
pub struct Queued;

/// Stage tag: configuration and dependencies are attached and resolved.
#[derive(Debug)]
pub struct Validated;

/// Stage tag: dependency builds have run.
#[derive(Debug)]
pub struct Prepared;

/// Stage tag: the test is claiming devices and apparatuses.
#[derive(Debug)]
pub struct Aquiring;

/// Stage tag: resources are held and the test may run.
#[derive(Debug)]
pub struct Runnable;

/// Stage tag: the test is finished, successfully or not.
#[derive(Debug)]
pub struct Terminated;

/// A lifecycle stage with its display name.
pub trait TestStage {
    /// The stage name as a character sequence.
    spec fn spec_name() -> Seq<char>;

    /// The stage name, as recorded in the running-test registry.
    fn name() -> (s: String)
        ensures
            s@ == Self::spec_name(),
    ;
}

impl TestStage for Queued {
    open spec fn spec_name() -> Seq<char> {
        "Queued"@
    }

    fn name() -> (s: String) {
        "Queued".to_owned()
    }
}

impl TestStage for Validated {
    open spec fn spec_name() -> Seq<char> {
        "Validated"@
    }

    fn name() -> (s: String) {
        "Validated".to_owned()
    }
}

impl TestStage for Prepared {
    open spec fn spec_name() -> Seq<char> {
        "Prepared"@
    }

    fn name() -> (s: String) {
        "Prepared".to_owned()
    }
}

impl TestStage for Aquiring {
    open spec fn spec_name() -> Seq<char> {
        "Aquiring"@
    }

    fn name() -> (s: String) {
        "Aquiring".to_owned()
    }
}

impl TestStage for Runnable {
    open spec fn spec_name() -> Seq<char> {
        "Runnable"@
    }

    fn name() -> (s: String) {
        "Runnable".to_owned()
    }
}

impl TestStage for Terminated {
    open spec fn spec_name() -> Seq<char> {
        "Terminated"@
    }

    fn name() -> (s: String) {
        "Terminated".to_owned()
    }
}

/// Marker for the stages that can only be reached once validation has
/// attached the configuration and the resolved dependencies.
pub trait PostValidation {

}

impl PostValidation for Validated {

}

impl PostValidation for Prepared {

}

impl PostValidation for Aquiring {

}

impl PostValidation for Runnable {

}

/// The terminal error retained on a failed test record: a human-readable
/// message and the underlying cause.
#[derive(Debug)]
pub struct TestError {
    pub msg: String,
    pub cause: String,
}

/// One resolved dependency of one test: its specification and the two
/// workspace folders its build reads from and writes to.  Never shared
/// between tests.
#[derive(Debug)]
pub struct Dependency {
    pub name: String,
    pub ver: String,
    pub spec: DependencySpecification,
    pub build_input_folder: HtpFolder,
    pub build_output_folder: HtpFolder,
}

/// The record of one test instance, tagged by its current stage.
#[derive(Debug)]
pub struct HtpTest<Stage = Queued> {
    pub id: TestID,
    pub orchestrator_config: OrchestratorConfig,
    pub config_folder: HtpFolder,
    pub persist_folder: HtpFolder,
    /// Present from Validated onward.
    pub config: Option<Config>,
    /// Present from Validated onward.
    pub dependencies: Option<Vec<Dependency>>,
    pub test_spec_id: TestSpecificationID,
    pub priority: TestPriority,
    pub stats_sink: StatsSink,
    /// The terminal error of a failed test.
    pub error: Option<TestError>,
    /// Device names this test holds in the ledger.
    pub acquired_device_ids: Vec<String>,
    /// Apparatus names this test holds in the ledger.
    pub acquired_apparatus_ids: Vec<String>,
    pub execution_start_time: Option<u64>,
    pub execution_end_time: Option<u64>,
    pub was_terminated_before_finished: Option<bool>,
    pub stage: core::marker::PhantomData<Stage>,
}

/// The test specification a record was resolved against, for records whose
/// configuration is attached and resolves.
pub open spec fn spec_of<S>(t: HtpTest<S>) -> TestSpecification {
    spec_get_test(
        spec_get(t.config->Some_0.tests@, t.test_spec_id.0@)->Some_0.0@,
        t.test_spec_id.1@,
    )->Some_0
}

/// Stage monotonicity: once a record is validated — configuration and
/// dependencies attached and resolving — every transition that carries the
/// record over (advance, failure routing) leaves it validated; no later
/// stage can be reached without them.
pub proof fn lemma_stage_monotonicity<S1: TestStage, S2: TestStage>(
    a: HtpTest<S1>,
    b: HtpTest<S2>,
)
    requires
        a.validated_wf(),
        carries_core(a, b),
    ensures
        b.validated_wf(),
{
}

/// Everything but the error carries over unchanged from `a` to `b`.
pub open spec fn carries_core<S1, S2>(a: HtpTest<S1>, b: HtpTest<S2>) -> bool {
    &&& b.id == a.id
    &&& b.orchestrator_config == a.orchestrator_config
    &&& b.config_folder == a.config_folder
    &&& b.persist_folder == a.persist_folder
    &&& b.config == a.config
    &&& b.dependencies == a.dependencies
    &&& b.test_spec_id == a.test_spec_id
    &&& b.priority == a.priority
    &&& b.stats_sink == a.stats_sink
    &&& b.acquired_device_ids == a.acquired_device_ids
    &&& b.acquired_apparatus_ids == a.acquired_apparatus_ids
    &&& b.execution_start_time == a.execution_start_time
    &&& b.execution_end_time == a.execution_end_time
    &&& b.was_terminated_before_finished == a.was_terminated_before_finished
}

/// The whole record carries over unchanged from `a` to `b`.
pub open spec fn carries_over<S1, S2>(a: HtpTest<S1>, b: HtpTest<S2>) -> bool {
    carries_core(a, b) && b.error == a.error
}

/// The registry rows of `post` equal those of `pre` except that the first
/// row of `id` now reads `stage` entered at `now`.
pub open spec fn registry_moved(
    pre: Seq<crate::running_test_map::RunningTestMapEntry>,
    post: Seq<crate::running_test_map::RunningTestMapEntry>,
    id: TestSpecificationID,
    stage: Seq<char>,
    now: u64,
) -> bool {
    &&& post.len() == pre.len()
    &&& (forall|j: int|
        0 <= j < pre.len() ==> (#[trigger] post[j]).id == pre[j].id && post[j].ver == pre[j].ver)
    &&& exists|k: int|
        0 <= k < pre.len() && entry_matches(#[trigger] pre[k], id.0@, id.1@) && post[k].stage@
            == stage && post[k].entry_time == now && (forall|j: int|
            0 <= j < pre.len() && j != k ==> post[j] == pre[j])
    &&& (ids_unique(pre) ==> ids_unique(post))
    &&& spec_contains_id(post, id.0@, id.1@)
}

impl<Stage> HtpTest<Stage> where Stage: TestStage {
    /// A validated record: configuration and dependencies are attached, the
    /// referenced test group and specification resolve, and every
    /// dependency's build-target device type exists.
    pub open spec fn validated_wf(self) -> bool {
        &&& self.config is Some
        &&& self.dependencies is Some
        &&& self.config->Some_0.wf()
        &&& spec_get(self.config->Some_0.tests@, self.test_spec_id.0@) is Some
        &&& spec_get_test(
            spec_get(self.config->Some_0.tests@, self.test_spec_id.0@)->Some_0.0@,
            self.test_spec_id.1@,
        ) is Some
        &&& forall|i: int|
            0 <= i < self.dependencies->Some_0@.len() ==> spec_get(
                self.config->Some_0.device_types@,
                (#[trigger] self.dependencies->Some_0@[i]).spec.build_on@,
            ) is Some
    }

    /// Allocate the workspace folders of a new test, register it in the
    /// running-test registry as Queued, and hand back the Queued record.
    /// The caller materializes the two folders on disk and copies the seed
    /// configuration in.
    pub fn new(
        id: TestID,
        orchestrator_config: OrchestratorConfig,
        test_spec_id: TestSpecificationID,
        priority: TestPriority,
        test_map: &mut RunningTestMap,
        now: u64,
    ) -> (r: HtpTest<Queued>)
        ensures
            r.id == id,
            r.orchestrator_config == orchestrator_config,
            r.test_spec_id == test_spec_id,
            r.priority == priority,
            r.config is None,
            r.dependencies is None,
            r.error is None,
            r.acquired_device_ids@.len() == 0,
            r.acquired_apparatus_ids@.len() == 0,
            r.execution_start_time is None,
            r.execution_end_time is None,
            r.was_terminated_before_finished is None,
            r.stats_sink.test_id == id,
            r.stats_sink@.len() == 0,
            r.config_folder.1 == FolderType::Test(TestFolderType::Config),
            r.config_folder.0@ == orchestrator_config.htp_folder_root@ + "/"@ + "tests"@ + "/"@
                + test_spec_id.0@ + "/"@ + (test_spec_id.1@ + "-"@ + "0"@) + "/"@ + "config"@,
            r.persist_folder.1 == FolderType::Test(TestFolderType::Persist),
            r.persist_folder.0@ == orchestrator_config.htp_folder_root@ + "/"@ + "tests"@ + "/"@
                + test_spec_id.0@ + "/"@ + (test_spec_id.1@ + "-"@ + "0"@) + "/"@ + "persist"@,
            final(test_map).map@.len() == old(test_map).map@.len() + 1,
            final(test_map).map@.drop_last() == old(test_map).map@,
            entry_matches(final(test_map).map@.last(), test_spec_id.0@, test_spec_id.1@),
            final(test_map).map@.last().ver@ == "0"@,
            final(test_map).map@.last().stage@ == Queued::spec_name(),
            final(test_map).map@.last().entry_time == now,
            ids_unique(old(test_map).map@) && !spec_contains_id(
                old(test_map).map@,
                test_spec_id.0@,
                test_spec_id.1@,
            ) ==> ids_unique(final(test_map).map@),
    {
        let config_folder = HtpFolder::new_test(
            &orchestrator_config,
            TestFolderType::Config,
            &test_spec_id,
            "0",
        );
        let persist_folder = HtpFolder::new_test(
            &orchestrator_config,
            TestFolderType::Persist,
            &test_spec_id,
            "0",
        );
        let stage_name = Queued::name();
        test_map.register(&test_spec_id, "0", stage_name.as_str(), now);
        HtpTest {
            id,
            config_folder,
            persist_folder,
            orchestrator_config,
            config: None,
            dependencies: None,
            test_spec_id,
            priority,
            stats_sink: StatsSink::new(id),
            error: None,
            acquired_device_ids: Vec::new(),
            acquired_apparatus_ids: Vec::new(),
            execution_start_time: None,
            execution_end_time: None,
            was_terminated_before_finished: None,
            stage: core::marker::PhantomData,
        }
    }

    /// Move the record to the next stage, stamping the transition in the
    /// running-test registry.  Every field of the record carries over; only
    /// the phantom stage tag changes.
    pub fn clone_into<T: TestStage>(self, map: &mut RunningTestMap, now: u64) -> (r: HtpTest<T>)
        requires
            spec_contains_id(old(map).map@, self.test_spec_id.0@, self.test_spec_id.1@),
        ensures
            carries_over(self, r),
            registry_moved(old(map).map@, final(map).map@, self.test_spec_id, T::spec_name(), now),
    {
        let stage_name = T::name();
        map.update_stage(&self.test_spec_id, stage_name.as_str(), now);
        HtpTest {
            id: self.id,
            config_folder: self.config_folder,
            persist_folder: self.persist_folder,
            orchestrator_config: self.orchestrator_config,
            config: self.config,
            dependencies: self.dependencies,
            test_spec_id: self.test_spec_id,
            priority: self.priority,
            stats_sink: self.stats_sink,
            error: self.error,
            acquired_device_ids: self.acquired_device_ids,
            acquired_apparatus_ids: self.acquired_apparatus_ids,
            execution_start_time: self.execution_start_time,
            execution_end_time: self.execution_end_time,
            was_terminated_before_finished: self.was_terminated_before_finished,
            stage: core::marker::PhantomData,
        }
    }

    /// Route the record to Terminated on a failure, retaining the failure's
    /// message and its underlying cause on the record for diagnostics.
    pub fn fail_with(self, msg: &str, cause: &str, map: &mut RunningTestMap, now: u64) -> (r:
        HtpTest<Terminated>)
        requires
            spec_contains_id(old(map).map@, self.test_spec_id.0@, self.test_spec_id.1@),
        ensures
            carries_core(self, r),
            r.error is Some,
            r.error->Some_0.msg@ == msg@,
            r.error->Some_0.cause@ == cause@,
            registry_moved(
                old(map).map@,
                final(map).map@,
                self.test_spec_id,
                Terminated::spec_name(),
                now,
            ),
    {
        let mut record = self;
        record.error = Some(TestError { msg: msg.to_owned(), cause: cause.to_owned() });
        let r: HtpTest<Terminated> = record.clone_into(map, now);
        r
    }
}

impl<Stage> HtpTest<Stage> where Stage: TestStage + PostValidation {
    /// The configuration attached during validation.
    pub fn config(&self) -> (r: &Config)
        requires
            self.config is Some,
        ensures
            *r == self.config->Some_0,
    {
        self.config.as_ref().unwrap()
    }

    /// The test group this test was resolved against.
    pub fn get_test_group(&self) -> (r: &TestGroup)
        requires
            self.config is Some,
            spec_get(self.config->Some_0.tests@, self.test_spec_id.0@) is Some,
        ensures
            *r == spec_get(self.config->Some_0.tests@, self.test_spec_id.0@)->Some_0,
    {
        self.config().tests.get(self.test_spec_id.0.as_str()).unwrap()
    }

    /// The test specification this test runs.
    pub fn get_test_spec(&self) -> (r: &TestSpecification)
        requires
            self.config is Some,
            spec_get(self.config->Some_0.tests@, self.test_spec_id.0@) is Some,
            spec_get_test(
                spec_get(self.config->Some_0.tests@, self.test_spec_id.0@)->Some_0.0@,
                self.test_spec_id.1@,
            ) is Some,
        ensures
            *r == spec_get_test(
                spec_get(self.config->Some_0.tests@, self.test_spec_id.0@)->Some_0.0@,
                self.test_spec_id.1@,
            )->Some_0,
    {
        let test_group = self.get_test_group();
        test_group.get_test(self.test_spec_id.1.as_str()).unwrap()
    }

    /// The dependencies resolved during validation.
    pub fn dependencies(&self) -> (r: &Vec<Dependency>)
        requires
            self.dependencies is Some,
        ensures
            *r == self.dependencies->Some_0,
    {
        self.dependencies.as_ref().unwrap()
    }

    /// The dependencies resolved during validation, for mutation in place.
    pub fn dependencies_mut(&mut self) -> (r: &mut Vec<Dependency>)
        requires
            old(self).dependencies is Some,
        ensures
            *r == old(self).dependencies->Some_0,
            final(self).dependencies == Some(*final(r)),
            final(self).id == old(self).id,
            final(self).orchestrator_config == old(self).orchestrator_config,
            final(self).config_folder == old(self).config_folder,
            final(self).persist_folder == old(self).persist_folder,
            final(self).config == old(self).config,
            final(self).test_spec_id == old(self).test_spec_id,
            final(self).priority == old(self).priority,
            final(self).stats_sink == old(self).stats_sink,
            final(self).error == old(self).error,
            final(self).acquired_device_ids == old(self).acquired_device_ids,
            final(self).acquired_apparatus_ids == old(self).acquired_apparatus_ids,
            final(self).execution_start_time == old(self).execution_start_time,
            final(self).execution_end_time == old(self).execution_end_time,
            final(self).was_terminated_before_finished == old(self).was_terminated_before_finished,
    {
        self.dependencies.as_mut().unwrap()
    }

    /// The mounts of the test's own folders: `HTP_CONFIG` and `HTP_PERSIST`
    /// bound to `<root>/config` and `<root>/persist` inside the environment.
    pub fn test_mount_map(&self, inner_htp_root: &str) -> (r: EnvironmentMountMap)
        ensures
            r.0@.len() == 2,
            r.0@[0].env_var@ == "HTP_CONFIG"@,
            r.0@[0].host_path@ == self.config_folder.0@,
            r.0@[0].inner_path@ == inner_htp_root@ + "/"@ + "config"@,
            r.0@[1].env_var@ == "HTP_PERSIST"@,
            r.0@[1].host_path@ == self.persist_folder.0@,
            r.0@[1].inner_path@ == inner_htp_root@ + "/"@ + "persist"@,
    {
        let mut map = EnvironmentMountMap::new();
        map.0.push(
            MountMapSet {
                env_var: "HTP_CONFIG".to_owned(),
                host_path: self.config_folder.0.clone(),
                inner_path: path_join(inner_htp_root, "config"),
            },
        );
        map.0.push(
            MountMapSet {
                env_var: "HTP_PERSIST".to_owned(),
                host_path: self.persist_folder.0.clone(),
                inner_path: path_join(inner_htp_root, "persist"),
            },
        );
        map
    }
}

impl Dependency {
    /// Resolve one declared dependency: record its specification and compute
    /// its build-input and build-output folder paths.  The caller
    /// materializes the folders on disk.
    pub fn new(
        orchestrator_config: &OrchestratorConfig,
        name: &str,
        specification: &DependencySpecification,
    ) -> (r: Self)
        ensures
            r.name@ == name@,
            r.ver@ == "VER"@,
            r.spec == *specification,
            r.build_input_folder.1 == FolderType::Dependency(DependencyFolderType::BuildInput),
            r.build_input_folder.0@ == orchestrator_config.htp_folder_root@ + "/"@
                + "dependencies"@ + "/"@ + (name@ + "-"@ + "VER"@) + "/"@ + "build_input"@,
            r.build_output_folder.1 == FolderType::Dependency(DependencyFolderType::BuildOutput),
            r.build_output_folder.0@ == orchestrator_config.htp_folder_root@ + "/"@
                + "dependencies"@ + "/"@ + (name@ + "-"@ + "VER"@) + "/"@ + "build_output"@,
    {
        let ver = "VER";
        let build_input_folder = HtpFolder::new_dependency(
            orchestrator_config,
            DependencyFolderType::BuildInput,
            name,
            ver,
        );
        let build_output_folder = HtpFolder::new_dependency(
            orchestrator_config,
            DependencyFolderType::BuildOutput,
            name,
            ver,
        );
        Dependency {
            name: name.to_owned(),
            ver: ver.to_owned(),
            spec: specification.duplicate(),
            build_input_folder,
            build_output_folder,
        }
    }

    /// The mounts of this dependency's folders: `HTP_BUILD_INPUT` and
    /// `HTP_BUILD_OUTPUT` bound to `dependencies/<name>-<version>/{input,output}`
    /// beneath the environment root.
    pub fn dependency_mount_map(&self, inner_mount_root: &str) -> (r: EnvironmentMountMap)
        ensures
            r.0@.len() == 2,
            r.0@[0].env_var@ == "HTP_BUILD_INPUT"@,
            r.0@[0].host_path@ == self.build_input_folder.0@,
            r.0@[0].inner_path@ == inner_mount_root@ + "/"@ + "dependencies"@ + "/"@ + (self.name@
                + "-"@ + self.ver@) + "/"@ + "input"@,
            r.0@[1].env_var@ == "HTP_BUILD_OUTPUT"@,
            r.0@[1].host_path@ == self.build_output_folder.0@,
            r.0@[1].inner_path@ == inner_mount_root@ + "/"@ + "dependencies"@ + "/"@ + (self.name@
                + "-"@ + self.ver@) + "/"@ + "output"@,
    {
        let inner_root = path_join(inner_mount_root, "dependencies");
        let inner_root = path_join(
            inner_root.as_str(),
            join_with(self.name.as_str(), "-", self.ver.as_str()).as_str(),
        );
        let mut map = EnvironmentMountMap::new();
        map.0.push(
            MountMapSet {
                env_var: "HTP_BUILD_INPUT".to_owned(),
                host_path: self.build_input_folder.0.clone(),
                inner_path: path_join(inner_root.as_str(), "input"),
            },
        );
        map.0.push(
            MountMapSet {
                env_var: "HTP_BUILD_OUTPUT".to_owned(),
                host_path: self.build_output_folder.0.clone(),
                inner_path: path_join(inner_root.as_str(), "output"),
            },
        );
        map
    }
}

/// One mount: the environment variable that names it, the host path, and
/// the path inside the execution environment.
#[derive(Debug)]
pub struct MountMapSet {
    pub env_var: String,
    pub host_path: String,
    pub inner_path: String,
}

/// The mounts handed to the execution environment for one container.
#[derive(Debug)]
pub struct EnvironmentMountMap(pub Vec<MountMapSet>);

impl Default for EnvironmentMountMap {
    /// No mounts.
    fn default() -> (r: Self)
        ensures
            r.0@.len() == 0,
    {
        EnvironmentMountMap(Vec::new())
    }
}

impl EnvironmentMountMap {
    /// No mounts.
    pub fn new() -> (r: Self)
        ensures
            r.0@.len() == 0,
    {
        EnvironmentMountMap(Vec::new())
    }

    /// The environment-variable bindings, one `VAR=inner-path` line per
    /// mount, in mount order.
    pub fn env_vars(&self) -> (r: Vec<String>)
        ensures
            r@.len() == self.0@.len(),
            forall|i: int|
                0 <= i < r@.len() ==> (#[trigger] r@[i])@ == self.0@[i].env_var@ + "="@
                    + self.0@[i].inner_path@,
    {
        let mut env_vars: Vec<String> = Vec::new();
        let mut i: usize = 0;
        while i < self.0.len()
            invariant
                i <= self.0@.len(),
                env_vars@.len() == i,
                forall|j: int|
                    0 <= j < i ==> (#[trigger] env_vars@[j])@ == self.0@[j].env_var@ + "="@
                        + self.0@[j].inner_path@,
            decreases self.0@.len() - i,
        {
            let set = &self.0[i];
            env_vars.push(join_with(set.env_var.as_str(), "=", set.inner_path.as_str()));
            i = i + 1;
        }
        env_vars
    }

    /// The bind mounts, one `host-path:inner-path` line per mount, in mount
    /// order.
    pub fn mount_points(&self) -> (r: Vec<String>)
        ensures
            r@.len() == self.0@.len(),
            forall|i: int|
                0 <= i < r@.len() ==> (#[trigger] r@[i])@ == self.0@[i].host_path@ + ":"@
                    + self.0@[i].inner_path@,
    {
        let mut mount_points: Vec<String> = Vec::new();
        let mut i: usize = 0;
        while i < self.0.len()
            invariant
                i <= self.0@.len(),
                mount_points@.len() == i,
                forall|j: int|
                    0 <= j < i ==> (#[trigger] mount_points@[j])@ == self.0@[j].host_path@ + ":"@
                        + self.0@[j].inner_path@,
            decreases self.0@.len() - i,
        {
            let set = &self.0[i];
            mount_points.push(join_with(set.host_path.as_str(), ":", set.inner_path.as_str()));
            i = i + 1;
        }
        mount_points
    }
}

} // verus!
