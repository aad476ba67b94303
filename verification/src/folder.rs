//! Per-test and per-dependency workspace folders.  The core computes the
//! folder paths under the orchestrator root; the embedding application
//! materializes the directories on disk and copies seed content in.

use vstd::prelude::*;

use crate::config::orchestrator_config::OrchestratorConfig;
use crate::config::tests::TestSpecificationID;
use crate::text::join_with;
use crate::text::path_join;

verus! {

/// A workspace folder: its host path and what it is for.
#[derive(Debug)]
pub struct HtpFolder(pub String, pub FolderType);

/// What a workspace folder is for.
#[derive(Debug)]
pub enum FolderType {
    Dependency(DependencyFolderType),
    Test(TestFolderType),
}

/// The two folders of a dependency build.
#[derive(Debug)]
pub enum DependencyFolderType {
    BuildInput,
    BuildOutput,
}

/// The two folders of a test instance.
#[derive(Debug)]
pub enum TestFolderType {
    Config,
    Persist,
}

impl HtpFolder {
    /// The build-input or build-output folder of one dependency instance:
    /// `<root>/dependencies/<name>-<uuid>/{build_input,build_output}`.
    pub fn new_dependency(
        orchestrator_config: &OrchestratorConfig,
        folder_type: DependencyFolderType,
        dep_name: &str,
        uuid: &str,
    ) -> (r: Self)
        ensures
            r.0@ == orchestrator_config.htp_folder_root@ + "/"@ + "dependencies"@ + "/"@ + (
            dep_name@ + "-"@ + uuid@) + "/"@ + (match folder_type {
                DependencyFolderType::BuildInput => "build_input"@,
                DependencyFolderType::BuildOutput => "build_output"@,
            }),
            r.1 == FolderType::Dependency(folder_type),
    {
        let path = path_join(orchestrator_config.htp_folder_root.as_str(), "dependencies");
        let path = path_join(path.as_str(), join_with(dep_name, "-", uuid).as_str());
        let path = match folder_type {
            DependencyFolderType::BuildInput => path_join(path.as_str(), "build_input"),
            DependencyFolderType::BuildOutput => path_join(path.as_str(), "build_output"),
        };
        HtpFolder(path, FolderType::Dependency(folder_type))
    }

    /// The config or persist folder of one test instance:
    /// `<root>/tests/<group>/<name>-<version>/{config,persist}`.
    pub fn new_test(
        orchestrator_config: &OrchestratorConfig,
        folder_type: TestFolderType,
        testid: &TestSpecificationID,
        version: &str,
    ) -> (r: Self)
        ensures
            r.0@ == orchestrator_config.htp_folder_root@ + "/"@ + "tests"@ + "/"@ + testid.0@
                + "/"@ + (testid.1@ + "-"@ + version@) + "/"@ + (match folder_type {
                TestFolderType::Config => "config"@,
                TestFolderType::Persist => "persist"@,
            }),
            r.1 == FolderType::Test(folder_type),
    {
        let path = path_join(orchestrator_config.htp_folder_root.as_str(), "tests");
        let path = path_join(path.as_str(), testid.0.as_str());
        let path = path_join(path.as_str(), join_with(testid.1.as_str(), "-", version).as_str());
        let path = match folder_type {
            TestFolderType::Config => path_join(path.as_str(), "config"),
            TestFolderType::Persist => path_join(path.as_str(), "persist"),
        };
        HtpFolder(path, FolderType::Test(folder_type))
    }
}

} // verus!
