//! The immutable configuration snapshot a test is validated against:
//! apparatus, dependency, device, device-type and test catalogs.

pub mod apparatuses;
pub mod dependencies;
pub mod device_types;
pub mod devices;
pub mod orchestrator_config;

use vstd::prelude::*;

use crate::catalog::keys_unique;
use crate::config::apparatuses::ApparatusMap;
use crate::config::dependencies::DependencyMap;
use crate::config::device_types::DeviceTypeMap;
use crate::config::devices::DeviceMap;
use crate::config::tests::test_names_unique;
use crate::config::tests::TestMap;

verus! {

/// Which catalog a malformed configuration snapshot failed on.
#[derive(Debug, Clone, Copy, PartialEq, Eq, Structural)]
pub enum ConfigError {
    DuplicateApparatus,
    DuplicateDependency,
    DuplicateDevice,
    DuplicateDeviceType,
    DuplicateTestGroup,
    DuplicateTestName,
}

/// The full configuration catalog for one test run.
#[derive(Debug)]
pub struct Config {
    pub apparatuses: ApparatusMap,
    pub dependencies: DependencyMap,
    pub devices: DeviceMap,
    pub device_types: DeviceTypeMap,
    pub tests: TestMap,
}

impl Config {
    /// Well-formedness: every catalog has unique keys and every test group
    /// has unique test names.
    pub open spec fn wf(self) -> bool {
        &&& keys_unique(self.apparatuses@)
        &&& keys_unique(self.dependencies@)
        &&& keys_unique(self.devices@)
        &&& keys_unique(self.device_types@)
        &&& keys_unique(self.tests@)
        &&& forall|i: int|
            0 <= i < self.tests@.len() ==> test_names_unique(#[trigger] self.tests@[i].1.0@)
    }

    /// Assemble a configuration snapshot from the five parsed catalogs,
    /// refusing one with colliding keys or colliding test names.
    pub fn new(
        apparatuses: ApparatusMap,
        dependencies: DependencyMap,
        devices: DeviceMap,
        device_types: DeviceTypeMap,
        tests: TestMap,
    ) -> (r: Result<Config, ConfigError>)
        ensures
            r is Ok <==> (keys_unique(apparatuses@) && keys_unique(dependencies@) && keys_unique(
                devices@,
            ) && keys_unique(device_types@) && keys_unique(tests@) && (forall|i: int|
                0 <= i < tests@.len() ==> test_names_unique(#[trigger] tests@[i].1.0@))),
            r is Ok ==> {
                let c = r->Ok_0;
                c.apparatuses == apparatuses && c.dependencies == dependencies && c.devices
                    == devices && c.device_types == device_types && c.tests == tests && c.wf()
            },
            !keys_unique(apparatuses@) ==> r == Err::<Config, ConfigError>(
                ConfigError::DuplicateApparatus,
            ),
            keys_unique(apparatuses@) && !keys_unique(dependencies@) ==> r == Err::<
                Config,
                ConfigError,
            >(ConfigError::DuplicateDependency),
            keys_unique(apparatuses@) && keys_unique(dependencies@) && !keys_unique(devices@)
                ==> r == Err::<Config, ConfigError>(ConfigError::DuplicateDevice),
            keys_unique(apparatuses@) && keys_unique(dependencies@) && keys_unique(devices@)
                && !keys_unique(device_types@) ==> r == Err::<Config, ConfigError>(
                ConfigError::DuplicateDeviceType,
            ),
            keys_unique(apparatuses@) && keys_unique(dependencies@) && keys_unique(devices@)
                && keys_unique(device_types@) && !keys_unique(tests@) ==> r == Err::<
                Config,
                ConfigError,
            >(ConfigError::DuplicateTestGroup),
    {
        if !apparatuses.check_unique() {
            return Err(ConfigError::DuplicateApparatus);
        }
        if !dependencies.check_unique() {
            return Err(ConfigError::DuplicateDependency);
        }
        if !devices.check_unique() {
            return Err(ConfigError::DuplicateDevice);
        }
        if !device_types.check_unique() {
            return Err(ConfigError::DuplicateDeviceType);
        }
        if !tests.check_unique() {
            return Err(ConfigError::DuplicateTestGroup);
        }
        let mut i: usize = 0;
        let n = tests.len();
        while i < n
            invariant
                n == tests@.len(),
                i <= n,
                keys_unique(apparatuses@),
                keys_unique(dependencies@),
                keys_unique(devices@),
                keys_unique(device_types@),
                keys_unique(tests@),
                forall|j: int| 0 <= j < i ==> test_names_unique(#[trigger] tests@[j].1.0@),
            decreases n - i,
        {
            let group = tests.entry_at(i);
            if group.1.validate().is_err() {
                return Err(ConfigError::DuplicateTestName);
            }
            i = i + 1;
        }
        Ok(Config { apparatuses, dependencies, devices, device_types, tests })
    }
}

impl Default for Config {
    /// An empty configuration snapshot; trivially well-formed.
    fn default() -> (r: Self)
        ensures
            r.apparatuses@.len() == 0,
            r.dependencies@.len() == 0,
            r.devices@.len() == 0,
            r.device_types@.len() == 0,
            r.tests@.len() == 0,
            r.wf(),
    {
        Config {
            apparatuses: ApparatusMap::new(),
            dependencies: DependencyMap::new(),
            devices: DeviceMap::new(),
            device_types: DeviceTypeMap::new(),
            tests: TestMap::new(),
        }
    }
}

} // verus!
