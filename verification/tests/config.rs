//! Assembling and validating a configuration snapshot.

use orchestrator::catalog::NamedMap;
use orchestrator::config::apparatuses::Apparatus;
use orchestrator::config::dependencies::DependencySpecification;
use orchestrator::config::device_types::DeviceClassification;
use orchestrator::config::device_types::DeviceType;
use orchestrator::config::device_types::DockerSpec;
use orchestrator::config::devices::Device;
use orchestrator::config::tests::TestGroup;
use orchestrator::config::tests::TestSpecification;
use orchestrator::config::Config;
use orchestrator::config::ConfigError;

fn apparatus(exclusive: bool) -> Apparatus {
    Apparatus {
        is_exclusively_locked: exclusive,
        peripherals: vec![],
        wrapped_apparatuses: vec![],
    }
}

fn test_spec(name: &str, apparatus: &str, deps: Vec<(&str, &str)>) -> TestSpecification {
    let mut dependencies = NamedMap::new();
    for (dep, constraint) in deps {
        dependencies.insert(dep, constraint.to_string());
    }
    TestSpecification {
        name: name.to_string(),
        dependencies,
        excluded_device_types: vec![],
        apparatus: apparatus.to_string(),
        robot_config: "robot.json".to_string(),
        remote_test_script: None,
        on_device_test_script: Some("./run-test.sh".to_string()),
    }
}

fn example_catalogs() -> (
    NamedMap<Apparatus>,
    NamedMap<DependencySpecification>,
    NamedMap<Device>,
    NamedMap<DeviceType>,
    NamedMap<TestGroup>,
) {
    let mut apparatuses = NamedMap::new();
    apparatuses.insert("app1", apparatus(true));
    apparatuses.insert("app2", apparatus(true));
    apparatuses.insert("camera-rig", apparatus(false));
    apparatuses.insert("power-switch", apparatus(false));

    let mut dependencies = NamedMap::new();
    dependencies.insert(
        "viam_server_appimage",
        DependencySpecification {
            url: "https://github.com/viamrobotics/rdk".to_string(),
            build_on: "docker".to_string(),
            build_script: "./build.sh".to_string(),
            install_script: "./install.sh".to_string(),
        },
    );

    let mut devices = NamedMap::new();
    devices.insert(
        "dev1",
        Device {
            device_type: "linux".to_string(),
            login_username: "test".to_string(),
            connected_apparatuses: vec!["app1".to_string()],
        },
    );
    devices.insert(
        "dev2",
        Device {
            device_type: "linux".to_string(),
            login_username: "test".to_string(),
            connected_apparatuses: vec!["app1".to_string(), "app2".to_string()],
        },
    );

    let mut device_types = NamedMap::new();
    device_types.insert(
        "docker",
        DeviceType {
            architecture: "x86_64".to_string(),
            os: "linux".to_string(),
            classification: DeviceClassification::Docker(DockerSpec {
                image: "ubuntu".to_string(),
                htp_root: "/htp".to_string(),
            }),
        },
    );
    device_types.insert(
        "linux",
        DeviceType {
            architecture: "x86_64".to_string(),
            os: "linux".to_string(),
            classification: DeviceClassification::Real,
        },
    );
    device_types.insert(
        "rpi",
        DeviceType {
            architecture: "aarch64".to_string(),
            os: "linux".to_string(),
            classification: DeviceClassification::Real,
        },
    );

    let mut tests = NamedMap::new();
    tests.insert(
        "general",
        TestGroup(vec![
            test_spec("simpleconn", "app1", vec![("viam_server_appimage", "*")]),
            test_spec("motor-spin", "app2", vec![]),
        ]),
    );

    (apparatuses, dependencies, devices, device_types, tests)
}

#[test]
fn test_parse() {
    let (apparatuses, dependencies, devices, device_types, tests) = example_catalogs();
    let config = Config::new(apparatuses, dependencies, devices, device_types, tests);
    assert!(config.is_ok());
}

#[test]
fn duplicate_test_names_are_refused() {
    let (apparatuses, dependencies, devices, device_types, mut tests) = example_catalogs();
    tests.insert(
        "broken",
        TestGroup(vec![
            test_spec("same", "app1", vec![]),
            test_spec("same", "app2", vec![]),
        ]),
    );
    let config = Config::new(apparatuses, dependencies, devices, device_types, tests);
    assert_eq!(config.err(), Some(ConfigError::DuplicateTestName));
}

#[test]
fn group_validate_and_get_test() {
    let group = TestGroup(vec![
        test_spec("a", "app1", vec![]),
        test_spec("b", "app1", vec![]),
    ]);
    assert!(group.validate().is_ok());
    assert_eq!(group.get_test("b").map(|t| t.name.as_str()), Some("b"));
    assert!(group.get_test("c").is_none());

    let duplicated = TestGroup(vec![
        test_spec("a", "app1", vec![]),
        test_spec("a", "app2", vec![]),
    ]);
    // The error names the first test whose name repeats an earlier one.
    assert_eq!(duplicated.validate().err().map(|e| e.0), Some("a".to_string()));
}

#[test]
fn named_map_lookup_and_replace() {
    let mut map: NamedMap<u32> = NamedMap::new();
    assert_eq!(map.len(), 0);
    map.insert("one", 1);
    map.insert("two", 2);
    assert_eq!(map.len(), 2);
    assert_eq!(map.get("one"), Some(&1));
    assert_eq!(map.get("three"), None);
    assert!(map.contains_key("two"));
    map.insert("two", 22);
    assert_eq!(map.len(), 2);
    assert_eq!(map.get("two"), Some(&22));
    assert!(map.check_unique());
}
