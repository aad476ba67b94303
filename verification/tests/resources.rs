//! Behaviour of the per-test resource collection over a small catalog.

use orchestrator::config::apparatuses::Apparatus;
use orchestrator::config::devices::Device;
use orchestrator::config::Config;
use orchestrator::resources::ResourceCollection;

fn setup() -> ResourceCollection<'static> {
    let mut config = Config::default();
    config.devices.insert(
        "dev1",
        Device {
            device_type: "linux".to_string(),
            login_username: "test".to_string(),
            connected_apparatuses: vec!["app1".to_string()],
        },
    );
    config.devices.insert(
        "dev2",
        Device {
            device_type: "linux".to_string(),
            login_username: "test".to_string(),
            connected_apparatuses: vec!["app1".to_string(), "app2".to_string()],
        },
    );
    config.apparatuses.insert(
        "app1",
        Apparatus {
            is_exclusively_locked: true,
            peripherals: vec![],
            wrapped_apparatuses: vec![],
        },
    );
    config.apparatuses.insert(
        "app2",
        Apparatus {
            is_exclusively_locked: true,
            peripherals: vec![],
            wrapped_apparatuses: vec![],
        },
    );
    ResourceCollection::new(Box::leak(Box::new(config)))
}

#[test]
fn test_insert_device() {
    let mut rc = setup();
    assert!(rc.insert_device("dev1").is_ok());
    assert_eq!(rc.owns_device("dev1"), true);
}

#[test]
fn test_insert_device_already_owned() {
    let mut rc = setup();
    rc.insert_device("dev1").unwrap();
    assert!(rc.insert_device("dev1").is_err());
}

#[test]
fn test_insert_device_not_present() {
    let mut rc = setup();
    assert!(rc.insert_device("dev_invalid").is_err());
}

#[test]
fn test_insert_apparatus() {
    let mut rc = setup();
    assert!(rc.insert_apparatus("app1").is_ok());
    assert_eq!(rc.owns_apparatus("app1"), true);
}

#[test]
fn test_insert_apparatus_already_owned() {
    let mut rc = setup();
    rc.insert_apparatus("app1").unwrap();
    assert!(rc.insert_apparatus("app1").is_err());
}

#[test]
fn test_insert_apparatus_not_present() {
    let mut rc = setup();
    assert!(rc.insert_apparatus("app_invalid").is_err());
}

#[test]
fn test_take_device() {
    let mut rc = setup();
    rc.insert_device("dev1").unwrap();
    let device = rc.take_device("linux", "app1");
    assert_eq!(device, Some("dev1".to_string()));
    assert_eq!(rc.owns_device("dev1"), false);
}

#[test]
fn test_take_device_no_suitable_device() {
    let mut rc = setup();
    let device = rc.take_device("linux", "app_invalid");
    assert_eq!(device, None);
}

#[test]
fn test_take_apparatus() {
    let mut rc = setup();
    rc.insert_apparatus("app1").unwrap();
    let apparatus = rc.take_apparatus("app1");
    assert_eq!(apparatus, Some("app1".to_string()));
    assert_eq!(rc.owns_apparatus("app1"), false);
}

#[test]
fn test_take_apparatus_not_owned() {
    let mut rc = setup();
    let apparatus = rc.take_apparatus("app1");
    assert_eq!(apparatus, None);
}

#[test]
fn test_take_apparatus_not_present() {
    let mut rc = setup();
    let apparatus = rc.take_apparatus("app_invalid");
    assert_eq!(apparatus, None);
}

#[test]
fn shared_apparatus_survives_take() {
    let mut config = Config::default();
    config.apparatuses.insert(
        "hub",
        Apparatus {
            is_exclusively_locked: false,
            peripherals: vec![],
            wrapped_apparatuses: vec![],
        },
    );
    let mut rc = ResourceCollection::new(Box::leak(Box::new(config)));
    rc.insert_apparatus("hub").unwrap();
    // A second claim of a non-exclusive apparatus is a no-op, not an error.
    assert!(rc.insert_apparatus("hub").is_ok());
    assert_eq!(rc.take_apparatus("hub"), Some("hub".to_string()));
    // A shared apparatus stays claimed after being taken.
    assert_eq!(rc.owns_apparatus("hub"), true);
}
