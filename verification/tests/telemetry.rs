use edgehog_device_runtime::telemetry::{
    initial_telemetry_plan, telemetry_publish, Publish, TelemetryPayload, HARDWARE_INFO_INTERFACE,
    OS_INFO_INTERFACE, RUNTIME_INFO_INTERFACE, SYSTEM_STATUS_INTERFACE, SYSTEM_STATUS_PATH,
};

fn field(path: &str, value: &str) -> (String, String) {
    (path.to_string(), value.to_string())
}

fn publish(interface: &str, path: &str, value: &str) -> Publish<String> {
    Publish {
        interface: interface.to_string(),
        path: path.to_string(),
        data: value.to_string(),
    }
}

#[test]
fn publish_targets_are_the_platform_s() {
    assert_eq!(SYSTEM_STATUS_INTERFACE, "io.edgehog.devicemanager.SystemStatus");
    assert_eq!(SYSTEM_STATUS_PATH, "/systemStatus");
    assert_eq!(OS_INFO_INTERFACE, "io.edgehog.devicemanager.OSInfo");
    assert_eq!(HARDWARE_INFO_INTERFACE, "io.edgehog.devicemanager.HardwareInfo");
    assert_eq!(RUNTIME_INFO_INTERFACE, "io.edgehog.devicemanager.RuntimeInfo");
}

#[test]
fn system_status_is_published_at_its_fixed_place() {
    assert_eq!(
        telemetry_publish(TelemetryPayload::SystemStatus(42u64)),
        Publish {
            interface: "io.edgehog.devicemanager.SystemStatus".to_string(),
            path: "/systemStatus".to_string(),
            data: 42u64,
        }
    );
}

#[test]
fn initial_telemetry_covers_the_three_inventories_in_order() {
    let plan = initial_telemetry_plan(
        vec![field("/osName", "Linux"), field("/osVersion", "6.1")],
        vec![field("/cpu/architecture", "aarch64")],
        vec![
            field("/name", "runtime"),
            field("/version", "0.1.0"),
            field("/environment", "rust"),
        ],
    );
    assert_eq!(
        plan,
        vec![
            publish("io.edgehog.devicemanager.OSInfo", "/osName", "Linux"),
            publish("io.edgehog.devicemanager.OSInfo", "/osVersion", "6.1"),
            publish("io.edgehog.devicemanager.HardwareInfo", "/cpu/architecture", "aarch64"),
            publish("io.edgehog.devicemanager.RuntimeInfo", "/name", "runtime"),
            publish("io.edgehog.devicemanager.RuntimeInfo", "/version", "0.1.0"),
            publish("io.edgehog.devicemanager.RuntimeInfo", "/environment", "rust"),
        ]
    );
}

#[test]
fn empty_inventories_publish_nothing() {
    let none: Vec<(String, String)> = vec![];
    assert_eq!(
        initial_telemetry_plan(none.clone(), none.clone(), none.clone()),
        vec![]
    );
    assert_eq!(
        initial_telemetry_plan(none.clone(), vec![field("/a", "b")], none),
        vec![publish("io.edgehog.devicemanager.HardwareInfo", "/a", "b")]
    );
}
