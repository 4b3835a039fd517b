use edgehog_device_runtime::manager::DeviceManager;
use edgehog_device_runtime::sequencer::{Action, Event, Stage, QUEUE_CAPACITY};
use edgehog_device_runtime::telemetry::Publish;
use edgehog_device_runtime::{DeviceManagerError, DeviceManagerOptions, TelemetryInterfaceConfig};

fn options(device_id: Option<&str>, secret: Option<&str>, token: Option<&str>) -> DeviceManagerOptions {
    DeviceManagerOptions {
        realm: "test".to_string(),
        device_id: device_id.map(|s| s.to_string()),
        credentials_secret: secret.map(|s| s.to_string()),
        pairing_url: "https://api.example.com/pairing".to_string(),
        pairing_token: token.map(|s| s.to_string()),
        interfaces_directory: "/usr/share/interfaces".to_string(),
        state_file: "/var/lib/state.json".to_string(),
        download_directory: "/var/tmp".to_string(),
        telemetry_config: vec![
            TelemetryInterfaceConfig {
                interface_name: "io.edgehog.devicemanager.SystemStatus".to_string(),
                enabled: Some(true),
                period: Some(60),
            },
            TelemetryInterfaceConfig {
                interface_name: "io.edgehog.devicemanager.StorageUsage".to_string(),
                enabled: None,
                period: None,
            },
        ],
    }
}

fn open_transport(device_id: &str, secret: &str) -> Action {
    Action::OpenTransport {
        realm: "test".to_string(),
        device_id: device_id.to_string(),
        credentials_secret: secret.to_string(),
        pairing_url: "https://api.example.com/pairing".to_string(),
        interfaces_directory: "/usr/share/interfaces".to_string(),
    }
}

fn fatal(text: &str) -> Action {
    Action::Abort(DeviceManagerError::FatalError(text.to_string()))
}

fn touches_file_or_network(action: &Action) -> bool {
    matches!(
        action,
        Action::QueryHardwareId
            | Action::ProbeCredentialCache { .. }
            | Action::ReadCredentialCache { .. }
            | Action::WriteCredentialCache { .. }
            | Action::RegisterDevice { .. }
    )
}

/// Drives a manager whose transport is about to be opened up to the receive
/// loop, and returns the actions it asked for on the way.
fn finish_startup(manager: &mut DeviceManager) -> Vec<Action> {
    vec![
        manager.step(Event::TransportOpened(Ok(()))),
        manager.step(Event::PendingUpdateResumed(Ok(()))),
        manager.step(Event::WorkersSpawned),
        manager.init(),
        manager.step(Event::InitialTelemetrySent(Ok(()))),
        manager.run(),
    ]
}

#[test]
fn configured_identity_and_secret_reach_the_receive_loop_without_file_or_network() {
    let (mut manager, first) = DeviceManager::new(options(Some("dev-1"), Some("sek-1"), None));
    assert_eq!(first, open_transport("dev-1", "sek-1"));
    assert_eq!(manager.stage(), Stage::CredentialResolved);
    let rest = finish_startup(&mut manager);
    assert_eq!(
        rest,
        vec![
            Action::ResumePendingUpdate {
                state_file: "/var/lib/state.json".to_string(),
                download_directory: "/var/tmp".to_string(),
            },
            Action::SpawnWorkers {
                queue_capacity: 32,
                telemetry_config: options(None, None, None).telemetry_config,
            },
            Action::Constructed,
            Action::SendInitialTelemetry,
            Action::Initialized,
            Action::EnterReceiveLoop,
        ]
    );
    assert!(!touches_file_or_network(&first));
    assert!(rest.iter().all(|action| !touches_file_or_network(action)));
    assert_eq!(manager.stage(), Stage::Running);
}

#[test]
fn configured_secret_is_used_whatever_else_is_configured() {
    let (_, first) = DeviceManager::new(options(Some("dev-1"), Some("sek-1"), Some("token")));
    assert_eq!(first, open_transport("dev-1", "sek-1"));
}

#[test]
fn milestones_are_reached_one_after_the_other() {
    let (mut manager, _) = DeviceManager::new(options(None, None, None));
    assert_eq!(manager.stage(), Stage::Unresolved);
    manager.step(Event::HardwareId(Ok("hw-1".to_string())));
    assert_eq!(manager.stage(), Stage::IdentityResolved);
    manager.step(Event::CacheProbed(true));
    assert_eq!(manager.stage(), Stage::IdentityResolved);
    manager.step(Event::CacheRead(Ok(b"\"sek-1\"".to_vec())));
    assert_eq!(manager.stage(), Stage::CredentialResolved);
    manager.step(Event::TransportOpened(Ok(())));
    assert_eq!(manager.stage(), Stage::TransportOpen);
    manager.step(Event::PendingUpdateResumed(Ok(())));
    assert_eq!(manager.stage(), Stage::PendingOperationResumed);
    manager.step(Event::WorkersSpawned);
    assert_eq!(manager.stage(), Stage::WorkersSpawned);
    manager.init();
    assert_eq!(manager.stage(), Stage::WorkersSpawned);
    manager.step(Event::InitialTelemetrySent(Ok(())));
    assert_eq!(manager.stage(), Stage::InitialTelemetrySent);
    manager.run();
    assert_eq!(manager.stage(), Stage::Running);
}

#[test]
fn hardware_identity_and_cached_secret() {
    let (mut manager, first) = DeviceManager::new(options(None, None, Some("token")));
    assert_eq!(first, Action::QueryHardwareId);
    assert_eq!(
        manager.step(Event::HardwareId(Ok("hw-1".to_string()))),
        Action::ProbeCredentialCache {
            path: "./hw-1.json".to_string()
        }
    );
    assert_eq!(
        manager.step(Event::CacheProbed(true)),
        Action::ReadCredentialCache {
            path: "./hw-1.json".to_string()
        }
    );
    assert_eq!(
        manager.step(Event::CacheRead(Ok(b"\"cached\"".to_vec()))),
        open_transport("hw-1", "cached")
    );
}

#[test]
fn registration_caches_the_secret_before_the_transport_opens() {
    let (mut manager, first) = DeviceManager::new(options(Some("dev-1"), None, Some("token")));
    assert_eq!(
        first,
        Action::ProbeCredentialCache {
            path: "./dev-1.json".to_string()
        }
    );
    assert_eq!(
        manager.step(Event::CacheProbed(false)),
        Action::RegisterDevice {
            token: "token".to_string(),
            pairing_url: "https://api.example.com/pairing".to_string(),
            realm: "test".to_string(),
            device_id: "dev-1".to_string(),
        }
    );
    assert_eq!(
        manager.step(Event::Registered(Ok("issued".to_string()))),
        Action::WriteCredentialCache {
            path: "./dev-1.json".to_string(),
            content: b"\"issued\"".to_vec(),
        }
    );
    assert_eq!(manager.stage(), Stage::IdentityResolved);
    assert_eq!(
        manager.step(Event::CacheWritten(Ok(()))),
        open_transport("dev-1", "issued")
    );
}

#[test]
fn what_one_startup_caches_the_next_one_reads() {
    let (mut first_run, _) = DeviceManager::new(options(Some("dev-1"), None, Some("token")));
    first_run.step(Event::CacheProbed(false));
    let written = first_run.step(Event::Registered(Ok("is\"sued\\".to_string())));
    let (written_path, content) = match written {
        Action::WriteCredentialCache { path, content } => (path, content),
        other => panic!("{:?}", other),
    };
    let (mut second_run, probe) = DeviceManager::new(options(Some("dev-1"), None, None));
    assert_eq!(probe, Action::ProbeCredentialCache { path: written_path.clone() });
    assert_eq!(
        second_run.step(Event::CacheProbed(true)),
        Action::ReadCredentialCache { path: written_path }
    );
    assert_eq!(
        second_run.step(Event::CacheRead(Ok(content))),
        open_transport("dev-1", "is\"sued\\")
    );
}

#[test]
fn no_secret_no_cache_no_token_is_refused() {
    let (mut manager, _) = DeviceManager::new(options(Some("dev-1"), None, None));
    assert_eq!(
        manager.step(Event::CacheProbed(false)),
        fatal("Missing arguments")
    );
    assert_eq!(manager.stage(), Stage::Aborted);
}

#[test]
fn empty_hardware_id_aborts() {
    let (mut manager, _) = DeviceManager::new(options(None, Some("sek-1"), None));
    assert_eq!(
        manager.step(Event::HardwareId(Ok(String::new()))),
        fatal("No hardware id provided")
    );
    assert_eq!(manager.stage(), Stage::Aborted);
}

#[test]
fn failed_bus_call_aborts() {
    let (mut manager, _) = DeviceManager::new(options(None, Some("sek-1"), None));
    assert_eq!(
        manager.step(Event::HardwareId(Err("no bus".to_string()))),
        Action::Abort(DeviceManagerError::IdentityLookupError("no bus".to_string()))
    );
}

#[test]
fn corrupt_cache_aborts_and_does_not_fall_back_to_registration() {
    let (mut manager, _) = DeviceManager::new(options(Some("dev-1"), None, Some("token")));
    manager.step(Event::CacheProbed(true));
    assert_eq!(
        manager.step(Event::CacheRead(Ok(b"not json".to_vec()))),
        fatal("Unable to read secret")
    );
    assert_eq!(manager.stage(), Stage::Aborted);
}

#[test]
fn unreadable_cache_aborts() {
    let (mut manager, _) = DeviceManager::new(options(Some("dev-1"), None, Some("token")));
    manager.step(Event::CacheProbed(true));
    assert_eq!(
        manager.step(Event::CacheRead(Err("permission denied".to_string()))),
        Action::Abort(DeviceManagerError::IOError("permission denied".to_string()))
    );
}

#[test]
fn failed_registration_aborts() {
    let (mut manager, _) = DeviceManager::new(options(Some("dev-1"), None, Some("token")));
    manager.step(Event::CacheProbed(false));
    assert_eq!(
        manager.step(Event::Registered(Err("401".to_string()))),
        fatal("Pairing error")
    );
}

#[test]
fn unwritable_cache_aborts() {
    let (mut manager, _) = DeviceManager::new(options(Some("dev-1"), None, Some("token")));
    manager.step(Event::CacheProbed(false));
    manager.step(Event::Registered(Ok("issued".to_string())));
    assert_eq!(
        manager.step(Event::CacheWritten(Err("read-only file system".to_string()))),
        Action::Abort(DeviceManagerError::IOError("read-only file system".to_string()))
    );
}

#[test]
fn failed_transport_aborts() {
    let (mut manager, _) = DeviceManager::new(options(Some("dev-1"), Some("sek-1"), None));
    assert_eq!(
        manager.step(Event::TransportOpened(Err("connection refused".to_string()))),
        Action::Abort(DeviceManagerError::TransportError("connection refused".to_string()))
    );
    assert_eq!(manager.stage(), Stage::Aborted);
}

#[test]
fn failed_update_resume_aborts() {
    let (mut manager, _) = DeviceManager::new(options(Some("dev-1"), Some("sek-1"), None));
    manager.step(Event::TransportOpened(Ok(())));
    assert_eq!(
        manager.step(Event::PendingUpdateResumed(Err("state file is corrupt".to_string()))),
        Action::Abort(DeviceManagerError::UpdateError("state file is corrupt".to_string()))
    );
}

#[test]
fn failed_initial_telemetry_aborts() {
    let (mut manager, _) = DeviceManager::new(options(Some("dev-1"), Some("sek-1"), None));
    manager.step(Event::TransportOpened(Ok(())));
    manager.step(Event::PendingUpdateResumed(Ok(())));
    manager.step(Event::WorkersSpawned);
    manager.init();
    assert_eq!(
        manager.step(Event::InitialTelemetrySent(Err("publish failed".to_string()))),
        Action::Abort(DeviceManagerError::TransportError("publish failed".to_string()))
    );
    assert_eq!(manager.run(), fatal("Unexpected event"));
}

#[test]
fn event_out_of_turn_aborts() {
    let (mut manager, _) = DeviceManager::new(options(Some("dev-1"), Some("sek-1"), None));
    assert_eq!(manager.step(Event::WorkersSpawned), fatal("Unexpected event"));
    assert_eq!(manager.stage(), Stage::Aborted);
    assert_eq!(
        manager.step(Event::TransportOpened(Ok(()))),
        fatal("Unexpected event")
    );
    assert_eq!(manager.stage(), Stage::Aborted);
}

#[test]
fn init_and_run_out_of_turn_abort() {
    let (mut manager, _) = DeviceManager::new(options(Some("dev-1"), Some("sek-1"), None));
    assert_eq!(manager.init(), fatal("Unexpected event"));
    assert_eq!(manager.stage(), Stage::Aborted);

    let (mut manager, _) = DeviceManager::new(options(Some("dev-1"), Some("sek-1"), None));
    manager.step(Event::TransportOpened(Ok(())));
    manager.step(Event::PendingUpdateResumed(Ok(())));
    manager.step(Event::WorkersSpawned);
    assert_eq!(manager.run(), fatal("Unexpected event"));
    assert_eq!(manager.stage(), Stage::Aborted);
}

#[test]
fn status_is_announced_at_three_points() {
    let (mut manager, first) = DeviceManager::new(options(Some("dev-1"), Some("sek-1"), None));
    assert_eq!(first.status(), Some("Initializing"));
    let statuses: Vec<Option<&str>> = finish_startup(&mut manager)
        .iter()
        .map(|action| action.status())
        .collect();
    assert_eq!(
        statuses,
        vec![
            None,
            None,
            None,
            Some("Sending initial telemetry"),
            None,
            Some("Running"),
        ]
    );
    assert_eq!(Action::QueryHardwareId.status(), None);
    assert_eq!(fatal("Pairing error").status(), None);
}

#[test]
fn queues_hold_thirty_two_items() {
    assert_eq!(QUEUE_CAPACITY, 32);
}

#[test]
fn options_are_kept_as_given() {
    let (manager, _) = DeviceManager::new(options(Some("dev-1"), Some("sek-1"), Some("token")));
    assert_eq!(
        manager.options(),
        &options(Some("dev-1"), Some("sek-1"), Some("token"))
    );
    assert_eq!(
        manager.options().telemetry_schedule(),
        options(None, None, None).telemetry_config
    );
}

#[test]
fn manager_plans_the_initial_telemetry() {
    let (manager, _) = DeviceManager::new(options(Some("dev-1"), Some("sek-1"), None));
    let plan = manager.send_initial_telemetry(
        vec![("/osName".to_string(), 1u8)],
        vec![("/cpu/model".to_string(), 2u8)],
        vec![("/name".to_string(), 3u8)],
    );
    assert_eq!(
        plan,
        vec![
            Publish {
                interface: "io.edgehog.devicemanager.OSInfo".to_string(),
                path: "/osName".to_string(),
                data: 1u8,
            },
            Publish {
                interface: "io.edgehog.devicemanager.HardwareInfo".to_string(),
                path: "/cpu/model".to_string(),
                data: 2u8,
            },
            Publish {
                interface: "io.edgehog.devicemanager.RuntimeInfo".to_string(),
                path: "/name".to_string(),
                data: 3u8,
            },
        ]
    );
}
