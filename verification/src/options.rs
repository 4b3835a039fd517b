//! The configuration record that startup consumes.

use vstd::prelude::*;

verus! {

/// The schedule of one telemetry interface: whether it is sampled and how
/// often. A field left out keeps the built-in default.
#[derive(Debug, Clone, PartialEq, Eq)]
pub struct TelemetryInterfaceConfig {
    pub interface_name: String,
    pub enabled: Option<bool>,
    /// Seconds between two samples.
    pub period: Option<u64>,
}

/// The mathematical value of a [`TelemetryInterfaceConfig`].
pub struct TelemetryInterfaceConfigView {
    pub interface_name: Seq<char>,
    pub enabled: Option<bool>,
    pub period: Option<u64>,
}

impl View for TelemetryInterfaceConfig {
    type V = TelemetryInterfaceConfigView;

    open spec fn view(&self) -> TelemetryInterfaceConfigView {
        TelemetryInterfaceConfigView {
            interface_name: self.interface_name@,
            enabled: self.enabled,
            period: self.period,
        }
    }
}

impl DeepView for TelemetryInterfaceConfig {
    type V = TelemetryInterfaceConfigView;

    open spec fn deep_view(&self) -> TelemetryInterfaceConfigView {
        self@
    }
}

impl TelemetryInterfaceConfig {
    /// A copy of the entry.
    pub fn duplicate(&self) -> (copy: TelemetryInterfaceConfig)
        ensures
            copy@ == self@,
    {
        TelemetryInterfaceConfig {
            interface_name: self.interface_name.clone(),
            enabled: self.enabled,
            period: self.period,
        }
    }
}

/// The configuration of the device manager. It is loaded once and not
/// changed afterwards.
#[derive(Debug, Clone, PartialEq, Eq)]
pub struct DeviceManagerOptions {
    pub realm: String,
    /// The device's identifier; without it the hardware is asked.
    pub device_id: Option<String>,
    /// The secret that authenticates the transport session.
    pub credentials_secret: Option<String>,
    pub pairing_url: String,
    /// The token with which a device without a secret registers itself.
    pub pairing_token: Option<String>,
    pub interfaces_directory: String,
    pub state_file: String,
    pub download_directory: String,
    pub telemetry_config: Vec<TelemetryInterfaceConfig>,
}

/// The mathematical value of a [`DeviceManagerOptions`].
pub struct DeviceManagerOptionsView {
    pub realm: Seq<char>,
    pub device_id: Option<Seq<char>>,
    pub credentials_secret: Option<Seq<char>>,
    pub pairing_url: Seq<char>,
    pub pairing_token: Option<Seq<char>>,
    pub interfaces_directory: Seq<char>,
    pub state_file: Seq<char>,
    pub download_directory: Seq<char>,
    pub telemetry_config: Seq<TelemetryInterfaceConfigView>,
}

impl View for DeviceManagerOptions {
    type V = DeviceManagerOptionsView;

    open spec fn view(&self) -> DeviceManagerOptionsView {
        DeviceManagerOptionsView {
            realm: self.realm@,
            device_id: self.device_id.deep_view(),
            credentials_secret: self.credentials_secret.deep_view(),
            pairing_url: self.pairing_url@,
            pairing_token: self.pairing_token.deep_view(),
            interfaces_directory: self.interfaces_directory@,
            state_file: self.state_file@,
            download_directory: self.download_directory@,
            telemetry_config: self.telemetry_config.deep_view(),
        }
    }
}

impl DeviceManagerOptions {
    /// A copy of the telemetry schedule, entry by entry.
    pub fn telemetry_schedule(&self) -> (schedule: Vec<TelemetryInterfaceConfig>)
        ensures
            schedule.deep_view() == self@.telemetry_config,
    {
        let mut schedule: Vec<TelemetryInterfaceConfig> = Vec::new();
        let mut i: usize = 0;
        while i < self.telemetry_config.len()
            invariant
                i <= self.telemetry_config.len(),
                schedule.len() == i,
                forall|k: int| 0 <= k < i ==> schedule[k]@ == self.telemetry_config[k]@,
            decreases self.telemetry_config.len() - i,
        {
            schedule.push(self.telemetry_config[i].duplicate());
            i = i + 1;
        }
        assert(schedule.deep_view() =~= self.telemetry_config.deep_view());
        schedule
    }
}

} // verus!
