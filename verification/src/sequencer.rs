//! The ordered startup of the device manager, as a state machine.
//!
//! The machine never performs outside work itself. It tells the host what to
//! do next, an [`Action`], and the host reports what came of it, an
//! [`Event`]. Every step either advances the startup or aborts it; nothing is
//! tried twice.

use vstd::prelude::*;
use crate::credentials::{
    cached_secret, credential_cache_path, credential_step, pairing_error, CacheState, CredentialStepView,
};
use crate::error::{DeviceManagerError, DeviceManagerErrorView};
use crate::identity::{hardware_identity, identity_step, reply_view, IdentityStepView};
use crate::json::json_string_text;
use crate::options::{DeviceManagerOptionsView, TelemetryInterfaceConfig, TelemetryInterfaceConfigView};

verus! {

/// The capacity of the update queue and of the telemetry queue.
pub const QUEUE_CAPACITY: usize = 32;

/// The milestones of startup, in the order in which they are reached.
#[derive(Debug, Clone, Copy, PartialEq, Eq)]
pub enum Stage {
    Unresolved,
    IdentityResolved,
    CredentialResolved,
    TransportOpen,
    PendingOperationResumed,
    WorkersSpawned,
    InitialTelemetrySent,
    Running,
    /// Startup was abandoned.
    Aborted,
}

impl Stage {
    /// The place of a milestone in the order of startup.
    pub open spec fn rank(self) -> nat {
        match self {
            Stage::Unresolved => 0,
            Stage::IdentityResolved => 1,
            Stage::CredentialResolved => 2,
            Stage::TransportOpen => 3,
            Stage::PendingOperationResumed => 4,
            Stage::WorkersSpawned => 5,
            Stage::InitialTelemetrySent => 6,
            Stage::Running => 7,
            Stage::Aborted => 8,
        }
    }
}

/// What the host reports back.
#[derive(Debug, PartialEq, Eq)]
pub enum Event {
    /// The reply of the system bus to the query for the hardware identifier,
    /// or the text of the failure.
    HardwareId(Result<String, String>),
    /// Whether the cache file exists.
    CacheProbed(bool),
    /// The content of the cache file, or the text of the failure.
    CacheRead(Result<Vec<u8>, String>),
    /// The secret that the pairing endpoint issued, or the text of the
    /// failure.
    Registered(Result<String, String>),
    CacheWritten(Result<(), String>),
    TransportOpened(Result<(), String>),
    PendingUpdateResumed(Result<(), String>),
    WorkersSpawned,
    InitialTelemetrySent(Result<(), String>),
}

/// The mathematical value of an [`Event`].
pub enum EventView {
    HardwareId(Result<Seq<char>, Seq<char>>),
    CacheProbed(bool),
    CacheRead(Result<Seq<u8>, Seq<char>>),
    Registered(Result<Seq<char>, Seq<char>>),
    CacheWritten(Result<(), Seq<char>>),
    TransportOpened(Result<(), Seq<char>>),
    PendingUpdateResumed(Result<(), Seq<char>>),
    WorkersSpawned,
    InitialTelemetrySent(Result<(), Seq<char>>),
}

/// The mathematical value of an outcome without a result.
pub open spec fn outcome_view(outcome: Result<(), String>) -> Result<(), Seq<char>> {
    match outcome {
        Ok(_) => Ok(()),
        Err(cause) => Err(cause@),
    }
}

/// The mathematical value of what was read from a file.
pub open spec fn content_view(read: Result<Vec<u8>, String>) -> Result<Seq<u8>, Seq<char>> {
    match read {
        Ok(content) => Ok(content@),
        Err(cause) => Err(cause@),
    }
}

impl View for Event {
    type V = EventView;

    open spec fn view(&self) -> EventView {
        match self {
            Event::HardwareId(reply) => EventView::HardwareId(reply_view(*reply)),
            Event::CacheProbed(exists) => EventView::CacheProbed(*exists),
            Event::CacheRead(read) => EventView::CacheRead(content_view(*read)),
            Event::Registered(reply) => EventView::Registered(reply_view(*reply)),
            Event::CacheWritten(outcome) => EventView::CacheWritten(outcome_view(*outcome)),
            Event::TransportOpened(outcome) => EventView::TransportOpened(outcome_view(*outcome)),
            Event::PendingUpdateResumed(outcome) => EventView::PendingUpdateResumed(outcome_view(*outcome)),
            Event::WorkersSpawned => EventView::WorkersSpawned,
            Event::InitialTelemetrySent(outcome) => EventView::InitialTelemetrySent(outcome_view(*outcome)),
        }
    }
}

/// What the host has to do next.
#[derive(Debug, Clone, PartialEq, Eq)]
pub enum Action {
    /// Ask the system bus for the hardware identifier.
    QueryHardwareId,
    /// Look whether the cache file exists.
    ProbeCredentialCache { path: String },
    /// Read the cache file.
    ReadCredentialCache { path: String },
    /// Register the device with the pairing endpoint.
    RegisterDevice { token: String, pairing_url: String, realm: String, device_id: String },
    /// Write the cache file, over an older one if there is one.
    WriteCredentialCache { path: String, content: Vec<u8> },
    /// Open the transport session.
    OpenTransport {
        realm: String,
        device_id: String,
        credentials_secret: String,
        pairing_url: String,
        interfaces_directory: String,
    },
    /// Let the update subsystem report the outcome of an update that an
    /// earlier run left pending.
    ResumePendingUpdate { state_file: String, download_directory: String },
    /// Create the update queue and the telemetry queue, each of the given
    /// capacity, and start the update worker and the telemetry publisher.
    SpawnWorkers { queue_capacity: usize, telemetry_config: Vec<TelemetryInterfaceConfig> },
    /// The manager is built; `init` comes next.
    Constructed,
    /// Collect the inventories and publish the initial telemetry.
    SendInitialTelemetry,
    /// The initial telemetry is out; `run` comes next.
    Initialized,
    /// Start the periodic sampling and enter the receive loop.
    EnterReceiveLoop,
    /// Give up, and report the error.
    Abort(DeviceManagerError),
}

/// The mathematical value of an [`Action`].
pub enum ActionView {
    QueryHardwareId,
    ProbeCredentialCache { path: Seq<char> },
    ReadCredentialCache { path: Seq<char> },
    RegisterDevice { token: Seq<char>, pairing_url: Seq<char>, realm: Seq<char>, device_id: Seq<char> },
    WriteCredentialCache { path: Seq<char>, content: Seq<u8> },
    OpenTransport {
        realm: Seq<char>,
        device_id: Seq<char>,
        credentials_secret: Seq<char>,
        pairing_url: Seq<char>,
        interfaces_directory: Seq<char>,
    },
    ResumePendingUpdate { state_file: Seq<char>, download_directory: Seq<char> },
    SpawnWorkers { queue_capacity: usize, telemetry_config: Seq<TelemetryInterfaceConfigView> },
    Constructed,
    SendInitialTelemetry,
    Initialized,
    EnterReceiveLoop,
    Abort(DeviceManagerErrorView),
}

impl View for Action {
    type V = ActionView;

    open spec fn view(&self) -> ActionView {
        match self {
            Action::QueryHardwareId => ActionView::QueryHardwareId,
            Action::ProbeCredentialCache { path } => ActionView::ProbeCredentialCache { path: path@ },
            Action::ReadCredentialCache { path } => ActionView::ReadCredentialCache { path: path@ },
            Action::RegisterDevice { token, pairing_url, realm, device_id } => ActionView::RegisterDevice {
                token: token@,
                pairing_url: pairing_url@,
                realm: realm@,
                device_id: device_id@,
            },
            Action::WriteCredentialCache { path, content } => ActionView::WriteCredentialCache {
                path: path@,
                content: content@,
            },
            Action::OpenTransport {
                realm,
                device_id,
                credentials_secret,
                pairing_url,
                interfaces_directory,
            } => ActionView::OpenTransport {
                realm: realm@,
                device_id: device_id@,
                credentials_secret: credentials_secret@,
                pairing_url: pairing_url@,
                interfaces_directory: interfaces_directory@,
            },
            Action::ResumePendingUpdate { state_file, download_directory } => ActionView::ResumePendingUpdate {
                state_file: state_file@,
                download_directory: download_directory@,
            },
            Action::SpawnWorkers { queue_capacity, telemetry_config } => ActionView::SpawnWorkers {
                queue_capacity: *queue_capacity,
                telemetry_config: telemetry_config.deep_view(),
            },
            Action::Constructed => ActionView::Constructed,
            Action::SendInitialTelemetry => ActionView::SendInitialTelemetry,
            Action::Initialized => ActionView::Initialized,
            Action::EnterReceiveLoop => ActionView::EnterReceiveLoop,
            Action::Abort(e) => ActionView::Abort(e@),
        }
    }
}

impl Action {
    /// The status that the host announces to its supervisor when it takes
    /// up the action, if there is one.
    pub fn status(&self) -> (status: Option<&'static str>)
        ensures
            status.deep_view() == self@.status(),
    {
        match self {
            Action::OpenTransport { .. } => Some("Initializing"),
            Action::SendInitialTelemetry => Some("Sending initial telemetry"),
            Action::EnterReceiveLoop => Some("Running"),
            _ => None,
        }
    }
}

impl ActionView {
    /// The action touches the credential cache file.
    pub open spec fn is_file_access(self) -> bool {
        self is ProbeCredentialCache || self is ReadCredentialCache || self is WriteCredentialCache
    }

    /// The status that the host announces to its supervisor when it takes
    /// up the action. Announcing is best effort: no event reports on it, so
    /// a missing supervisor cannot hold startup back.
    pub open spec fn status(self) -> Option<Seq<char>> {
        match self {
            ActionView::OpenTransport { .. } => Some("Initializing"@),
            ActionView::SendInitialTelemetry => Some("Sending initial telemetry"@),
            ActionView::EnterReceiveLoop => Some("Running"@),
            _ => None,
        }
    }
}

/// What the machine waits for.
#[derive(Debug, Clone, PartialEq, Eq)]
pub enum State {
    AwaitingHardwareId,
    AwaitingCacheProbe { device_id: String },
    AwaitingCacheRead { device_id: String },
    AwaitingRegistration { device_id: String },
    AwaitingCacheWrite { device_id: String, credentials_secret: String },
    AwaitingTransport,
    AwaitingPendingUpdate,
    AwaitingWorkers,
    /// Waiting for `init`.
    Constructed,
    AwaitingInitialTelemetry,
    /// Waiting for `run`.
    Initialized,
    Running,
    Aborted,
}

/// The mathematical value of a [`State`].
pub enum StateView {
    AwaitingHardwareId,
    AwaitingCacheProbe { device_id: Seq<char> },
    AwaitingCacheRead { device_id: Seq<char> },
    AwaitingRegistration { device_id: Seq<char> },
    AwaitingCacheWrite { device_id: Seq<char>, credentials_secret: Seq<char> },
    AwaitingTransport,
    AwaitingPendingUpdate,
    AwaitingWorkers,
    Constructed,
    AwaitingInitialTelemetry,
    Initialized,
    Running,
    Aborted,
}

impl View for State {
    type V = StateView;

    open spec fn view(&self) -> StateView {
        match self {
            State::AwaitingHardwareId => StateView::AwaitingHardwareId,
            State::AwaitingCacheProbe { device_id } => StateView::AwaitingCacheProbe { device_id: device_id@ },
            State::AwaitingCacheRead { device_id } => StateView::AwaitingCacheRead { device_id: device_id@ },
            State::AwaitingRegistration { device_id } => StateView::AwaitingRegistration { device_id: device_id@ },
            State::AwaitingCacheWrite { device_id, credentials_secret } => StateView::AwaitingCacheWrite {
                device_id: device_id@,
                credentials_secret: credentials_secret@,
            },
            State::AwaitingTransport => StateView::AwaitingTransport,
            State::AwaitingPendingUpdate => StateView::AwaitingPendingUpdate,
            State::AwaitingWorkers => StateView::AwaitingWorkers,
            State::Constructed => StateView::Constructed,
            State::AwaitingInitialTelemetry => StateView::AwaitingInitialTelemetry,
            State::Initialized => StateView::Initialized,
            State::Running => StateView::Running,
            State::Aborted => StateView::Aborted,
        }
    }
}

impl StateView {
    /// The last milestone that startup has reached.
    pub open spec fn stage(self) -> Stage {
        match self {
            StateView::AwaitingHardwareId => Stage::Unresolved,
            StateView::AwaitingCacheProbe { .. } => Stage::IdentityResolved,
            StateView::AwaitingCacheRead { .. } => Stage::IdentityResolved,
            StateView::AwaitingRegistration { .. } => Stage::IdentityResolved,
            StateView::AwaitingCacheWrite { .. } => Stage::IdentityResolved,
            StateView::AwaitingTransport => Stage::CredentialResolved,
            StateView::AwaitingPendingUpdate => Stage::TransportOpen,
            StateView::AwaitingWorkers => Stage::PendingOperationResumed,
            StateView::Constructed => Stage::WorkersSpawned,
            StateView::AwaitingInitialTelemetry => Stage::WorkersSpawned,
            StateView::Initialized => Stage::InitialTelemetrySent,
            StateView::Running => Stage::Running,
            StateView::Aborted => Stage::Aborted,
        }
    }
}

/// The text of the error for an event or a call that the machine does not
/// wait for.
pub open spec fn unexpected_event() -> Seq<char> {
    "Unexpected event"@
}

/// Startup is abandoned with an error.
pub open spec fn abort(e: DeviceManagerErrorView) -> (StateView, ActionView) {
    (StateView::Aborted, ActionView::Abort(e))
}

/// Identity and secret are known: the transport is opened with them.
pub open spec fn open_transport(opts: DeviceManagerOptionsView, device_id: Seq<char>, secret: Seq<char>) -> (
    StateView,
    ActionView,
) {
    (
        StateView::AwaitingTransport,
        ActionView::OpenTransport {
            realm: opts.realm,
            device_id,
            credentials_secret: secret,
            pairing_url: opts.pairing_url,
            interfaces_directory: opts.interfaces_directory,
        },
    )
}

/// The identity is known: the next step of credential resolution is taken.
pub open spec fn resolve_credentials(opts: DeviceManagerOptionsView, device_id: Seq<char>, cache: CacheState) -> (
    StateView,
    ActionView,
) {
    match credential_step(device_id, opts, cache) {
        Ok(CredentialStepView::Resolved(secret)) => open_transport(opts, device_id, secret),
        Ok(CredentialStepView::ProbeCache { path }) => (
            StateView::AwaitingCacheProbe { device_id },
            ActionView::ProbeCredentialCache { path },
        ),
        Ok(CredentialStepView::ReadCache { path }) => (
            StateView::AwaitingCacheRead { device_id },
            ActionView::ReadCredentialCache { path },
        ),
        Ok(CredentialStepView::Register { token, pairing_url, realm, device_id: registered }) => (
            StateView::AwaitingRegistration { device_id },
            ActionView::RegisterDevice { token, pairing_url, realm, device_id: registered },
        ),
        Err(e) => abort(e),
    }
}

/// The first step of startup.
pub open spec fn start(opts: DeviceManagerOptionsView) -> (StateView, ActionView) {
    match identity_step(opts.device_id) {
        IdentityStepView::Resolved(device_id) => resolve_credentials(opts, device_id, CacheState::Unknown),
        IdentityStepView::QueryHardwareId => (StateView::AwaitingHardwareId, ActionView::QueryHardwareId),
    }
}

/// What the machine makes of an event: the state it goes to and the action
/// it asks for. An event that the state does not wait for aborts startup.
pub open spec fn transition(opts: DeviceManagerOptionsView, state: StateView, event: EventView) -> (
    StateView,
    ActionView,
) {
    match (state, event) {
        (StateView::AwaitingHardwareId, EventView::HardwareId(reply)) => match hardware_identity(reply) {
            Ok(device_id) => resolve_credentials(opts, device_id, CacheState::Unknown),
            Err(e) => abort(e),
        },
        (StateView::AwaitingCacheProbe { device_id }, EventView::CacheProbed(exists)) => resolve_credentials(
            opts,
            device_id,
            if exists {
                CacheState::Present
            } else {
                CacheState::Absent
            },
        ),
        (StateView::AwaitingCacheRead { device_id }, EventView::CacheRead(Ok(content))) => match cached_secret(
            content,
        ) {
            Ok(secret) => open_transport(opts, device_id, secret),
            Err(e) => abort(e),
        },
        (StateView::AwaitingCacheRead { .. }, EventView::CacheRead(Err(cause))) => abort(
            DeviceManagerErrorView::IOError(cause),
        ),
        (StateView::AwaitingRegistration { device_id }, EventView::Registered(Ok(secret))) => (
            StateView::AwaitingCacheWrite { device_id, credentials_secret: secret },
            ActionView::WriteCredentialCache {
                path: credential_cache_path(device_id),
                content: json_string_text(secret),
            },
        ),
        (StateView::AwaitingRegistration { .. }, EventView::Registered(Err(_))) => abort(
            DeviceManagerErrorView::FatalError(pairing_error()),
        ),
        (StateView::AwaitingCacheWrite { device_id, credentials_secret }, EventView::CacheWritten(Ok(_))) =>
            open_transport(opts, device_id, credentials_secret),
        (StateView::AwaitingCacheWrite { .. }, EventView::CacheWritten(Err(cause))) => abort(
            DeviceManagerErrorView::IOError(cause),
        ),
        (StateView::AwaitingTransport, EventView::TransportOpened(Ok(_))) => (
            StateView::AwaitingPendingUpdate,
            ActionView::ResumePendingUpdate {
                state_file: opts.state_file,
                download_directory: opts.download_directory,
            },
        ),
        (StateView::AwaitingTransport, EventView::TransportOpened(Err(cause))) => abort(
            DeviceManagerErrorView::TransportError(cause),
        ),
        (StateView::AwaitingPendingUpdate, EventView::PendingUpdateResumed(Ok(_))) => (
            StateView::AwaitingWorkers,
            ActionView::SpawnWorkers { queue_capacity: QUEUE_CAPACITY, telemetry_config: opts.telemetry_config },
        ),
        (StateView::AwaitingPendingUpdate, EventView::PendingUpdateResumed(Err(cause))) => abort(
            DeviceManagerErrorView::UpdateError(cause),
        ),
        (StateView::AwaitingWorkers, EventView::WorkersSpawned) => (StateView::Constructed, ActionView::Constructed),
        (StateView::AwaitingInitialTelemetry, EventView::InitialTelemetrySent(Ok(_))) => (
            StateView::Initialized,
            ActionView::Initialized,
        ),
        (StateView::AwaitingInitialTelemetry, EventView::InitialTelemetrySent(Err(cause))) => abort(
            DeviceManagerErrorView::TransportError(cause),
        ),
        _ => abort(DeviceManagerErrorView::FatalError(unexpected_event())),
    }
}

/// What `init` makes of a state: it starts the initial telemetry of a
/// manager that is built, and aborts any other.
pub open spec fn init_transition(state: StateView) -> (StateView, ActionView) {
    match state {
        StateView::Constructed => (StateView::AwaitingInitialTelemetry, ActionView::SendInitialTelemetry),
        _ => abort(DeviceManagerErrorView::FatalError(unexpected_event())),
    }
}

/// What `run` makes of a state: it enters the receive loop where the initial
/// telemetry is out, and aborts otherwise.
pub open spec fn run_transition(state: StateView) -> (StateView, ActionView) {
    match state {
        StateView::Initialized => (StateView::Running, ActionView::EnterReceiveLoop),
        _ => abort(DeviceManagerErrorView::FatalError(unexpected_event())),
    }
}

} // verus!
