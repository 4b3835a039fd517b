//! The device manager: the startup machine together with the configuration
//! it was created from.

use vstd::prelude::*;
use crate::credentials::{
    cached_secret, get_credentials_secret, get_credentials_secret_from_persistence,
    get_credentials_secret_from_registration, CacheState, CacheWrite, CredentialStep,
};
use crate::error::{DeviceManagerError, DeviceManagerErrorView};
use crate::identity::{get_device_id, get_hardware_id_from_dbus, IdentityStep};
use crate::options::{DeviceManagerOptions, DeviceManagerOptionsView};
use crate::sequencer::{
    init_transition, open_transport, resolve_credentials, run_transition, start, transition, Action, ActionView,
    Event, Stage, State, StateView, QUEUE_CAPACITY,
};
use crate::telemetry::{initial_telemetry, initial_telemetry_plan, Publish};

verus! {

/// The device manager during and after startup.
///
/// It is created by [`DeviceManager::new`], which also says what the host
/// has to do first. The host reports the outcome of each action to
/// [`DeviceManager::step`] and gets the next one. Once the manager is built,
/// [`DeviceManager::init`] starts the initial telemetry, and once that is
/// out, [`DeviceManager::run`] opens the receive loop.
#[derive(Debug)]
pub struct DeviceManager {
    opts: DeviceManagerOptions,
    state: State,
}

/// The mathematical value of a [`DeviceManager`].
pub struct DeviceManagerView {
    pub opts: DeviceManagerOptionsView,
    pub state: StateView,
}

impl View for DeviceManager {
    type V = DeviceManagerView;

    closed spec fn view(&self) -> DeviceManagerView {
        DeviceManagerView { opts: self.opts@, state: self.state@ }
    }
}

/// Startup is abandoned with an error.
fn abort_with(e: DeviceManagerError) -> (next: (State, Action))
    ensures
        (next.0@, next.1@) == crate::sequencer::abort(e@),
{
    (State::Aborted, Action::Abort(e))
}

/// Startup is abandoned because the machine did not wait for what came.
fn abort_unexpected() -> (next: (State, Action))
    ensures
        (next.0@, next.1@) == crate::sequencer::abort(
            DeviceManagerErrorView::FatalError(crate::sequencer::unexpected_event()),
        ),
{
    abort_with(DeviceManagerError::FatalError("Unexpected event".to_string()))
}

/// Asks the host to open the transport.
fn open_transport_with(opts: &DeviceManagerOptions, device_id: String, secret: String) -> (next: (State, Action))
    ensures
        (next.0@, next.1@) == open_transport(opts@, device_id@, secret@),
{
    (
        State::AwaitingTransport,
        Action::OpenTransport {
            realm: opts.realm.clone(),
            device_id,
            credentials_secret: secret,
            pairing_url: opts.pairing_url.clone(),
            interfaces_directory: opts.interfaces_directory.clone(),
        },
    )
}

/// Takes the next step of credential resolution for a known identity.
fn resolve_credentials_with(opts: &DeviceManagerOptions, device_id: String, cache: CacheState) -> (next: (
    State,
    Action,
))
    ensures
        (next.0@, next.1@) == resolve_credentials(opts@, device_id@, cache),
{
    match get_credentials_secret(device_id.as_str(), opts, cache) {
        Ok(CredentialStep::Resolved(secret)) => open_transport_with(opts, device_id, secret),
        Ok(CredentialStep::ProbeCache { path }) => (
            State::AwaitingCacheProbe { device_id },
            Action::ProbeCredentialCache { path },
        ),
        Ok(CredentialStep::ReadCache { path }) => (
            State::AwaitingCacheRead { device_id },
            Action::ReadCredentialCache { path },
        ),
        Ok(CredentialStep::Register { token, pairing_url, realm, device_id: registered }) => (
            State::AwaitingRegistration { device_id },
            Action::RegisterDevice { token, pairing_url, realm, device_id: registered },
        ),
        Err(e) => abort_with(e),
    }
}

impl DeviceManager {
    /// Creates the manager and takes the first step of startup: with a
    /// configured identifier credential resolution begins at once, without
    /// one the host is sent to the system bus.
    pub fn new(opts: DeviceManagerOptions) -> (created: (DeviceManager, Action))
        ensures
            created.0@.opts == opts@,
            (created.0@.state, created.1@) == start(opts@),
    {
        let configured = match &opts.device_id {
            Some(device_id) => Some(device_id.clone()),
            None => None,
        };
        let (state, action) = match get_device_id(configured) {
            IdentityStep::Resolved(device_id) => resolve_credentials_with(&opts, device_id, CacheState::Unknown),
            IdentityStep::QueryHardwareId => (State::AwaitingHardwareId, Action::QueryHardwareId),
        };
        (DeviceManager { opts, state }, action)
    }

    /// Takes in what came of the last action and says what to do next.
    ///
    /// An event that the manager does not wait for aborts startup. Where the
    /// next action is to write the cache file, what is written reads back as
    /// the secret that the manager holds.
    pub fn step(&mut self, event: Event) -> (action: Action)
        ensures
            final(self)@.opts == old(self)@.opts,
            (final(self)@.state, action@) == transition(old(self)@.opts, old(self)@.state, event@),
            action@ matches ActionView::WriteCredentialCache { content, .. } ==> {
                &&& final(self)@.state matches StateView::AwaitingCacheWrite { credentials_secret, .. }
                &&& cached_secret(content) == Ok::<Seq<char>, DeviceManagerErrorView>(credentials_secret)
            },
    {
        let (state, action) = match (&self.state, event) {
            (State::AwaitingHardwareId, Event::HardwareId(reply)) => match get_hardware_id_from_dbus(reply) {
                Ok(device_id) => resolve_credentials_with(&self.opts, device_id, CacheState::Unknown),
                Err(e) => abort_with(e),
            },
            (State::AwaitingCacheProbe { device_id }, Event::CacheProbed(exists)) => resolve_credentials_with(
                &self.opts,
                device_id.clone(),
                if exists {
                    CacheState::Present
                } else {
                    CacheState::Absent
                },
            ),
            (State::AwaitingCacheRead { device_id }, Event::CacheRead(Ok(content))) => {
                match get_credentials_secret_from_persistence(content.as_slice()) {
                    Ok(secret) => open_transport_with(&self.opts, device_id.clone(), secret),
                    Err(e) => abort_with(e),
                }
            },
            (State::AwaitingCacheRead { .. }, Event::CacheRead(Err(cause))) => abort_with(
                DeviceManagerError::IOError(cause),
            ),
            (State::AwaitingRegistration { device_id }, Event::Registered(reply)) => {
                match get_credentials_secret_from_registration(device_id.as_str(), reply) {
                    Ok((secret, CacheWrite { path, content })) => (
                        State::AwaitingCacheWrite { device_id: device_id.clone(), credentials_secret: secret },
                        Action::WriteCredentialCache { path, content },
                    ),
                    Err(e) => abort_with(e),
                }
            },
            (State::AwaitingCacheWrite { device_id, credentials_secret }, Event::CacheWritten(Ok(_))) =>
                open_transport_with(&self.opts, device_id.clone(), credentials_secret.clone()),
            (State::AwaitingCacheWrite { .. }, Event::CacheWritten(Err(cause))) => abort_with(
                DeviceManagerError::IOError(cause),
            ),
            (State::AwaitingTransport, Event::TransportOpened(Ok(_))) => (
                State::AwaitingPendingUpdate,
                Action::ResumePendingUpdate {
                    state_file: self.opts.state_file.clone(),
                    download_directory: self.opts.download_directory.clone(),
                },
            ),
            (State::AwaitingTransport, Event::TransportOpened(Err(cause))) => abort_with(
                DeviceManagerError::TransportError(cause),
            ),
            (State::AwaitingPendingUpdate, Event::PendingUpdateResumed(Ok(_))) => (
                State::AwaitingWorkers,
                Action::SpawnWorkers {
                    queue_capacity: QUEUE_CAPACITY,
                    telemetry_config: self.opts.telemetry_schedule(),
                },
            ),
            (State::AwaitingPendingUpdate, Event::PendingUpdateResumed(Err(cause))) => abort_with(
                DeviceManagerError::UpdateError(cause),
            ),
            (State::AwaitingWorkers, Event::WorkersSpawned) => (State::Constructed, Action::Constructed),
            (State::AwaitingInitialTelemetry, Event::InitialTelemetrySent(Ok(_))) => (
                State::Initialized,
                Action::Initialized,
            ),
            (State::AwaitingInitialTelemetry, Event::InitialTelemetrySent(Err(cause))) => abort_with(
                DeviceManagerError::TransportError(cause),
            ),
            _ => abort_unexpected(),
        };
        self.state = state;
        action
    }

    /// Starts the initial telemetry of a manager that is built. At any other
    /// time the call aborts startup.
    pub fn init(&mut self) -> (action: Action)
        ensures
            final(self)@.opts == old(self)@.opts,
            (final(self)@.state, action@) == init_transition(old(self)@.state),
    {
        let (state, action) = match &self.state {
            State::Constructed => (State::AwaitingInitialTelemetry, Action::SendInitialTelemetry),
            _ => abort_unexpected(),
        };
        self.state = state;
        action
    }

    /// Plans the initial telemetry from the three inventories that the host
    /// has collected: every field is published under the interface of its
    /// inventory, the operating system's first, then the hardware's, then the
    /// runtime's. The host publishes in this order and reports the first
    /// failure, which aborts startup.
    pub fn send_initial_telemetry<V>(
        &self,
        os_info: Vec<(String, V)>,
        hardware_info: Vec<(String, V)>,
        runtime_info: Vec<(String, V)>,
    ) -> (plan: Vec<Publish<V>>)
        ensures
            plan.deep_view() == initial_telemetry(os_info@, hardware_info@, runtime_info@),
    {
        initial_telemetry_plan(os_info, hardware_info, runtime_info)
    }

    /// Opens the receive loop once the initial telemetry is out. At any
    /// other time the call aborts startup.
    pub fn run(&mut self) -> (action: Action)
        ensures
            final(self)@.opts == old(self)@.opts,
            (final(self)@.state, action@) == run_transition(old(self)@.state),
    {
        let (state, action) = match &self.state {
            State::Initialized => (State::Running, Action::EnterReceiveLoop),
            _ => abort_unexpected(),
        };
        self.state = state;
        action
    }

    /// The last milestone that startup has reached.
    pub fn stage(&self) -> (stage: Stage)
        ensures
            stage == self@.state.stage(),
    {
        match &self.state {
            State::AwaitingHardwareId => Stage::Unresolved,
            State::AwaitingCacheProbe { .. } => Stage::IdentityResolved,
            State::AwaitingCacheRead { .. } => Stage::IdentityResolved,
            State::AwaitingRegistration { .. } => Stage::IdentityResolved,
            State::AwaitingCacheWrite { .. } => Stage::IdentityResolved,
            State::AwaitingTransport => Stage::CredentialResolved,
            State::AwaitingPendingUpdate => Stage::TransportOpen,
            State::AwaitingWorkers => Stage::PendingOperationResumed,
            State::Constructed => Stage::WorkersSpawned,
            State::AwaitingInitialTelemetry => Stage::WorkersSpawned,
            State::Initialized => Stage::InitialTelemetrySent,
            State::Running => Stage::Running,
            State::Aborted => Stage::Aborted,
        }
    }

    /// The configuration that the manager was created from.
    pub fn options(&self) -> (opts: &DeviceManagerOptions)
        ensures
            opts@ == self@.opts,
    {
        &self.opts
    }
}

} // verus!
