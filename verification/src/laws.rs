//! What holds of startup as a whole, proved of the state machine.

use vstd::prelude::*;
use crate::credentials::{credential_step, missing_arguments, CacheState, CredentialStepView};
use crate::error::DeviceManagerErrorView;
use crate::identity::{identity_step, IdentityStepView};
use crate::options::DeviceManagerOptionsView;
use crate::sequencer::{
    abort, init_transition, open_transport, resolve_credentials, run_transition, start, transition, ActionView,
    EventView, StateView,
};

verus! {

/// A configured device identifier is the identity, unchanged, and startup
/// does not begin by asking the system bus.
pub proof fn lemma_configured_identity_is_kept(opts: DeviceManagerOptionsView)
    requires
        opts.device_id is Some,
    ensures
        identity_step(opts.device_id) == IdentityStepView::Resolved(opts.device_id->0),
        start(opts) == resolve_credentials(opts, opts.device_id->0, CacheState::Unknown),
        !(start(opts).1 is QueryHardwareId),
        !(start(opts).0 is AwaitingHardwareId),
{
}

/// Only the first step of startup can send the host to the system bus: no
/// event, and neither `init` nor `run`, leads to the query or to waiting for
/// its reply.
pub proof fn lemma_bus_is_asked_first_or_never(opts: DeviceManagerOptionsView, state: StateView, event: EventView)
    ensures
        !(transition(opts, state, event).1 is QueryHardwareId),
        !(transition(opts, state, event).0 is AwaitingHardwareId),
        !(init_transition(state).1 is QueryHardwareId),
        !(init_transition(state).0 is AwaitingHardwareId),
        !(run_transition(state).1 is QueryHardwareId),
        !(run_transition(state).0 is AwaitingHardwareId),
{
}

/// A configured secret is the credential, unchanged, whatever the device,
/// the other fields of the configuration and the state of the cache file;
/// the transport is opened with it at once.
pub proof fn lemma_configured_secret_wins(opts: DeviceManagerOptionsView, device_id: Seq<char>, cache: CacheState)
    requires
        opts.credentials_secret is Some,
    ensures
        credential_step(device_id, opts, cache) == Ok::<CredentialStepView, DeviceManagerErrorView>(
            CredentialStepView::Resolved(opts.credentials_secret->0),
        ),
        resolve_credentials(opts, device_id, cache) == open_transport(opts, device_id, opts.credentials_secret->0),
{
}

/// Without a configured secret, a cache file and a pairing token, credential
/// resolution fails for want of arguments, and startup is abandoned.
pub proof fn lemma_no_source_is_refused(opts: DeviceManagerOptionsView, device_id: Seq<char>)
    requires
        opts.credentials_secret is None,
        opts.pairing_token is None,
    ensures
        credential_step(device_id, opts, CacheState::Absent) == Err::<CredentialStepView, DeviceManagerErrorView>(
            DeviceManagerErrorView::FatalError(missing_arguments()),
        ),
        transition(opts, StateView::AwaitingCacheProbe { device_id }, EventView::CacheProbed(false)) == abort(
            DeviceManagerErrorView::FatalError(missing_arguments()),
        ),
{
}

/// With identifier and secret both configured, the first action of startup
/// is to open the transport with them: no file is looked for, read or
/// written, and the pairing endpoint is not called.
pub proof fn lemma_configured_startup_opens_transport(opts: DeviceManagerOptionsView)
    requires
        opts.device_id is Some,
        opts.credentials_secret is Some,
    ensures
        start(opts) == open_transport(opts, opts.device_id->0, opts.credentials_secret->0),
{
}

/// Where every action succeeds, a startup that has opened the transport goes
/// on to resume the pending update, to spawn the workers, to send the
/// initial telemetry on `init` and to enter the receive loop on `run`, in
/// this order and with nothing in between.
pub proof fn lemma_successful_startup_reaches_the_receive_loop(opts: DeviceManagerOptionsView)
    ensures
        transition(opts, StateView::AwaitingTransport, EventView::TransportOpened(Ok(()))) == (
            StateView::AwaitingPendingUpdate,
            ActionView::ResumePendingUpdate {
                state_file: opts.state_file,
                download_directory: opts.download_directory,
            },
        ),
        transition(opts, StateView::AwaitingPendingUpdate, EventView::PendingUpdateResumed(Ok(()))) == (
            StateView::AwaitingWorkers,
            ActionView::SpawnWorkers { queue_capacity: 32, telemetry_config: opts.telemetry_config },
        ),
        transition(opts, StateView::AwaitingWorkers, EventView::WorkersSpawned) == (
            StateView::Constructed,
            ActionView::Constructed,
        ),
        init_transition(StateView::Constructed) == (
            StateView::AwaitingInitialTelemetry,
            ActionView::SendInitialTelemetry,
        ),
        transition(opts, StateView::AwaitingInitialTelemetry, EventView::InitialTelemetrySent(Ok(()))) == (
            StateView::Initialized,
            ActionView::Initialized,
        ),
        run_transition(StateView::Initialized) == (StateView::Running, ActionView::EnterReceiveLoop),
{
}

/// Once the credential is resolved, nothing that follows touches the cache
/// file, calls the pairing endpoint or asks the system bus.
pub proof fn lemma_credential_is_resolved_once(opts: DeviceManagerOptionsView, state: StateView, event: EventView)
    requires
        state.stage().rank() >= 2,
    ensures
        !transition(opts, state, event).1.is_file_access(),
        !(transition(opts, state, event).1 is RegisterDevice),
        !init_transition(state).1.is_file_access(),
        !(init_transition(state).1 is RegisterDevice),
        !run_transition(state).1.is_file_access(),
        !(run_transition(state).1 is RegisterDevice),
{
}

/// The cache file is written only with a secret that registration has just
/// issued. Reading the cache never leads to writing it.
pub proof fn lemma_cache_is_written_after_registration(
    opts: DeviceManagerOptionsView,
    state: StateView,
    event: EventView,
)
    ensures
        transition(opts, state, event).1 is WriteCredentialCache ==> state is AwaitingRegistration && event
            is Registered,
        !(init_transition(state).1 is WriteCredentialCache),
        !(run_transition(state).1 is WriteCredentialCache),
        !(start(opts).1 is WriteCredentialCache),
{
}

/// Startup is strictly sequential. A step aborts exactly when it asks the
/// host to give up, and an aborted startup stays aborted. Any other step
/// leaves the state it was in and never falls back behind a milestone; from
/// the resolved credential on, it reaches at most the next one.
pub proof fn lemma_startup_only_advances(opts: DeviceManagerOptionsView, state: StateView, event: EventView)
    ensures
        ({
            let (next, action) = transition(opts, state, event);
            &&& (next is Aborted) <==> (action is Abort)
            &&& state is Aborted ==> next is Aborted
            &&& !(next is Aborted) ==> next != state && next.stage().rank() >= state.stage().rank()
            &&& !(next is Aborted) && state.stage().rank() >= 2 ==> next.stage().rank() == state.stage().rank() + 1
        }),
{
}

/// `init` and `run` each take startup over exactly one milestone's work, or
/// abort it: `init` only acts on a manager that is built, `run` only on one
/// whose initial telemetry is out.
pub proof fn lemma_init_and_run_keep_the_order(state: StateView)
    ensures
        !(init_transition(state).0 is Aborted) <==> state is Constructed,
        !(run_transition(state).0 is Aborted) <==> state is Initialized,
        state is Constructed ==> init_transition(state).0.stage() == state.stage(),
        state is Initialized ==> run_transition(state).0.stage().rank() == state.stage().rank() + 1,
        (init_transition(state).0 is Aborted) <==> (init_transition(state).1 is Abort),
        (run_transition(state).0 is Aborted) <==> (run_transition(state).1 is Abort),
{
}

} // verus!
