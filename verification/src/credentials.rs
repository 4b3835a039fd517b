//! Resolution of the credential secret.
//!
//! The secret is looked for in a fixed order: the configuration, the cache
//! file of the device, registration with the pairing token. The first that
//! is there decides, and a source that is there and fails ends startup: a
//! corrupt cache is never passed over in favour of a new registration.

use vstd::prelude::*;
use crate::error::{text_result_view, DeviceManagerError, DeviceManagerErrorView};
use crate::json::{json_string_text, json_string_value, read_json_string, write_json_string};
use crate::options::{DeviceManagerOptions, DeviceManagerOptionsView};

verus! {

/// What the host knows of the cache file.
#[derive(Debug, Clone, Copy, PartialEq, Eq)]
pub enum CacheState {
    /// The host has not looked yet.
    Unknown,
    /// The file exists.
    Present,
    /// There is no such file.
    Absent,
}

/// What credential resolution asks for next.
#[derive(Debug, Clone, PartialEq, Eq)]
pub enum CredentialStep {
    /// The secret is known.
    Resolved(String),
    /// The host has to look whether the cache file exists.
    ProbeCache { path: String },
    /// The host has to read the cache file.
    ReadCache { path: String },
    /// The host has to register the device with the pairing endpoint.
    Register { token: String, pairing_url: String, realm: String, device_id: String },
}

/// The mathematical value of a [`CredentialStep`].
pub enum CredentialStepView {
    Resolved(Seq<char>),
    ProbeCache { path: Seq<char> },
    ReadCache { path: Seq<char> },
    Register { token: Seq<char>, pairing_url: Seq<char>, realm: Seq<char>, device_id: Seq<char> },
}

impl View for CredentialStep {
    type V = CredentialStepView;

    open spec fn view(&self) -> CredentialStepView {
        match self {
            CredentialStep::Resolved(secret) => CredentialStepView::Resolved(secret@),
            CredentialStep::ProbeCache { path } => CredentialStepView::ProbeCache { path: path@ },
            CredentialStep::ReadCache { path } => CredentialStepView::ReadCache { path: path@ },
            CredentialStep::Register { token, pairing_url, realm, device_id } => CredentialStepView::Register {
                token: token@,
                pairing_url: pairing_url@,
                realm: realm@,
                device_id: device_id@,
            },
        }
    }
}

/// A request to write the cache file.
#[derive(Debug, Clone, PartialEq, Eq)]
pub struct CacheWrite {
    pub path: String,
    /// The whole content of the file; an older file is overwritten.
    pub content: Vec<u8>,
}

/// The text of the error for a configuration that names no source.
pub open spec fn missing_arguments() -> Seq<char> {
    "Missing arguments"@
}

/// The text of the error for a registration that failed.
pub open spec fn pairing_error() -> Seq<char> {
    "Pairing error"@
}

/// The text of the error for a cache file that holds no secret.
pub open spec fn unreadable_secret() -> Seq<char> {
    "Unable to read secret"@
}

/// The path of the cache file of a device: `<device-id>.json` in the working
/// directory.
pub open spec fn credential_cache_path(device_id: Seq<char>) -> Seq<char> {
    "./"@ + device_id + ".json"@
}

/// The order of precedence. A configured secret wins whatever else is there.
/// Without one the cache file decides, once the host has looked for it, and
/// the pairing token comes last.
pub open spec fn credential_step(
    device_id: Seq<char>,
    opts: DeviceManagerOptionsView,
    cache: CacheState,
) -> Result<CredentialStepView, DeviceManagerErrorView> {
    match opts.credentials_secret {
        Some(secret) => Ok(CredentialStepView::Resolved(secret)),
        None => match cache {
            CacheState::Unknown => Ok(CredentialStepView::ProbeCache { path: credential_cache_path(device_id) }),
            CacheState::Present => Ok(CredentialStepView::ReadCache { path: credential_cache_path(device_id) }),
            CacheState::Absent => match opts.pairing_token {
                Some(token) => Ok(
                    CredentialStepView::Register {
                        token,
                        pairing_url: opts.pairing_url,
                        realm: opts.realm,
                        device_id,
                    },
                ),
                None => Err(DeviceManagerErrorView::FatalError(missing_arguments())),
            },
        },
    }
}

/// The secret that a cache file holds: its content is the JSON text of one
/// string.
pub open spec fn cached_secret(content: Seq<u8>) -> Result<Seq<char>, DeviceManagerErrorView> {
    match json_string_value(content) {
        Some(secret) => Ok(secret),
        None => Err(DeviceManagerErrorView::FatalError(unreadable_secret())),
    }
}

/// The mathematical value of the result of a credential step.
pub open spec fn step_result_view(res: Result<CredentialStep, DeviceManagerError>) -> Result<
    CredentialStepView,
    DeviceManagerErrorView,
> {
    match res {
        Ok(step) => Ok(step@),
        Err(e) => Err(e@),
    }
}

/// The path of the cache file of a device.
pub fn credential_cache_file(device_id: &str) -> (path: String)
    ensures
        path@ == credential_cache_path(device_id@),
{
    "./".to_string().concat(device_id).concat(".json")
}

/// Takes the next step of credential resolution.
///
/// A configured secret is returned unchanged, whatever else the
/// configuration holds and whether or not a cache file exists. A
/// configuration without secret and token, for a device without cache file,
/// is refused.
pub fn get_credentials_secret(device_id: &str, opts: &DeviceManagerOptions, cache: CacheState) -> (res: Result<
    CredentialStep,
    DeviceManagerError,
>)
    ensures
        step_result_view(res) == credential_step(device_id@, opts@, cache),
        opts.credentials_secret matches Some(secret) ==> res == Ok::<CredentialStep, DeviceManagerError>(
            CredentialStep::Resolved(secret),
        ),
{
    match &opts.credentials_secret {
        Some(secret) => Ok(CredentialStep::Resolved(secret.clone())),
        None => match cache {
            CacheState::Unknown => Ok(CredentialStep::ProbeCache { path: credential_cache_file(device_id) }),
            CacheState::Present => Ok(CredentialStep::ReadCache { path: credential_cache_file(device_id) }),
            CacheState::Absent => match &opts.pairing_token {
                Some(token) => Ok(
                    CredentialStep::Register {
                        token: token.clone(),
                        pairing_url: opts.pairing_url.clone(),
                        realm: opts.realm.clone(),
                        device_id: device_id.to_string(),
                    },
                ),
                None => Err(DeviceManagerError::FatalError("Missing arguments".to_string())),
            },
        },
    }
}

/// Turns what the JSON reader made of a cache file into the secret: a file
/// that holds no string ends startup.
pub fn secret_from_cache(parsed: Result<String, serde_json::Error>) -> (res: Result<String, DeviceManagerError>)
    ensures
        match parsed {
            Ok(secret) => res == Ok::<String, DeviceManagerError>(secret),
            Err(_) => text_result_view(res) == Err::<Seq<char>, DeviceManagerErrorView>(
                DeviceManagerErrorView::FatalError(unreadable_secret()),
            ),
        },
{
    match parsed {
        Ok(secret) => Ok(secret),
        Err(_) => Err(DeviceManagerError::FatalError("Unable to read secret".to_string())),
    }
}

/// Reads the secret from the content of the cache file.
pub fn get_credentials_secret_from_persistence(content: &[u8]) -> (res: Result<String, DeviceManagerError>)
    ensures
        text_result_view(res) == cached_secret(content@),
{
    secret_from_cache(read_json_string(content))
}

/// Takes the secret from the reply of the pairing endpoint, together with
/// the request to cache it.
///
/// What is written to the cache reads back as the same secret.
pub fn get_credentials_secret_from_registration(device_id: &str, registration: Result<String, String>) -> (res:
    Result<(String, CacheWrite), DeviceManagerError>)
    ensures
        match registration {
            Ok(secret) => {
                &&& res matches Ok((resolved, write))
                &&& resolved == secret
                &&& write.path@ == credential_cache_path(device_id@)
                &&& write.content@ == json_string_text(secret@)
                &&& cached_secret(write.content@) == Ok::<Seq<char>, DeviceManagerErrorView>(secret@)
            },
            Err(_) => {
                &&& res matches Err(e)
                &&& e@ == DeviceManagerErrorView::FatalError(pairing_error())
            },
        },
{
    match registration {
        Ok(secret) => match write_json_string(secret.as_str()) {
            Ok(content) => Ok((secret, CacheWrite { path: credential_cache_file(device_id), content })),
            Err(_) => Err(DeviceManagerError::FatalError("Unable to write secret".to_string())),
        },
        Err(_) => Err(DeviceManagerError::FatalError("Pairing error".to_string())),
    }
}

} // verus!
