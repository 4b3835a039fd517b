//! Resolution of the device's identity.
//!
//! A configured identifier is taken as it is. Without one the host asks the
//! hardware over the system bus, and the reply is checked here.

use vstd::prelude::*;
use crate::error::{text_result_view, DeviceManagerError, DeviceManagerErrorView};

verus! {

/// What identity resolution asks for next.
#[derive(Debug, Clone, PartialEq, Eq)]
pub enum IdentityStep {
    /// The identity is known; the system bus is not asked.
    Resolved(String),
    /// The host has to ask the system bus for the hardware identifier.
    QueryHardwareId,
}

/// The mathematical value of an [`IdentityStep`].
pub enum IdentityStepView {
    Resolved(Seq<char>),
    QueryHardwareId,
}

impl View for IdentityStep {
    type V = IdentityStepView;

    open spec fn view(&self) -> IdentityStepView {
        match self {
            IdentityStep::Resolved(device_id) => IdentityStepView::Resolved(device_id@),
            IdentityStep::QueryHardwareId => IdentityStepView::QueryHardwareId,
        }
    }
}

/// The text of the error for a hardware identifier that is empty.
pub open spec fn no_hardware_id() -> Seq<char> {
    "No hardware id provided"@
}

/// The first step of identity resolution: a configured identifier resolves
/// it, and only its absence sends the host to the system bus.
pub open spec fn identity_step(configured: Option<Seq<char>>) -> IdentityStepView {
    match configured {
        Some(device_id) => IdentityStepView::Resolved(device_id),
        None => IdentityStepView::QueryHardwareId,
    }
}

/// What the reply of the system bus resolves to: a failed call and an empty
/// identifier both end startup.
pub open spec fn hardware_identity(reply: Result<Seq<char>, Seq<char>>) -> Result<
    Seq<char>,
    DeviceManagerErrorView,
> {
    match reply {
        Ok(hardware_id) => if hardware_id.len() == 0 {
            Err(DeviceManagerErrorView::FatalError(no_hardware_id()))
        } else {
            Ok(hardware_id)
        },
        Err(cause) => Err(DeviceManagerErrorView::IdentityLookupError(cause)),
    }
}

/// The mathematical value of a reply that is a string or the text of a
/// failure.
pub open spec fn reply_view(reply: Result<String, String>) -> Result<Seq<char>, Seq<char>> {
    match reply {
        Ok(text) => Ok(text@),
        Err(cause) => Err(cause@),
    }
}

/// Resolves the identity from the configuration, or asks for the hardware
/// identifier. A configured identifier is returned unchanged.
pub fn get_device_id(opt_device_id: Option<String>) -> (step: IdentityStep)
    ensures
        step@ == identity_step(opt_device_id.deep_view()),
        opt_device_id matches Some(device_id) ==> step == IdentityStep::Resolved(device_id),
        (step is QueryHardwareId) <==> (opt_device_id is None),
{
    match opt_device_id {
        Some(device_id) => IdentityStep::Resolved(device_id),
        None => IdentityStep::QueryHardwareId,
    }
}

/// Checks what the system bus replied to the query for the hardware
/// identifier.
pub fn get_hardware_id_from_dbus(reply: Result<String, String>) -> (res: Result<String, DeviceManagerError>)
    ensures
        text_result_view(res) == hardware_identity(reply_view(reply)),
        res matches Ok(hardware_id) ==> hardware_id@.len() > 0,
{
    match reply {
        Ok(hardware_id) => {
            if hardware_id.as_str().is_empty() {
                Err(DeviceManagerError::FatalError("No hardware id provided".to_string()))
            } else {
                Ok(hardware_id)
            }
        },
        Err(cause) => Err(DeviceManagerError::IdentityLookupError(cause)),
    }
}

} // verus!
