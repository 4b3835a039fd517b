//! The conditions that abort startup.

use vstd::prelude::*;

verus! {

/// Why startup was abandoned. Each variant carries a text for the operator.
#[derive(Debug, Clone, PartialEq, Eq)]
pub enum DeviceManagerError {
    /// A condition that no later step can mend: required arguments are
    /// missing, the hardware identifier is empty, pairing was refused, the
    /// cached secret is corrupt.
    FatalError(String),
    /// The system bus could not be asked for the hardware identifier.
    IdentityLookupError(String),
    /// The credential cache file could not be read or written.
    IOError(String),
    /// The transport could not be opened, or refused a publish during startup.
    TransportError(String),
    /// The update subsystem could not resume its pending operation.
    UpdateError(String),
}

/// The mathematical value of a [`DeviceManagerError`].
pub enum DeviceManagerErrorView {
    FatalError(Seq<char>),
    IdentityLookupError(Seq<char>),
    IOError(Seq<char>),
    TransportError(Seq<char>),
    UpdateError(Seq<char>),
}

impl DeviceManagerErrorView {
    /// The text that the error carries.
    pub open spec fn message(self) -> Seq<char> {
        match self {
            DeviceManagerErrorView::FatalError(text) => text,
            DeviceManagerErrorView::IdentityLookupError(text) => text,
            DeviceManagerErrorView::IOError(text) => text,
            DeviceManagerErrorView::TransportError(text) => text,
            DeviceManagerErrorView::UpdateError(text) => text,
        }
    }
}

impl View for DeviceManagerError {
    type V = DeviceManagerErrorView;

    open spec fn view(&self) -> DeviceManagerErrorView {
        match self {
            DeviceManagerError::FatalError(text) => DeviceManagerErrorView::FatalError(text@),
            DeviceManagerError::IdentityLookupError(text) => DeviceManagerErrorView::IdentityLookupError(text@),
            DeviceManagerError::IOError(text) => DeviceManagerErrorView::IOError(text@),
            DeviceManagerError::TransportError(text) => DeviceManagerErrorView::TransportError(text@),
            DeviceManagerError::UpdateError(text) => DeviceManagerErrorView::UpdateError(text@),
        }
    }
}

impl DeviceManagerError {
    /// The text that the error carries.
    pub fn message(&self) -> (text: &str)
        ensures
            text@ == self@.message(),
    {
        match self {
            DeviceManagerError::FatalError(text) => text.as_str(),
            DeviceManagerError::IdentityLookupError(text) => text.as_str(),
            DeviceManagerError::IOError(text) => text.as_str(),
            DeviceManagerError::TransportError(text) => text.as_str(),
            DeviceManagerError::UpdateError(text) => text.as_str(),
        }
    }
}

/// The mathematical value of a result whose success is a string.
pub open spec fn text_result_view(r: Result<String, DeviceManagerError>) -> Result<Seq<char>, DeviceManagerErrorView> {
    match r {
        Ok(text) => Ok(text@),
        Err(e) => Err(e@),
    }
}

} // verus!
