//! Messages that the platform sends to the device.
//!
//! The router reads three things of a message: the interface it arrived on,
//! its path, and whether its payload is a single value or a mapping, and in
//! the first case whether that value is a string. Everything else is carried
//! through untouched, so the mapping type `O` and the type `V` of the values
//! that are not strings are left to the host.

use vstd::prelude::*;

verus! {

/// A single value of a payload.
#[derive(Debug, Clone, PartialEq, Eq)]
pub enum Scalar<V> {
    /// A string value.
    String(String),
    /// Any value that is not a string.
    Other(V),
}

/// The payload of a message: a single value, or a mapping from field names
/// to values.
#[derive(Debug, Clone, PartialEq, Eq)]
pub enum Payload<O, V> {
    Individual(Scalar<V>),
    Object(O),
}

/// A message received from the platform.
#[derive(Debug, Clone, PartialEq, Eq)]
pub struct InboundMessage<O, V> {
    /// The name of the interface on which the message arrived.
    pub interface: String,
    /// The path within the interface, segments separated by `/`.
    pub path: String,
    pub payload: Payload<O, V>,
}

/// The mathematical value of a [`Scalar`].
pub enum ScalarView<V> {
    String(Seq<char>),
    Other(V),
}

/// The mathematical value of a [`Payload`].
pub enum PayloadView<O, V> {
    Individual(ScalarView<V>),
    Object(O),
}

/// The mathematical value of an [`InboundMessage`].
pub struct InboundMessageView<O, V> {
    pub interface: Seq<char>,
    pub path: Seq<char>,
    pub payload: PayloadView<O, V>,
}

impl<V> View for Scalar<V> {
    type V = ScalarView<V>;

    open spec fn view(&self) -> ScalarView<V> {
        match self {
            Scalar::String(text) => ScalarView::String(text@),
            Scalar::Other(value) => ScalarView::Other(*value),
        }
    }
}

impl<O, V> View for Payload<O, V> {
    type V = PayloadView<O, V>;

    open spec fn view(&self) -> PayloadView<O, V> {
        match self {
            Payload::Individual(value) => PayloadView::Individual(value@),
            Payload::Object(fields) => PayloadView::Object(*fields),
        }
    }
}

impl<O, V> View for InboundMessage<O, V> {
    type V = InboundMessageView<O, V>;

    open spec fn view(&self) -> InboundMessageView<O, V> {
        InboundMessageView { interface: self.interface@, path: self.path@, payload: self.payload@ }
    }
}

} // verus!
