//! The control core of an edge-device agent: ordered startup, resolution of
//! the device's identity and credentials, and routing of inbound platform
//! messages. Every decision is a verified function from plain values to
//! plain values; the host performs the outside work that the decisions ask
//! for and reports what came of it.

pub mod error;
pub mod text;
pub mod path;
pub mod message;
pub mod router;
pub mod identity;
pub mod options;
pub mod credentials;
pub mod json;
pub mod telemetry;
pub mod sequencer;
pub mod manager;
pub mod laws;

pub use crate::error::DeviceManagerError;
pub use crate::manager::DeviceManager;
pub use crate::options::{DeviceManagerOptions, TelemetryInterfaceConfig};
