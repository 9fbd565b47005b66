//! A virtio-vsock device model: a connection multiplexer that relays
//! vsock packet streams between a guest and pluggable host-side backends,
//! with credit-based flow control, deferred connection teardown, and
//! virtio-level device configuration.

use vstd::prelude::*;

pub mod backend;
pub mod connection;
pub mod device;
pub mod handler;
pub mod metrics;
pub mod muxer;
pub mod packet;

verus! {

/// Errors raised by the muxer while managing backends and connections.
#[derive(Clone, Copy, Debug, PartialEq, Eq, Structural)]
pub enum MuxerError {
    /// A backend was added after the muxer had been handed to the
    /// running event handler.
    BackendAddAfterActivated,
    /// A backend for this destination port (or a default backend) was
    /// already registered.
    BackendAlreadyRegistered,
}

/// Errors surfaced by the device front-end.
#[derive(Clone, Copy, Debug, PartialEq, Eq, Structural)]
pub enum VsockError {
    /// A muxer-level error.
    Muxer(MuxerError),
}

/// Errors raised when activating the device.
#[derive(Clone, Copy, Debug, PartialEq, Eq, Structural)]
pub enum ActivateError {
    /// The queue configuration handed in at activation does not match
    /// the sizes the device was created with.
    InvalidQueueConfig,
}

} // verus!
