//! Error types for the recoverable failures of the protocol core.
//!
//! Connection-fatal failures (channel closed, wire protocol violation) belong
//! to the transport layer outside this library; logic errors (attaching a
//! buffer before the first configure, attaching two shell overlays) are
//! prevented by the state machines' preconditions and have no runtime
//! representation here.

use vstd::prelude::*;

verus! {

/// Why binding a global failed.
#[derive(PartialEq, Eq, Structural, Clone, Copy, Debug)]
pub enum BindError {
    /// No advertised global has the requested interface.
    CapabilityUnavailable,
    /// A global with the interface exists, but none of them advertises a
    /// version inside the requested range.
    VersionUnsupported,
}

/// Why carving a buffer out of a pool was rejected.
#[derive(PartialEq, Eq, Structural, Clone, Copy, Debug)]
pub enum BufferError {
    /// The stride is smaller than one row of pixels needs.
    StrideTooSmall,
    /// The described rectangle reaches past the end of the pool.
    OutOfPoolBounds,
}

} // verus!
