//! The messages the core exchanges with the surrounding application.
//!
//! Incoming compositor events arrive decoded as an [`EventPayload`] addressed
//! to an object id; the core answers with a sequence of [`Request`] values,
//! which the application encodes and sends on the wire, in order, before the
//! next blocking dispatch.

use vstd::prelude::*;

use crate::globals::Interface;
use crate::globals::Proxy;
use crate::shm::BufferGeometry;
use crate::surface::ShellChoice;

verus! {

/// A decoded compositor event, without the object id it was addressed to.
#[derive(PartialEq, Eq, Structural, Clone, Copy, Debug)]
pub enum EventPayload {
    /// The registry announces one global capability.
    GlobalAnnounce { name: u32, interface: Interface, version: u32 },
    /// A sync callback fires: everything sent before the sync has been seen.
    SyncDone,
    /// The shell demands a liveness reply carrying the same serial.
    Ping { serial: u32 },
    /// The shell surface is (re)configured; must be acknowledged with the
    /// same serial.
    Configure { serial: u32 },
    /// The seat reports its capability bitfield.
    SeatCapabilities { capabilities: u32 },
    /// A key was pressed or released on the keyboard sub-object.
    Key { key: u32, pressed: bool },
}

/// A request for the application to issue to the compositor.
#[derive(PartialEq, Eq, Structural, Clone, Copy, Debug)]
pub enum Request {
    /// Ask the display for a new registry object listing the globals.
    GetRegistry { registry_id: u32 },
    /// Issue a display sync whose callback marks the discovery barrier.
    Sync { callback_id: u32 },
    /// Bind the advertised global named in the proxy to the proxy's id.
    BindGlobal { proxy: Proxy },
    /// Create a drawable surface.
    CreateSurface { surface_id: u32 },
    /// Overlay the surface with the chosen shell role.
    CreateShellSurface { shell_id: u32, surface_id: u32, choice: ShellChoice },
    /// Acknowledge a configure event, echoing its serial verbatim.
    AckConfigure { shell_id: u32, serial: u32 },
    /// Answer a ping, echoing its serial verbatim.
    Pong { serial: u32 },
    /// Attach the buffer to the surface.
    Attach { surface_id: u32, buffer_id: u32 },
    /// Commit the surface's pending state.
    Commit { surface_id: u32 },
    /// Register a shared-memory region of the given byte size as a pool.
    CreatePool { pool_id: u32, size: u32 },
    /// Carve a buffer of the given geometry out of the pool.
    CreateBuffer { buffer_id: u32, pool_id: u32, geometry: BufferGeometry },
    /// Obtain the keyboard sub-object of the seat.
    GetKeyboard { keyboard_id: u32, seat_id: u32 },
    /// Release the keyboard sub-object.
    ReleaseKeyboard { keyboard_id: u32 },
    /// Tear the surface down.
    DestroySurface { surface_id: u32 },
}

} // verus!
