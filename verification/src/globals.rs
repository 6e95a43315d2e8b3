//! Global capability discovery records.
//!
//! A global is an immutable advertisement by the compositor: a numeric name,
//! an interface kind, and a version. Globals are discovery records, not
//! protocol objects; binding one produces a separate proxy with its own id.

use vstd::prelude::*;

use crate::error::BindError;

verus! {

/// The closed set of interface kinds this client can recognise. Anything the
/// compositor advertises beyond these is kept as `Other`, which is never bound.
#[derive(PartialEq, Eq, Structural, Clone, Copy, Debug)]
pub enum Interface {
    Compositor,
    Shm,
    Seat,
    Output,
    WmBase,
    LayerShell,
    Other,
}

/// One advertised global: name, interface kind, advertised version.
#[derive(PartialEq, Eq, Structural, Clone, Copy, Debug)]
pub struct Global {
    pub name: u32,
    pub interface: Interface,
    pub version: u32,
}

/// A typed handle over a freshly allocated object id, bound to an advertised
/// global. The proxy keeps the global's name and the version it was bound at,
/// so a bind request can be issued from it alone.
#[derive(PartialEq, Eq, Structural, Clone, Copy, Debug)]
pub struct Proxy {
    pub id: u32,
    pub name: u32,
    pub interface: Interface,
    pub version: u32,
}

/// A global satisfies a bind request when its interface is the requested one
/// and its advertised version lies inside the requested range.
pub open spec fn global_matches(g: Global, interface: Interface, min_version: u32, max_version: u32) -> bool {
    g.interface == interface && min_version <= g.version <= max_version
}

/// Some advertised global satisfies the bind request.
pub open spec fn some_global_matches(gs: Seq<Global>, interface: Interface, min_version: u32, max_version: u32) -> bool {
    exists|i: int| 0 <= i < gs.len() && global_matches(gs[i], interface, min_version, max_version)
}

/// Some advertised global has the requested interface, whatever its version.
pub open spec fn some_global_has_interface(gs: Seq<Global>, interface: Interface) -> bool {
    exists|i: int| 0 <= i < gs.len() && gs[i].interface == interface
}

/// Select the advertised global to bind for `interface`, accepting versions in
/// `min_version ..= max_version`. The earliest advertised match wins. Fails
/// with `CapabilityUnavailable` when no global has the interface at all, and
/// with `VersionUnsupported` when the interface is advertised but only at
/// versions outside the range.
pub fn select_global(globals: &Vec<Global>, interface: Interface, min_version: u32, max_version: u32) -> (r: Result<
    Global,
    BindError,
>)
    ensures
        (r matches Ok(g) ==> exists|i: int|
            0 <= i < globals@.len() && globals@[i] == g && global_matches(g, interface, min_version, max_version) && (
            forall|j: int|
                0 <= j < i ==> !global_matches(globals@[j], interface, min_version, max_version))),
        r is Ok <==> some_global_matches(globals@, interface, min_version, max_version),
        r == Err::<Global, BindError>(BindError::CapabilityUnavailable) <==> !some_global_has_interface(
            globals@,
            interface,
        ),
        r == Err::<Global, BindError>(BindError::VersionUnsupported) <==> (some_global_has_interface(
            globals@,
            interface,
        ) && !some_global_matches(globals@, interface, min_version, max_version)),
{
    let mut interface_seen = false;
    let mut i: usize = 0;
    while i < globals.len()
        invariant
            0 <= i <= globals@.len(),
            forall|j: int| 0 <= j < i ==> !global_matches(globals@[j], interface, min_version, max_version),
            interface_seen <==> exists|j: int| 0 <= j < i && globals@[j].interface == interface,
        decreases globals@.len() - i,
    {
        let g = globals[i];
        if g.interface == interface {
            interface_seen = true;
            if min_version <= g.version && g.version <= max_version {
                return Ok(g);
            }
        }
        i += 1;
    }
    if interface_seen {
        Err(BindError::VersionUnsupported)
    } else {
        Err(BindError::CapabilityUnavailable)
    }
}

} // verus!
