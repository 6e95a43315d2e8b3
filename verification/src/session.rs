//! The session: one connection's worth of protocol state, and the dispatch
//! entry point that routes every incoming event.
//!
//! The session owns the id allocator, the object registry, the discovery
//! snapshot of globals, at most one surface lifecycle, and the input router.
//! All state changes happen either in an application-driven setup call or
//! inside [`Session::dispatch`]; each returns the requests the application
//! must issue to the compositor, in order, before the next blocking dispatch.

use vstd::prelude::*;

use crate::error::BindError;
use crate::error::BufferError;
use crate::globals::Global;
use crate::globals::Interface;
use crate::globals::Proxy;
use crate::globals::global_matches;
use crate::globals::select_global;
use crate::globals::some_global_has_interface;
use crate::globals::some_global_matches;
use crate::ids::IdAllocator;
use crate::input::InputDecision;
use crate::input::InputEvent;
use crate::input::InputRouter;
use crate::input::STOP_KEY;
use crate::input::has_keyboard_bit;
use crate::input::input_step;
use crate::protocol::EventPayload;
use crate::protocol::Request;
use crate::registry::ObjectKind;
use crate::registry::ObjectRegistry;
use crate::registry::lemma_kind_exclusive;
use crate::registry::table_has_entry;
use crate::registry::table_has_id;
use crate::shm::BufferGeometry;
use crate::shm::BufferHandle;
use crate::shm::ShmPool;
use crate::shm::geometry_fits;
use crate::shm::spec_bytes_per_pixel;
use crate::surface::LifecycleCommand;
use crate::surface::ShellChoice;
use crate::surface::SurfaceLifecycle;
use crate::surface::SurfaceState;
use crate::surface::lifecycle_step;

verus! {

/// Where global discovery stands: not yet begun, waiting on the sync
/// barrier's callback, or complete. Globals announced after completion are
/// still recorded; completeness is a snapshot, not an end of stream.
#[derive(PartialEq, Eq, Structural, Clone, Copy, Debug)]
pub enum DiscoveryPhase {
    Idle,
    Syncing,
    Complete,
}

/// The kind of protocol object a bound global becomes. Binding is only for
/// the interfaces the client knows; an unrecognised interface is never bound,
/// and its arm here is unreachable.
pub open spec fn spec_kind_for_interface(interface: Interface) -> ObjectKind {
    match interface {
        Interface::Compositor => ObjectKind::Compositor,
        Interface::Shm => ObjectKind::Shm,
        Interface::Seat => ObjectKind::Seat,
        Interface::Output => ObjectKind::Output,
        Interface::WmBase => ObjectKind::WmBase,
        Interface::LayerShell => ObjectKind::LayerShell,
        Interface::Other => ObjectKind::GlobalRegistry,
    }
}

/// The kind of protocol object a bound global becomes.
pub fn kind_for_interface(interface: Interface) -> (k: ObjectKind)
    requires
        !(interface is Other),
    ensures
        k == spec_kind_for_interface(interface),
{
    match interface {
        Interface::Compositor => ObjectKind::Compositor,
        Interface::Shm => ObjectKind::Shm,
        Interface::Seat => ObjectKind::Seat,
        Interface::Output => ObjectKind::Output,
        Interface::WmBase => ObjectKind::WmBase,
        Interface::LayerShell => ObjectKind::LayerShell,
        // binding is only for known interfaces; the precondition rules this out
        Interface::Other => ObjectKind::GlobalRegistry,
    }
}

/// One connection's protocol state.
#[derive(PartialEq, Eq, Clone, Debug)]
pub struct Session {
    /// Fresh object ids, monotonic, never reused.
    pub ids: IdAllocator,
    /// The table routing object ids to object kinds.
    pub objects: ObjectRegistry,
    /// Every global announced so far, in announcement order.
    pub globals: Vec<Global>,
    /// Where the discovery barrier stands.
    pub discovery: DiscoveryPhase,
    /// The one surface of this client, once created.
    pub surface: Option<SurfaceLifecycle>,
    /// The input router: keyboard tracking and the running flag.
    pub input: InputRouter,
    /// The id of the keyboard sub-object, while one is held.
    pub keyboard_id: Option<u32>,
    /// The proxies bound to announced outputs, in announcement order.
    pub outputs: Vec<Proxy>,
}

impl Session {
    /// Well-formedness, established by `new` and preserved by every method:
    /// the object table has no duplicate id, every registered id is below the
    /// allocator's next id (so fresh ids are really fresh), the surface
    /// lifecycle is well-formed, and the keyboard id is held exactly while
    /// the router holds the keyboard.
    pub open spec fn wf(self) -> bool {
        &&& self.objects.wf()
        &&& forall|i: int|
            0 <= i < self.objects.entries@.len() ==> (#[trigger] self.objects.entries@[i]).0 < self.ids.next
        &&& (self.surface matches Some(l) ==> l.wf())
        &&& (self.input.has_keyboard <==> self.keyboard_id is Some)
    }

    /// A fresh session: nothing discovered, nothing registered, no surface,
    /// loop running.
    pub fn new() -> (r: Session)
        ensures
            r.wf(),
            r.ids == (IdAllocator { next: 2 }),
            r.objects.entries@ =~= Seq::<(u32, ObjectKind)>::empty(),
            r.globals@ =~= Seq::<Global>::empty(),
            r.discovery is Idle,
            r.surface is None,
            r.input == (InputRouter { has_keyboard: false, running: true }),
            r.keyboard_id is None,
            r.outputs@ =~= Seq::<Proxy>::empty(),
    {
        Session {
            ids: IdAllocator::new(),
            objects: ObjectRegistry::new(),
            globals: Vec::new(),
            discovery: DiscoveryPhase::Idle,
            surface: None,
            input: InputRouter::new(),
            keyboard_id: None,
            outputs: Vec::new(),
        }
    }

    /// Whether the dispatch loop should keep running.
    pub fn should_run(&self) -> (r: bool)
        ensures
            r == self.input.running,
    {
        self.input.running
    }

    /// Begin discovery with an explicit barrier: ask for the registry
    /// listing, then issue a display sync. Globals announced from now on are
    /// recorded; when the sync's callback fires, every global advertised
    /// before the sync has been seen, and discovery is complete.
    pub fn begin_discovery(&mut self) -> (reqs: Vec<Request>)
        requires
            old(self).wf(),
            old(self).discovery is Idle,
            old(self).ids.next < u32::MAX - 1,
        ensures
            final(self).wf(),
            final(self).discovery is Syncing,
            reqs@ == seq![
                Request::GetRegistry { registry_id: old(self).ids.next },
                Request::Sync { callback_id: (old(self).ids.next + 1) as u32 },
            ],
            final(self).ids.next == old(self).ids.next + 2,
            final(self).objects.entries@ == old(self).objects.entries@.push(
                (old(self).ids.next, ObjectKind::GlobalRegistry),
            ).push(((old(self).ids.next + 1) as u32, ObjectKind::SyncCallback)),
            final(self).globals == old(self).globals,
            final(self).surface == old(self).surface,
            final(self).input == old(self).input,
            final(self).keyboard_id == old(self).keyboard_id,
            final(self).outputs == old(self).outputs,
    {
        proof {
            assert(!table_has_id(self.objects.entries@, self.ids.next));
        }
        let registry_id = self.ids.allocate();
        self.objects.register(registry_id, ObjectKind::GlobalRegistry);
        proof {
            assert(!table_has_id(self.objects.entries@, self.ids.next));
        }
        let callback_id = self.ids.allocate();
        self.objects.register(callback_id, ObjectKind::SyncCallback);
        self.discovery = DiscoveryPhase::Syncing;
        let mut reqs: Vec<Request> = Vec::new();
        reqs.push(Request::GetRegistry { registry_id });
        reqs.push(Request::Sync { callback_id });
        proof {
            assert(reqs@ =~= seq![
                Request::GetRegistry { registry_id: old(self).ids.next },
                Request::Sync { callback_id: (old(self).ids.next + 1) as u32 },
            ]);
        }
        reqs
    }

    /// Whether the discovery barrier has completed.
    pub fn discovery_complete(&self) -> (r: bool)
        ensures
            r == (self.discovery is Complete),
    {
        match self.discovery {
            DiscoveryPhase::Complete => true,
            _ => false,
        }
    }

    /// Bind the earliest announced global with the requested interface whose
    /// version lies in `min_version ..= max_version`. On success the proxy
    /// gets a fresh object id, registered under the interface's object kind,
    /// and carries the global's name and advertised version, from which the
    /// application issues the bind request. A proxy is returned only if such
    /// a global was announced; otherwise the typed error says whether the
    /// interface was missing altogether or only outside the version range.
    pub fn bind(&mut self, interface: Interface, min_version: u32, max_version: u32) -> (r: Result<
        Proxy,
        BindError,
    >)
        requires
            old(self).wf(),
            !(interface is Other),
            old(self).ids.next < u32::MAX,
        ensures
            final(self).wf(),
            r is Ok <==> some_global_matches(old(self).globals@, interface, min_version, max_version),
            r matches Ok(p) ==> {
                &&& p.id == old(self).ids.next
                &&& p.interface == interface
                &&& min_version <= p.version <= max_version
                &&& exists|i: int|
                    0 <= i < old(self).globals@.len() && old(self).globals@[i] == (Global {
                        name: p.name,
                        interface: p.interface,
                        version: p.version,
                    }) && global_matches(old(self).globals@[i], interface, min_version, max_version) && (
                    forall|j: int|
                        0 <= j < i ==> !global_matches(
                            old(self).globals@[j],
                            interface,
                            min_version,
                            max_version,
                        ))
                &&& final(self).ids.next == old(self).ids.next + 1
                &&& final(self).objects.entries@ == old(self).objects.entries@.push(
                    (p.id, spec_kind_for_interface(interface)),
                )
            },
            r is Err ==> *final(self) == *old(self),
            r == Err::<Proxy, BindError>(BindError::CapabilityUnavailable) <==> !some_global_has_interface(
                old(self).globals@,
                interface,
            ),
            r == Err::<Proxy, BindError>(BindError::VersionUnsupported) <==> (some_global_has_interface(
                old(self).globals@,
                interface,
            ) && !some_global_matches(old(self).globals@, interface, min_version, max_version)),
            final(self).globals == old(self).globals,
            final(self).discovery == old(self).discovery,
            final(self).surface == old(self).surface,
            final(self).input == old(self).input,
            final(self).keyboard_id == old(self).keyboard_id,
            final(self).outputs == old(self).outputs,
    {
        match select_global(&self.globals, interface, min_version, max_version) {
            Ok(g) => {
                proof {
                    assert(!table_has_id(self.objects.entries@, self.ids.next));
                }
                let id = self.ids.allocate();
                self.objects.register(id, kind_for_interface(interface));
                Ok(Proxy { id, name: g.name, interface: g.interface, version: g.version })
            },
            Err(e) => Err(e),
        }
    }

    /// Create the client's one drawable surface.
    pub fn create_surface(&mut self) -> (reqs: Vec<Request>)
        requires
            old(self).wf(),
            old(self).surface is None,
            old(self).ids.next < u32::MAX,
        ensures
            final(self).wf(),
            final(self).surface == Some(SurfaceLifecycle::spec_new(old(self).ids.next)),
            reqs@ == seq![Request::CreateSurface { surface_id: old(self).ids.next }],
            final(self).ids.next == old(self).ids.next + 1,
            final(self).objects.entries@ == old(self).objects.entries@.push(
                (old(self).ids.next, ObjectKind::Surface),
            ),
            final(self).globals == old(self).globals,
            final(self).discovery == old(self).discovery,
            final(self).input == old(self).input,
            final(self).keyboard_id == old(self).keyboard_id,
            final(self).outputs == old(self).outputs,
    {
        proof {
            assert(!table_has_id(self.objects.entries@, self.ids.next));
        }
        let surface_id = self.ids.allocate();
        self.objects.register(surface_id, ObjectKind::Surface);
        self.surface = Some(SurfaceLifecycle::new(surface_id));
        let mut reqs: Vec<Request> = Vec::new();
        reqs.push(Request::CreateSurface { surface_id });
        proof {
            assert(reqs@ =~= seq![Request::CreateSurface { surface_id: old(self).ids.next }]);
        }
        reqs
    }

    /// Overlay the surface with its one shell role, giving the overlay a
    /// fresh registered id, and issue the requests that create and place it.
    pub fn attach_shell(&mut self, choice: ShellChoice) -> (reqs: Vec<Request>)
        requires
            old(self).wf(),
            old(self).surface matches Some(l) && l.state is Created,
            old(self).ids.next < u32::MAX,
        ensures
            final(self).wf(),
            final(self).surface == Some(
                lifecycle_step(
                    old(self).surface.unwrap(),
                    LifecycleCommand::AttachShell { shell_id: old(self).ids.next, choice },
                ).0,
            ),
            reqs@ == lifecycle_step(
                old(self).surface.unwrap(),
                LifecycleCommand::AttachShell { shell_id: old(self).ids.next, choice },
            ).1,
            final(self).ids.next == old(self).ids.next + 1,
            final(self).objects.entries@ == old(self).objects.entries@.push(
                (old(self).ids.next, ObjectKind::ShellSurface),
            ),
            final(self).globals == old(self).globals,
            final(self).discovery == old(self).discovery,
            final(self).input == old(self).input,
            final(self).keyboard_id == old(self).keyboard_id,
            final(self).outputs == old(self).outputs,
    {
        proof {
            assert(!table_has_id(self.objects.entries@, self.ids.next));
        }
        let shell_id = self.ids.allocate();
        self.objects.register(shell_id, ObjectKind::ShellSurface);
        let mut lifecycle = self.surface.unwrap();
        let reqs = lifecycle.attach_shell(shell_id, choice);
        self.surface = Some(lifecycle);
        reqs
    }

    /// The initial commit of the shell-attached surface, with no buffer: the
    /// compositor answers it with the first configure.
    pub fn initial_commit(&mut self) -> (reqs: Vec<Request>)
        requires
            old(self).wf(),
            old(self).surface matches Some(l) && l.state is ShellAttached,
        ensures
            final(self).wf(),
            final(self).surface == Some(
                lifecycle_step(old(self).surface.unwrap(), LifecycleCommand::InitialCommit).0,
            ),
            reqs@ == lifecycle_step(old(self).surface.unwrap(), LifecycleCommand::InitialCommit).1,
            *final(self) == (Session { surface: final(self).surface, ..*old(self) }),
    {
        let mut lifecycle = self.surface.unwrap();
        let reqs = lifecycle.initial_commit();
        self.surface = Some(lifecycle);
        reqs
    }

    /// Stage a buffer on the surface for presentation. Nothing is attached
    /// here: attaching waits until a configure has been acknowledged.
    pub fn hold_buffer(&mut self, buffer: BufferHandle)
        requires
            old(self).wf(),
            old(self).surface matches Some(l) && !(l.state is Destroyed),
        ensures
            final(self).wf(),
            final(self).surface == Some(
                lifecycle_step(
                    old(self).surface.unwrap(),
                    LifecycleCommand::HoldBuffer { buffer },
                ).0,
            ),
            *final(self) == (Session { surface: final(self).surface, ..*old(self) }),
    {
        let mut lifecycle = self.surface.unwrap();
        lifecycle.hold_buffer(buffer);
        self.surface = Some(lifecycle);
    }

    /// Attach the held buffer and commit, outside a configure cycle. Legal
    /// only once the surface has been configured.
    pub fn present(&mut self) -> (reqs: Vec<Request>)
        requires
            old(self).wf(),
            old(self).surface matches Some(l) && (l.state is Configured || l.state is Presenting)
                && l.buffer is Some,
        ensures
            final(self).wf(),
            final(self).surface == Some(lifecycle_step(old(self).surface.unwrap(), LifecycleCommand::Present).0),
            reqs@ == lifecycle_step(old(self).surface.unwrap(), LifecycleCommand::Present).1,
            *final(self) == (Session { surface: final(self).surface, ..*old(self) }),
    {
        let mut lifecycle = self.surface.unwrap();
        let reqs = lifecycle.present();
        self.surface = Some(lifecycle);
        reqs
    }

    /// Register a shared-memory region of `size` bytes as a pool. The
    /// protocol refuses an empty pool, and the backing region must stay valid
    /// and at least this large for the pool's lifetime.
    pub fn create_pool(&mut self, size: u32) -> (r: (ShmPool, Vec<Request>))
        requires
            old(self).wf(),
            size > 0,
            old(self).ids.next < u32::MAX,
        ensures
            final(self).wf(),
            r.0 == (ShmPool { id: old(self).ids.next, size }),
            r.1@ == seq![Request::CreatePool { pool_id: old(self).ids.next, size }],
            final(self).ids.next == old(self).ids.next + 1,
            final(self).objects.entries@ == old(self).objects.entries@.push(
                (old(self).ids.next, ObjectKind::Pool),
            ),
            final(self).globals == old(self).globals,
            final(self).discovery == old(self).discovery,
            final(self).surface == old(self).surface,
            final(self).input == old(self).input,
            final(self).keyboard_id == old(self).keyboard_id,
            final(self).outputs == old(self).outputs,
    {
        proof {
            assert(!table_has_id(self.objects.entries@, self.ids.next));
        }
        let pool_id = self.ids.allocate();
        self.objects.register(pool_id, ObjectKind::Pool);
        let mut reqs: Vec<Request> = Vec::new();
        reqs.push(Request::CreatePool { pool_id, size });
        proof {
            assert(reqs@ =~= seq![Request::CreatePool { pool_id: old(self).ids.next, size }]);
        }
        (ShmPool { id: pool_id, size }, reqs)
    }

    /// Carve a buffer of the given geometry out of the pool. Exactly the
    /// geometries that fit the pool are accepted; a violating geometry is
    /// rejected with its typed error before any creation request is issued.
    pub fn create_buffer(&mut self, pool: &ShmPool, geometry: BufferGeometry) -> (r: Result<
        (BufferHandle, Vec<Request>),
        BufferError,
    >)
        requires
            old(self).wf(),
            old(self).ids.next < u32::MAX,
        ensures
            final(self).wf(),
            r is Ok <==> geometry_fits(geometry, pool.size),
            r matches Ok((handle, reqs)) ==> {
                &&& handle == (BufferHandle { id: old(self).ids.next, geometry })
                &&& reqs@ == seq![
                    Request::CreateBuffer { buffer_id: old(self).ids.next, pool_id: pool.id, geometry },
                ]
                &&& final(self).ids.next == old(self).ids.next + 1
                &&& final(self).objects.entries@ == old(self).objects.entries@.push(
                    (old(self).ids.next, ObjectKind::Buffer),
                )
                &&& final(self).globals == old(self).globals
                &&& final(self).discovery == old(self).discovery
                &&& final(self).surface == old(self).surface
                &&& final(self).input == old(self).input
                &&& final(self).keyboard_id == old(self).keyboard_id
                &&& final(self).outputs == old(self).outputs
            },
            r is Err ==> *final(self) == *old(self),
            r == Err::<(BufferHandle, Vec<Request>), BufferError>(BufferError::StrideTooSmall) <==> (
            geometry.stride as int) < geometry.width * spec_bytes_per_pixel(geometry.format),
            r == Err::<(BufferHandle, Vec<Request>), BufferError>(BufferError::OutOfPoolBounds) <==> ((
            geometry.stride as int) >= geometry.width * spec_bytes_per_pixel(geometry.format)
                && geometry.offset + geometry.stride * geometry.height > pool.size),
    {
        match pool.validate_geometry(geometry) {
            Ok(()) => {
                proof {
                    assert(!table_has_id(self.objects.entries@, self.ids.next));
                }
                let buffer_id = self.ids.allocate();
                self.objects.register(buffer_id, ObjectKind::Buffer);
                let mut reqs: Vec<Request> = Vec::new();
                reqs.push(Request::CreateBuffer { buffer_id, pool_id: pool.id, geometry });
                proof {
                    assert(reqs@ =~= seq![
                        Request::CreateBuffer {
                            buffer_id: old(self).ids.next,
                            pool_id: pool.id,
                            geometry,
                        },
                    ]);
                }
                Ok((BufferHandle { id: buffer_id, geometry }, reqs))
            },
            Err(e) => Err(e),
        }
    }
}

/// The surface holds the shell overlay living under `sender_id` and stands in
/// a state that accepts a configure event.
pub open spec fn configure_ready(s: Session, sender_id: u32) -> bool {
    s.surface matches Some(l) && l.shell_id == Some(sender_id) && (l.state is AwaitingConfigure
        || l.state is Configured || l.state is Presenting)
}

/// The combinations of sender and payload that dispatch drops silently: an
/// unknown or already torn-down id, a payload of the wrong sort for the
/// object it is addressed to, an object kind that has no events to react to,
/// or a configure for a shell overlay the surface does not hold or cannot
/// accept one in its current state.
pub open spec fn dispatch_ignores(s: Session, sender_id: u32, ev: EventPayload) -> bool {
    let t = s.objects.entries@;
    ||| !table_has_id(t, sender_id)
    ||| table_has_entry(t, sender_id, ObjectKind::GlobalRegistry) && !(ev is GlobalAnnounce)
    ||| table_has_entry(t, sender_id, ObjectKind::SyncCallback) && !(ev is SyncDone)
    ||| table_has_entry(t, sender_id, ObjectKind::WmBase) && !(ev is Ping)
    ||| table_has_entry(t, sender_id, ObjectKind::ShellSurface) && !(ev is Configure)
    ||| table_has_entry(t, sender_id, ObjectKind::ShellSurface) && ev is Configure && !configure_ready(
        s,
        sender_id,
    )
    ||| table_has_entry(t, sender_id, ObjectKind::Seat) && !(ev is SeatCapabilities)
    ||| table_has_entry(t, sender_id, ObjectKind::Keyboard) && !(ev is Key)
    ||| table_has_entry(t, sender_id, ObjectKind::Compositor)
    ||| table_has_entry(t, sender_id, ObjectKind::Shm)
    ||| table_has_entry(t, sender_id, ObjectKind::Output)
    ||| table_has_entry(t, sender_id, ObjectKind::Surface)
    ||| table_has_entry(t, sender_id, ObjectKind::LayerShell)
    ||| table_has_entry(t, sender_id, ObjectKind::Pool)
    ||| table_has_entry(t, sender_id, ObjectKind::Buffer)
}

/// The trace holds exactly one pong request, and it echoes `serial`.
pub open spec fn exactly_one_pong(trace: Seq<Request>, serial: u32) -> bool {
    &&& exists|i: int| 0 <= i < trace.len() && trace[i] == (Request::Pong { serial })
    &&& forall|i: int, j: int|
        0 <= i < trace.len() && 0 <= j < trace.len() && trace[i] is Pong && trace[j] is Pong ==> i == j
}

/// A ping is answered by exactly one pong carrying the identical serial,
/// within the same dispatch cycle: [`Session::dispatch`] answers a ping with
/// the trace this law speaks of, and nothing else.
pub proof fn lemma_ping_ponged_exactly_once(serial: u32)
    ensures
        exactly_one_pong(seq![Request::Pong { serial }], serial),
{
    let trace = seq![Request::Pong { serial }];
    assert(trace[0] == (Request::Pong { serial }));
}

impl Session {
    /// Route one incoming event by its sender's object id and react to it.
    /// The returned requests must reach the compositor, in order, before the
    /// next blocking dispatch.
    ///
    /// A ping is answered with a pong echoing its serial. A configure is
    /// handed to the surface lifecycle, which acknowledges it first. A global
    /// announcement is recorded, and an announced output is bound at once. A
    /// sync callback completes the discovery barrier. Seat capabilities drive
    /// the keyboard sub-object, and a key event drives the running flag.
    /// Everything else is dropped without a trace.
    pub fn dispatch(&mut self, sender_id: u32, ev: EventPayload) -> (reqs: Vec<Request>)
        requires
            old(self).wf(),
            old(self).ids.next < u32::MAX,
        ensures
            final(self).wf(),
            final(self).ids.next >= old(self).ids.next,
            dispatch_ignores(*old(self), sender_id, ev) ==> *final(self) == *old(self) && reqs@.len() == 0,
            ev matches EventPayload::Ping { serial } ==> table_has_entry(
                old(self).objects.entries@,
                sender_id,
                ObjectKind::WmBase,
            ) ==> *final(self) == *old(self) && reqs@ == seq![
                Request::Pong { serial },
            ],
            table_has_entry(old(self).objects.entries@, sender_id, ObjectKind::SyncCallback) && ev is SyncDone
                ==> *final(self) == (Session { discovery: DiscoveryPhase::Complete, ..*old(self) })
                && reqs@.len() == 0,
            ev matches EventPayload::GlobalAnnounce { name, interface, version } ==> table_has_entry(
                old(self).objects.entries@,
                sender_id,
                ObjectKind::GlobalRegistry,
            ) ==> {
                &&& final(self).globals@ == old(self).globals@.push(Global { name, interface, version })
                &&& (interface == Interface::Output ==> {
                    &&& reqs@ == seq![
                        Request::BindGlobal {
                            proxy: Proxy { id: old(self).ids.next, name, interface, version },
                        },
                    ]
                    &&& final(self).outputs@ == old(self).outputs@.push(
                        Proxy { id: old(self).ids.next, name, interface, version },
                    )
                    &&& final(self).objects.entries@ == old(self).objects.entries@.push(
                        (old(self).ids.next, ObjectKind::Output),
                    )
                    &&& final(self).ids.next == old(self).ids.next + 1
                })
                &&& (interface != Interface::Output ==> reqs@.len() == 0 && final(self).outputs
                    == old(self).outputs && final(self).objects == old(self).objects && final(self).ids
                    == old(self).ids)
                &&& final(self).discovery == old(self).discovery
                &&& final(self).surface == old(self).surface
                &&& final(self).input == old(self).input
                &&& final(self).keyboard_id == old(self).keyboard_id
            },
            ev matches EventPayload::Configure { serial } ==> table_has_entry(
                old(self).objects.entries@,
                sender_id,
                ObjectKind::ShellSurface,
            ) && configure_ready(*old(self), sender_id) ==> {
                &&& final(self).surface == Some(
                    lifecycle_step(old(self).surface.unwrap(), LifecycleCommand::Configure { serial }).0,
                )
                &&& reqs@ == lifecycle_step(
                    old(self).surface.unwrap(),
                    LifecycleCommand::Configure { serial },
                ).1
                &&& *final(self) == (Session { surface: final(self).surface, ..*old(self) })
            },
            ev matches EventPayload::SeatCapabilities { capabilities } ==> table_has_entry(
                old(self).objects.entries@,
                sender_id,
                ObjectKind::Seat,
            ) ==> {
                &&& final(self).input == input_step(
                    old(self).input,
                    InputEvent::Capabilities { capabilities },
                ).0
                &&& (has_keyboard_bit(capabilities) && !old(self).input.has_keyboard ==> {
                    &&& reqs@ == seq![
                        Request::GetKeyboard { keyboard_id: old(self).ids.next, seat_id: sender_id },
                    ]
                    &&& final(self).keyboard_id == Some(old(self).ids.next)
                    &&& final(self).objects.entries@ == old(self).objects.entries@.push(
                        (old(self).ids.next, ObjectKind::Keyboard),
                    )
                    &&& final(self).ids.next == old(self).ids.next + 1
                })
                &&& (!has_keyboard_bit(capabilities) && old(self).input.has_keyboard ==> {
                    &&& reqs@ == seq![
                        Request::ReleaseKeyboard { keyboard_id: old(self).keyboard_id.unwrap() },
                    ]
                    &&& final(self).keyboard_id is None
                    &&& !table_has_id(final(self).objects.entries@, old(self).keyboard_id.unwrap())
                    &&& final(self).ids == old(self).ids
                })
                &&& (has_keyboard_bit(capabilities) == old(self).input.has_keyboard ==> reqs@.len() == 0
                    && *final(self) == *old(self))
                &&& final(self).globals == old(self).globals
                &&& final(self).discovery == old(self).discovery
                &&& final(self).surface == old(self).surface
                &&& final(self).outputs == old(self).outputs
            },
            ev matches EventPayload::Key { key, pressed } ==> table_has_entry(
                old(self).objects.entries@,
                sender_id,
                ObjectKind::Keyboard,
            ) ==> {
                &&& final(self).input == input_step(old(self).input, InputEvent::Key { key, pressed }).0
                &&& final(self).input.running == (old(self).input.running && key != STOP_KEY)
                &&& reqs@.len() == 0
                &&& *final(self) == (Session { input: final(self).input, ..*old(self) })
            },
    {
        let kind = match self.objects.lookup(sender_id) {
            Some(k) => k,
            None => {
                proof {
                    assert forall|k2: ObjectKind| !table_has_entry(
                        self.objects.entries@,
                        sender_id,
                        k2,
                    ) by {
                        if table_has_entry(self.objects.entries@, sender_id, k2) {
                            let i = choose|i: int|
                                0 <= i < self.objects.entries@.len() && self.objects.entries@[i] == (
                                sender_id,
                                k2,
                                );
                            assert(self.objects.entries@[i].0 == sender_id);
                        }
                    }
                }
                return Vec::new();
            },
        };
        proof {
            lemma_kind_exclusive(self.objects.entries@, sender_id, kind);
        }
        match (kind, ev) {
            (ObjectKind::GlobalRegistry, EventPayload::GlobalAnnounce { name, interface, version }) => {
                self.globals.push(Global { name, interface, version });
                if interface == Interface::Output {
                    proof {
                        assert(!table_has_id(self.objects.entries@, self.ids.next));
                    }
                    let id = self.ids.allocate();
                    self.objects.register(id, ObjectKind::Output);
                    let proxy = Proxy { id, name, interface, version };
                    self.outputs.push(proxy);
                    let mut reqs: Vec<Request> = Vec::new();
                    reqs.push(Request::BindGlobal { proxy });
                    proof {
                        assert(reqs@ =~= seq![
                            Request::BindGlobal {
                                proxy: Proxy { id: old(self).ids.next, name, interface, version },
                            },
                        ]);
                    }
                    reqs
                } else {
                    Vec::new()
                }
            },
            (ObjectKind::SyncCallback, EventPayload::SyncDone) => {
                self.discovery = DiscoveryPhase::Complete;
                Vec::new()
            },
            (ObjectKind::WmBase, EventPayload::Ping { serial }) => {
                let mut reqs: Vec<Request> = Vec::new();
                reqs.push(Request::Pong { serial });
                proof {
                    assert(reqs@ =~= seq![Request::Pong { serial }]);
                }
                reqs
            },
            (ObjectKind::ShellSurface, EventPayload::Configure { serial }) => {
                match self.surface {
                    Some(found) => {
                        let overlay_matches = match found.shell_id {
                            Some(sid) => sid == sender_id,
                            None => false,
                        };
                        let state_accepts = match found.state {
                            SurfaceState::AwaitingConfigure => true,
                            SurfaceState::Configured => true,
                            SurfaceState::Presenting => true,
                            _ => false,
                        };
                        if overlay_matches && state_accepts {
                            let mut lifecycle = found;
                            let reqs = lifecycle.handle_configure(serial);
                            self.surface = Some(lifecycle);
                            reqs
                        } else {
                            Vec::new()
                        }
                    },
                    None => Vec::new(),
                }
            },
            (ObjectKind::Seat, EventPayload::SeatCapabilities { capabilities }) => {
                let decision = self.input.handle_capabilities(capabilities);
                match decision {
                    Some(InputDecision::RequestKeyboard) => {
                        proof {
                            assert(!table_has_id(self.objects.entries@, self.ids.next));
                        }
                        let keyboard_id = self.ids.allocate();
                        self.objects.register(keyboard_id, ObjectKind::Keyboard);
                        self.keyboard_id = Some(keyboard_id);
                        let mut reqs: Vec<Request> = Vec::new();
                        reqs.push(Request::GetKeyboard { keyboard_id, seat_id: sender_id });
                        proof {
                            assert(reqs@ =~= seq![
                                Request::GetKeyboard {
                                    keyboard_id: old(self).ids.next,
                                    seat_id: sender_id,
                                },
                            ]);
                        }
                        reqs
                    },
                    Some(InputDecision::ReleaseKeyboard) => {
                        let keyboard_id = self.keyboard_id.unwrap();
                        self.objects.unregister(keyboard_id);
                        self.keyboard_id = None;
                        proof {
                            assert forall|i: int|
                                0 <= i < self.objects.entries@.len() implies (
                            #[trigger] self.objects.entries@[i]).0 < self.ids.next by {
                                let e = self.objects.entries@[i];
                                assert(table_has_entry(self.objects.entries@, e.0, e.1));
                                if e.0 == keyboard_id {
                                    assert(table_has_id(self.objects.entries@, keyboard_id));
                                } else {
                                    assert(table_has_entry(old(self).objects.entries@, e.0, e.1));
                                    let j = choose|j: int|
                                        0 <= j < old(self).objects.entries@.len() && old(
                                            self,
                                        ).objects.entries@[j] == (e.0, e.1);
                                    assert(old(self).objects.entries@[j].0 < old(self).ids.next);
                                }
                            }
                        }
                        let mut reqs: Vec<Request> = Vec::new();
                        reqs.push(Request::ReleaseKeyboard { keyboard_id });
                        proof {
                            assert(reqs@ =~= seq![
                                Request::ReleaseKeyboard { keyboard_id: old(self).keyboard_id.unwrap() },
                            ]);
                        }
                        reqs
                    },
                    None => Vec::new(),
                }
            },
            (ObjectKind::Keyboard, EventPayload::Key { key, pressed }) => {
                let _ = self.input.handle_key(key, pressed);
                Vec::new()
            },
            _ => Vec::new(),
        }
    }
}

} // verus!
