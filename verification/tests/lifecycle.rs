use waycore::BufferGeometry;
use waycore::EventPayload;
use waycore::Interface;
use waycore::KeyboardInteractivity;
use waycore::LayerBand;
use waycore::LayerSettings;
use waycore::PixelFormat;
use waycore::Request;
use waycore::Session;
use waycore::ShellChoice;
use waycore::SurfaceState;
use waycore::ANCHOR_BOTTOM;
use waycore::ANCHOR_LEFT;
use waycore::ANCHOR_RIGHT;
use waycore::ANCHOR_TOP;

fn all_edges_layer() -> ShellChoice {
    ShellChoice::Layered(LayerSettings {
        band: LayerBand::Top,
        anchor: ANCHOR_TOP | ANCHOR_BOTTOM | ANCHOR_LEFT | ANCHOR_RIGHT,
        width: 320,
        height: 240,
        interactivity: KeyboardInteractivity::OnDemand,
    })
}

fn count_acks(reqs: &[Request]) -> usize {
    reqs.iter().filter(|r| matches!(r, Request::AckConfigure { .. })).count()
}

fn count_attaches(reqs: &[Request]) -> usize {
    reqs.iter().filter(|r| matches!(r, Request::Attach { .. })).count()
}

/// The full round trip: announce three globals, bind them all, create the
/// surface, overlay it with a layer anchored to all four edges, commit,
/// answer the first configure with a single acknowledgement echoing its
/// serial, then attach a 320x240 ARGB buffer with stride 1280 and commit,
/// ending in the presenting state.
#[test]
fn round_trip_to_presenting() {
    let mut session = Session::new();
    let reqs = session.begin_discovery();
    assert_eq!(reqs.len(), 2);
    for (name, interface, version) in
        [(1, Interface::Compositor, 5), (2, Interface::Shm, 1), (3, Interface::LayerShell, 4)]
    {
        session.dispatch(2, EventPayload::GlobalAnnounce { name, interface, version });
    }
    session.dispatch(3, EventPayload::SyncDone);
    assert!(session.discovery_complete());

    let compositor = session.bind(Interface::Compositor, 1, 5).unwrap();
    assert_eq!(compositor.version, 5);
    let shm = session.bind(Interface::Shm, 1, 1).unwrap();
    let layer_shell = session.bind(Interface::LayerShell, 3, 4).unwrap();
    assert_eq!(layer_shell.version, 4);

    let reqs = session.create_surface();
    let surface_id = match reqs[0] {
        Request::CreateSurface { surface_id } => surface_id,
        _ => panic!("expected a surface creation request"),
    };
    let reqs = session.attach_shell(all_edges_layer());
    let shell_id = match reqs[0] {
        Request::CreateShellSurface { shell_id, surface_id: sid, .. } => {
            assert_eq!(sid, surface_id);
            shell_id
        },
        _ => panic!("expected a shell surface creation request"),
    };
    let reqs = session.initial_commit();
    assert_eq!(reqs, vec![Request::Commit { surface_id }]);
    assert_eq!(session.surface.unwrap().state, SurfaceState::AwaitingConfigure);

    let reqs = session.dispatch(shell_id, EventPayload::Configure { serial: 7 });
    assert_eq!(reqs, vec![Request::AckConfigure { shell_id, serial: 7 }]);
    assert_eq!(count_acks(&reqs), 1);
    assert_eq!(session.surface.unwrap().state, SurfaceState::Configured);

    let (pool, reqs) = session.create_pool(320 * 240 * 4);
    assert_eq!(reqs, vec![Request::CreatePool { pool_id: pool.id, size: 320 * 240 * 4 }]);
    let geometry = BufferGeometry {
        offset: 0,
        width: 320,
        height: 240,
        stride: 1280,
        format: PixelFormat::Argb8888,
    };
    let (buffer, reqs) = session.create_buffer(&pool, geometry).unwrap();
    assert_eq!(
        reqs,
        vec![Request::CreateBuffer { buffer_id: buffer.id, pool_id: pool.id, geometry }]
    );
    assert_eq!(shm.interface, Interface::Shm);

    session.hold_buffer(buffer);
    let reqs = session.present();
    assert_eq!(
        reqs,
        vec![
            Request::Attach { surface_id, buffer_id: buffer.id },
            Request::Commit { surface_id },
        ]
    );
    assert_eq!(session.surface.unwrap().state, SurfaceState::Presenting);
}

fn configured_session() -> (Session, u32, u32) {
    let mut session = Session::new();
    let _ = session.begin_discovery();
    session.dispatch(2, EventPayload::GlobalAnnounce { name: 1, interface: Interface::Compositor, version: 5 });
    session.dispatch(2, EventPayload::GlobalAnnounce { name: 2, interface: Interface::LayerShell, version: 4 });
    session.dispatch(3, EventPayload::SyncDone);
    session.bind(Interface::Compositor, 1, 5).unwrap();
    session.bind(Interface::LayerShell, 3, 4).unwrap();
    let reqs = session.create_surface();
    let surface_id = match reqs[0] {
        Request::CreateSurface { surface_id } => surface_id,
        _ => panic!("expected a surface creation request"),
    };
    let reqs = session.attach_shell(all_edges_layer());
    let shell_id = match reqs[0] {
        Request::CreateShellSurface { shell_id, .. } => shell_id,
        _ => panic!("expected a shell surface creation request"),
    };
    session.initial_commit();
    (session, surface_id, shell_id)
}

/// A configure that finds a held buffer acknowledges first, then attaches
/// and commits in the same burst of requests.
#[test]
fn configure_with_held_buffer_acks_then_attaches() {
    let (mut session, surface_id, shell_id) = configured_session();
    let buffer = waycore::BufferHandle {
        id: 99,
        geometry: BufferGeometry {
            offset: 0,
            width: 320,
            height: 240,
            stride: 1280,
            format: PixelFormat::Argb8888,
        },
    };
    session.hold_buffer(buffer);
    let reqs = session.dispatch(shell_id, EventPayload::Configure { serial: 11 });
    assert_eq!(
        reqs,
        vec![
            Request::AckConfigure { shell_id, serial: 11 },
            Request::Attach { surface_id, buffer_id: 99 },
            Request::Commit { surface_id },
        ]
    );
    assert_eq!(count_acks(&reqs), 1);
    assert_eq!(session.surface.unwrap().state, SurfaceState::Presenting);
}

/// Every later configure is acknowledged the same way, re-attaching the held
/// buffer, and the serial is echoed verbatim each time.
#[test]
fn reentrant_configure_reacks_with_its_own_serial() {
    let (mut session, _surface_id, shell_id) = configured_session();
    let first = session.dispatch(shell_id, EventPayload::Configure { serial: 5 });
    assert_eq!(first, vec![Request::AckConfigure { shell_id, serial: 5 }]);
    let second = session.dispatch(shell_id, EventPayload::Configure { serial: 1000 });
    assert_eq!(second, vec![Request::AckConfigure { shell_id, serial: 1000 }]);
}

/// Before the first configure has been acknowledged, none of the setup steps
/// ever issues an attach request, even with a buffer already held.
#[test]
fn no_attach_request_before_first_ack() {
    let mut session = Session::new();
    let mut all: Vec<Request> = Vec::new();
    all.extend(session.begin_discovery());
    session.dispatch(2, EventPayload::GlobalAnnounce { name: 1, interface: Interface::Compositor, version: 5 });
    session.dispatch(2, EventPayload::GlobalAnnounce { name: 2, interface: Interface::LayerShell, version: 4 });
    session.dispatch(3, EventPayload::SyncDone);
    session.bind(Interface::Compositor, 1, 5).unwrap();
    session.bind(Interface::LayerShell, 3, 4).unwrap();
    all.extend(session.create_surface());
    let buffer = waycore::BufferHandle {
        id: 42,
        geometry: BufferGeometry {
            offset: 0,
            width: 1,
            height: 1,
            stride: 4,
            format: PixelFormat::Argb8888,
        },
    };
    all.extend(session.attach_shell(all_edges_layer()));
    session.hold_buffer(buffer);
    all.extend(session.initial_commit());
    assert_eq!(count_attaches(&all), 0);
}

/// A ping is answered with exactly one pong carrying the identical serial,
/// in any state, every time.
#[test]
fn ping_answered_with_identical_serial() {
    let mut session = Session::new();
    let _ = session.begin_discovery();
    session.dispatch(2, EventPayload::GlobalAnnounce { name: 4, interface: Interface::WmBase, version: 2 });
    session.dispatch(3, EventPayload::SyncDone);
    let wm_base = session.bind(Interface::WmBase, 1, 2).unwrap();
    let reqs = session.dispatch(wm_base.id, EventPayload::Ping { serial: 314 });
    assert_eq!(reqs, vec![Request::Pong { serial: 314 }]);
    let reqs = session.dispatch(wm_base.id, EventPayload::Ping { serial: 315 });
    assert_eq!(reqs, vec![Request::Pong { serial: 315 }]);
}

/// Events addressed to an unknown id are dropped silently.
#[test]
fn unknown_id_is_dropped() {
    let mut session = Session::new();
    let before = session.clone();
    let reqs = session.dispatch(77, EventPayload::Ping { serial: 1 });
    assert!(reqs.is_empty());
    assert_eq!(session, before);
}

/// A configure addressed to a shell overlay the surface does not hold is
/// dropped.
#[test]
fn configure_for_foreign_overlay_is_dropped() {
    let (mut session, _surface_id, shell_id) = configured_session();
    // the surface object itself is not the shell overlay
    let reqs = session.dispatch(shell_id - 1, EventPayload::Configure { serial: 3 });
    assert!(reqs.is_empty());
    assert_eq!(session.surface.unwrap().state, SurfaceState::AwaitingConfigure);
}

/// The windowed shell runs the same handshake: overlay, initial commit,
/// configure acknowledged with its serial, and the liveness ping answered in
/// every state along the way.
#[test]
fn windowed_shell_handshake_and_ping() {
    let mut session = Session::new();
    let _ = session.begin_discovery();
    session.dispatch(2, EventPayload::GlobalAnnounce { name: 1, interface: Interface::Compositor, version: 5 });
    session.dispatch(2, EventPayload::GlobalAnnounce { name: 4, interface: Interface::WmBase, version: 2 });
    session.dispatch(3, EventPayload::SyncDone);
    session.bind(Interface::Compositor, 1, 5).unwrap();
    let wm_base = session.bind(Interface::WmBase, 1, 2).unwrap();
    let reqs = session.create_surface();
    let surface_id = match reqs[0] {
        Request::CreateSurface { surface_id } => surface_id,
        _ => panic!("expected a surface creation request"),
    };
    let reqs = session.attach_shell(ShellChoice::Windowed);
    let shell_id = match reqs[0] {
        Request::CreateShellSurface { shell_id, choice: ShellChoice::Windowed, .. } => shell_id,
        _ => panic!("expected a windowed shell surface creation request"),
    };
    let reqs = session.dispatch(wm_base.id, EventPayload::Ping { serial: 40 });
    assert_eq!(reqs, vec![Request::Pong { serial: 40 }]);
    session.initial_commit();
    let reqs = session.dispatch(shell_id, EventPayload::Configure { serial: 41 });
    assert_eq!(reqs, vec![Request::AckConfigure { shell_id, serial: 41 }]);
    let reqs = session.dispatch(wm_base.id, EventPayload::Ping { serial: 42 });
    assert_eq!(reqs, vec![Request::Pong { serial: 42 }]);
    assert_eq!(session.surface.unwrap().state, SurfaceState::Configured);
    let _ = surface_id;
}

/// A payload of the wrong sort for its object is dropped: a configure
/// addressed to the seat changes nothing.
#[test]
fn mismatched_payload_is_dropped() {
    let mut session = Session::new();
    let _ = session.begin_discovery();
    session.dispatch(2, EventPayload::GlobalAnnounce { name: 5, interface: Interface::Seat, version: 1 });
    session.dispatch(3, EventPayload::SyncDone);
    let seat = session.bind(Interface::Seat, 1, 1).unwrap();
    let before = session.clone();
    let reqs = session.dispatch(seat.id, EventPayload::Configure { serial: 4 });
    assert!(reqs.is_empty());
    assert_eq!(session, before);
}

/// Discovery is a snapshot, not an end of stream: globals announced after
/// the sync barrier completes are still recorded.
#[test]
fn globals_announced_after_the_barrier_are_recorded() {
    let mut session = Session::new();
    let reqs = session.begin_discovery();
    assert!(matches!(reqs[0], Request::GetRegistry { .. }));
    assert!(matches!(reqs[1], Request::Sync { .. }));
    session.dispatch(3, EventPayload::SyncDone);
    assert!(session.discovery_complete());
    session.dispatch(2, EventPayload::GlobalAnnounce { name: 8, interface: Interface::Shm, version: 1 });
    assert_eq!(session.globals.len(), 1);
    assert!(session.bind(Interface::Shm, 1, 1).is_ok());
}

/// An announced output is bound at once, with a fresh id per output, and
/// duplicate interface names are all retained.
#[test]
fn announced_outputs_are_bound_and_retained() {
    let mut session = Session::new();
    let _ = session.begin_discovery();
    let first = session.dispatch(2, EventPayload::GlobalAnnounce { name: 20, interface: Interface::Output, version: 3 });
    let second = session.dispatch(2, EventPayload::GlobalAnnounce { name: 21, interface: Interface::Output, version: 3 });
    let first_id = match first[..] {
        [Request::BindGlobal { proxy }] => {
            assert_eq!(proxy.name, 20);
            proxy.id
        },
        _ => panic!("expected a bind request for the output"),
    };
    match second[..] {
        [Request::BindGlobal { proxy }] => {
            assert_eq!(proxy.name, 21);
            assert_ne!(proxy.id, first_id);
        },
        _ => panic!("expected a bind request for the output"),
    }
    assert_eq!(session.outputs.len(), 2);
    assert_eq!(session.globals.len(), 2);
}

/// Explicit teardown from a live state issues the destroy request and ends
/// the lifecycle.
#[test]
fn destroy_ends_the_lifecycle() {
    let (mut session, surface_id, _shell_id) = configured_session();
    let mut lifecycle = session.surface.unwrap();
    let reqs = lifecycle.destroy();
    assert_eq!(reqs, vec![Request::DestroySurface { surface_id }]);
    assert_eq!(lifecycle.state, SurfaceState::Destroyed);
}
