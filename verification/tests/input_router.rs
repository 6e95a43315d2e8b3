use waycore::EventPayload;
use waycore::Interface;
use waycore::Request;
use waycore::Session;
use waycore::KEYBOARD_CAPABILITY;
use waycore::STOP_KEY;

const POINTER_CAPABILITY: u32 = 1;

fn session_with_seat() -> (Session, u32) {
    let mut session = Session::new();
    let _ = session.begin_discovery();
    session.dispatch(2, EventPayload::GlobalAnnounce { name: 5, interface: Interface::Seat, version: 1 });
    session.dispatch(3, EventPayload::SyncDone);
    let seat = session.bind(Interface::Seat, 1, 1).unwrap();
    (session, seat.id)
}

/// The keyboard scenario: the seat announces capabilities including the
/// keyboard bit, the keyboard sub-object is requested, a key event with the
/// stop code arrives, and the running flag goes from true to false, so the
/// dispatch loop exits after the current cycle.
#[test]
fn keyboard_stop_key_ends_the_loop() {
    let (mut session, seat_id) = session_with_seat();
    assert!(session.should_run());
    let reqs = session.dispatch(
        seat_id,
        EventPayload::SeatCapabilities { capabilities: KEYBOARD_CAPABILITY | POINTER_CAPABILITY },
    );
    let keyboard_id = match reqs[..] {
        [Request::GetKeyboard { keyboard_id, seat_id: sid }] => {
            assert_eq!(sid, seat_id);
            keyboard_id
        },
        _ => panic!("expected exactly one keyboard request"),
    };
    let reqs = session.dispatch(keyboard_id, EventPayload::Key { key: 8, pressed: true });
    assert!(reqs.is_empty());
    assert!(session.should_run());
    let reqs = session.dispatch(keyboard_id, EventPayload::Key { key: STOP_KEY, pressed: true });
    assert!(reqs.is_empty());
    assert!(!session.should_run());
}

/// The negative scenario: a capability announcement without the keyboard bit
/// never leads to a keyboard request.
#[test]
fn no_keyboard_bit_no_keyboard_request() {
    let (mut session, seat_id) = session_with_seat();
    let reqs = session.dispatch(
        seat_id,
        EventPayload::SeatCapabilities { capabilities: POINTER_CAPABILITY },
    );
    assert!(reqs.is_empty());
    let reqs = session.dispatch(seat_id, EventPayload::SeatCapabilities { capabilities: 0 });
    assert!(reqs.is_empty());
    assert!(!session.input.has_keyboard);
}

/// Announcing the keyboard bit twice requests the sub-object only once.
#[test]
fn keyboard_requested_only_when_newly_set() {
    let (mut session, seat_id) = session_with_seat();
    let first = session.dispatch(
        seat_id,
        EventPayload::SeatCapabilities { capabilities: KEYBOARD_CAPABILITY },
    );
    assert_eq!(first.len(), 1);
    let second = session.dispatch(
        seat_id,
        EventPayload::SeatCapabilities { capabilities: KEYBOARD_CAPABILITY },
    );
    assert!(second.is_empty());
}

/// Clearing the keyboard bit releases the sub-object, and its id routes
/// nothing afterwards.
#[test]
fn clearing_the_bit_releases_the_keyboard() {
    let (mut session, seat_id) = session_with_seat();
    let reqs = session.dispatch(
        seat_id,
        EventPayload::SeatCapabilities { capabilities: KEYBOARD_CAPABILITY },
    );
    let keyboard_id = match reqs[..] {
        [Request::GetKeyboard { keyboard_id, .. }] => keyboard_id,
        _ => panic!("expected exactly one keyboard request"),
    };
    let reqs = session.dispatch(seat_id, EventPayload::SeatCapabilities { capabilities: 0 });
    assert_eq!(reqs, vec![Request::ReleaseKeyboard { keyboard_id }]);
    let reqs = session.dispatch(keyboard_id, EventPayload::Key { key: STOP_KEY, pressed: true });
    assert!(reqs.is_empty());
    assert!(session.should_run());
}

/// A key other than the stop key leaves the loop running; the stop key works
/// whether pressed or released: the router ignores the direction.
#[test]
fn only_the_stop_key_stops() {
    let (mut session, seat_id) = session_with_seat();
    let reqs = session.dispatch(
        seat_id,
        EventPayload::SeatCapabilities { capabilities: KEYBOARD_CAPABILITY },
    );
    let keyboard_id = match reqs[..] {
        [Request::GetKeyboard { keyboard_id, .. }] => keyboard_id,
        _ => panic!("expected exactly one keyboard request"),
    };
    session.dispatch(keyboard_id, EventPayload::Key { key: 30, pressed: true });
    session.dispatch(keyboard_id, EventPayload::Key { key: 30, pressed: false });
    assert!(session.should_run());
    session.dispatch(keyboard_id, EventPayload::Key { key: STOP_KEY, pressed: false });
    assert!(!session.should_run());
}
