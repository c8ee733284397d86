use shapechangeable_display::coordinate::{GlobalLocation, MAX_DEPTH};
use shapechangeable_display::header::Header;
use shapechangeable_display::localnet::LocalNetworkLocation;
use shapechangeable_display::packet::{Packet, Payload};
use shapechangeable_display::protocol::{
    jitter_delay, CoordinateState, ProtocolEngine, JITTER_RANGE,
};

// Local network 5, location up right, not the root.
const NODE: u16 = 0x002A;
// Local network 5, location down left.
const NEIGHBOUR: u16 = 0x002C;
// Local network 6, location up left.
const STRANGER: u16 = 0x0030;
// Local network 0, location up left, the root.
const ROOT_NODE: u16 = 0x0001;

fn confirmed_engine() -> ProtocolEngine {
    let mut engine = ProtocolEngine::new(NODE);
    let parent = GlobalLocation::from_path(vec![LocalNetworkLocation::DownRight]).unwrap();
    let confirm =
        Packet::make_confirm_coordinate_packet_by_confirmed_node(ROOT_NODE, NODE, (3, 2), parent);
    assert_eq!(engine.react(&confirm), None);
    engine
}

fn state_at_7_5() -> CoordinateState {
    CoordinateState::Confirmed {
        coordinate: (7, 5),
        global_location: GlobalLocation::from_path(vec![
            LocalNetworkLocation::DownRight,
            LocalNetworkLocation::UpRight,
        ])
        .unwrap(),
    }
}

#[test]
fn root_starts_confirmed_at_the_origin() {
    let engine = ProtocolEngine::new(ROOT_NODE);
    assert_eq!(engine.id(), ROOT_NODE);
    assert!(engine.is_confirmed());
    assert_eq!(
        *engine.state(),
        CoordinateState::Confirmed { coordinate: (0, 0), global_location: GlobalLocation::origin() }
    );
}

#[test]
fn other_nodes_start_unconfirmed() {
    let engine = ProtocolEngine::new(NODE);
    assert_eq!(engine.id(), NODE);
    assert!(!engine.is_confirmed());
    assert_eq!(*engine.state(), CoordinateState::Unconfirmed);
}

#[test]
fn check_connection_from_own_localnet_is_ignored() {
    let mut engine = ProtocolEngine::new(NODE);
    assert_eq!(engine.react(&Packet::make_check_connection_packet(NEIGHBOUR)), None);
    assert_eq!(*engine.state(), CoordinateState::Unconfirmed);
    // A node hears its own announcements too.
    assert_eq!(engine.react(&Packet::make_check_connection_packet(NODE)), None);

    let mut confirmed = confirmed_engine();
    assert_eq!(confirmed.react(&Packet::make_check_connection_packet(NEIGHBOUR)), None);
    assert_eq!(*confirmed.state(), state_at_7_5());
}

#[test]
fn check_connection_from_other_localnet_is_answered_once() {
    let mut engine = ProtocolEngine::new(NODE);
    let reply = engine.react(&Packet::make_check_connection_packet(STRANGER));
    assert_eq!(reply, Some(Packet::make_check_connection_packet(NODE)));
    assert_eq!(*engine.state(), CoordinateState::Unconfirmed);

    let mut confirmed = confirmed_engine();
    let reply = confirmed.react(&Packet::make_check_connection_packet(STRANGER));
    assert_eq!(reply, Some(Packet::make_check_connection_packet(NODE)));
    assert_eq!(*confirmed.state(), state_at_7_5());
}

#[test]
fn confirmed_node_answers_a_request_to_the_requester() {
    let mut root = ProtocolEngine::new(ROOT_NODE);
    let reply = root
        .react(&Packet::make_request_confirmed_coordinate_packet(STRANGER))
        .unwrap();
    assert_eq!(reply.get_header(), Header::HConfirmCoordinate);
    assert_eq!(reply.get_global_from(), ROOT_NODE);
    assert_eq!(reply.get_global_to(), STRANGER);
    assert_eq!(
        *reply.get_payload(),
        Payload::Placement { coordinate: (0, 0), global_location: GlobalLocation::origin() }
    );
    assert!(root.is_confirmed());

    let mut confirmed = confirmed_engine();
    let reply = confirmed.react(&Packet::make_request_confirmed_coordinate_packet(NEIGHBOUR));
    let path = GlobalLocation::from_path(vec![
        LocalNetworkLocation::DownRight,
        LocalNetworkLocation::UpRight,
    ])
    .unwrap();
    assert_eq!(
        reply,
        Some(Packet::make_confirm_coordinate_packet_by_confirmed_node(
            NODE,
            NEIGHBOUR,
            (7, 5),
            path
        ))
    );
    assert_eq!(*confirmed.state(), state_at_7_5());
}

#[test]
fn unconfirmed_node_does_not_answer_a_request() {
    let mut engine = ProtocolEngine::new(NODE);
    assert_eq!(engine.react(&Packet::make_request_confirmed_coordinate_packet(STRANGER)), None);
    assert_eq!(engine.react(&Packet::make_request_confirmed_coordinate_packet(NEIGHBOUR)), None);
    assert_eq!(*engine.state(), CoordinateState::Unconfirmed);
}

#[test]
fn confirmation_places_an_unconfirmed_node() {
    let engine = confirmed_engine();
    assert!(engine.is_confirmed());
    assert_eq!(*engine.state(), state_at_7_5());
    assert_eq!(engine.state().clone(), state_at_7_5());
}

#[test]
fn confirmation_from_the_root_places_each_location() {
    let expected = [
        (0x0028, (0, 1), LocalNetworkLocation::UpLeft),
        (0x002A, (1, 1), LocalNetworkLocation::UpRight),
        (0x002C, (0, 0), LocalNetworkLocation::DownLeft),
        (0x002E, (1, 0), LocalNetworkLocation::DownRight),
    ];
    for (id, coordinate, location) in expected {
        let mut engine = ProtocolEngine::new(id);
        let confirm = Packet::make_confirm_coordinate_packet_by_confirmed_node(
            ROOT_NODE,
            id,
            (0, 0),
            GlobalLocation::origin(),
        );
        assert_eq!(engine.react(&confirm), None);
        assert_eq!(
            *engine.state(),
            CoordinateState::Confirmed {
                coordinate,
                global_location: GlobalLocation::from_path(vec![location]).unwrap()
            }
        );
    }
}

#[test]
fn confirmed_node_ignores_further_confirmations() {
    let mut engine = confirmed_engine();
    let other = Packet::make_confirm_coordinate_packet_by_confirmed_node(
        STRANGER,
        NODE,
        (100, -100),
        GlobalLocation::origin(),
    );
    assert_eq!(engine.react(&other), None);
    assert_eq!(*engine.state(), state_at_7_5());
    assert_eq!(engine.react(&other), None);
    assert_eq!(*engine.state(), state_at_7_5());

    let mut root = ProtocolEngine::new(ROOT_NODE);
    assert_eq!(root.react(&other), None);
    assert_eq!(
        *root.state(),
        CoordinateState::Confirmed { coordinate: (0, 0), global_location: GlobalLocation::origin() }
    );
}

#[test]
fn confirmation_that_cannot_be_built_on_leaves_the_node_unconfirmed() {
    let mut engine = ProtocolEngine::new(NODE);
    let too_far = Packet::make_confirm_coordinate_packet_by_confirmed_node(
        STRANGER,
        NODE,
        (16384, 0),
        GlobalLocation::origin(),
    );
    assert_eq!(engine.react(&too_far), None);
    assert_eq!(*engine.state(), CoordinateState::Unconfirmed);

    let too_deep = Packet::make_confirm_coordinate_packet_by_confirmed_node(
        STRANGER,
        NODE,
        (0, 0),
        GlobalLocation::from_path(vec![LocalNetworkLocation::UpLeft; MAX_DEPTH]).unwrap(),
    );
    assert_eq!(engine.react(&too_deep), None);
    assert_eq!(*engine.state(), CoordinateState::Unconfirmed);
}

#[test]
fn unknown_header_is_inert() {
    let unknown = Packet::make_unknown_packet(0x55, STRANGER, NODE, vec![1, 2, 3]).unwrap();
    let mut engine = ProtocolEngine::new(NODE);
    assert_eq!(engine.react(&unknown), None);
    assert_eq!(*engine.state(), CoordinateState::Unconfirmed);

    let mut confirmed = confirmed_engine();
    assert_eq!(confirmed.react(&unknown), None);
    assert_eq!(*confirmed.state(), state_at_7_5());
}

#[test]
fn jitter_is_the_sample_reduced_to_its_range() {
    assert_eq!(JITTER_RANGE, 1000);
    assert_eq!(jitter_delay(0), 0);
    assert_eq!(jitter_delay(999), 999);
    assert_eq!(jitter_delay(1000), 0);
    assert_eq!(jitter_delay(12345), 345);
    assert_eq!(jitter_delay(u32::MAX), 295);
}
