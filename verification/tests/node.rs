use shapechangeable_display::coordinate::GlobalLocation;
use shapechangeable_display::frame::{encode_packet, FrameError};
use shapechangeable_display::header::Header;
use shapechangeable_display::localnet::LocalNetworkLocation;
use shapechangeable_display::node::{NetworkNode, PollOutcome};
use shapechangeable_display::packet::Packet;
use shapechangeable_display::protocol::JITTER_RANGE;

// Local network 5, location up right, not the root.
const NODE: u16 = 0x002A;
// Local network 5, location down left.
const NEIGHBOUR: u16 = 0x002C;
// Local network 6, location up left.
const STRANGER: u16 = 0x0030;
// Local network 0, location up left, the root.
const ROOT_NODE: u16 = 0x0001;

fn confirmation_for_node() -> Packet {
    let parent = GlobalLocation::from_path(vec![LocalNetworkLocation::DownRight]).unwrap();
    Packet::make_confirm_coordinate_packet_by_confirmed_node(ROOT_NODE, NODE, (3, 2), parent)
}

fn confirmed_node() -> NetworkNode {
    let mut node = NetworkNode::new(NODE);
    node.receive(&encode_packet(&confirmation_for_node()));
    assert_eq!(
        node.poll_with_sample(0),
        PollOutcome::Handled {
            header: Header::HConfirmCoordinate,
            from: ROOT_NODE,
            delay: 0,
            replied: false
        }
    );
    node
}

#[test]
fn new_node_knows_its_identity_only() {
    let mut node = NetworkNode::new(NODE);
    assert_eq!(node.get_ip_address(), NODE);
    assert_eq!(node.get_local_location(), LocalNetworkLocation::UpRight);
    assert!(!node.is_confirmed());
    assert_eq!(node.get_coordinate(), None);
    assert_eq!(node.get_global_location(), None);
    assert_eq!(node.take_outgoing(), Vec::<u8>::new());
    assert_eq!(node.poll_with_sample(5), PollOutcome::Idle);
}

#[test]
fn root_node_is_confirmed_at_the_origin() {
    let node = NetworkNode::new(ROOT_NODE);
    assert_eq!(node.get_ip_address(), ROOT_NODE);
    assert_eq!(node.get_local_location(), LocalNetworkLocation::UpLeft);
    assert!(node.is_confirmed());
    assert_eq!(node.get_coordinate(), Some((0, 0)));
    assert_eq!(node.get_global_location(), Some(GlobalLocation::origin()));
}

#[test]
fn poll_ignores_check_connection_from_own_localnet() {
    let mut node = NetworkNode::new(NODE);
    node.receive(&encode_packet(&Packet::make_check_connection_packet(NEIGHBOUR)));
    assert_eq!(
        node.poll_with_sample(1234),
        PollOutcome::Handled {
            header: Header::HCheckConnection,
            from: NEIGHBOUR,
            delay: 234,
            replied: false
        }
    );
    assert_eq!(node.take_outgoing(), Vec::<u8>::new());
    assert!(!node.is_confirmed());
    assert_eq!(node.poll_with_sample(1234), PollOutcome::Idle);
}

#[test]
fn poll_answers_check_connection_from_other_localnet_with_one_frame() {
    let mut node = NetworkNode::new(NODE);
    node.receive(&encode_packet(&Packet::make_check_connection_packet(STRANGER)));
    assert_eq!(
        node.poll_with_sample(4_000_000_999),
        PollOutcome::Handled {
            header: Header::HCheckConnection,
            from: STRANGER,
            delay: 999,
            replied: true
        }
    );
    assert_eq!(
        node.take_outgoing(),
        vec![0x7E, 0x01, 0x00, 0x2A, 0xFF, 0xFF, 0x00, 0x29]
    );
    assert_eq!(node.take_outgoing(), Vec::<u8>::new());
    assert_eq!(node.poll_with_sample(0), PollOutcome::Idle);
    assert_eq!(node.take_outgoing(), Vec::<u8>::new());
}

#[test]
fn poll_lets_a_confirmed_node_answer_a_request() {
    let mut node = confirmed_node();
    node.receive(&encode_packet(&Packet::make_request_confirmed_coordinate_packet(NEIGHBOUR)));
    assert_eq!(
        node.poll_with_sample(2500),
        PollOutcome::Handled {
            header: Header::HRequestConfirmedCoordinate,
            from: NEIGHBOUR,
            delay: 500,
            replied: true
        }
    );
    let path = GlobalLocation::from_path(vec![
        LocalNetworkLocation::DownRight,
        LocalNetworkLocation::UpRight,
    ])
    .unwrap();
    let expected =
        Packet::make_confirm_coordinate_packet_by_confirmed_node(NODE, NEIGHBOUR, (7, 5), path);
    assert_eq!(node.take_outgoing(), encode_packet(&expected));
}

#[test]
fn poll_keeps_an_unconfirmed_node_quiet_on_a_request() {
    let mut node = NetworkNode::new(NODE);
    node.receive(&encode_packet(&Packet::make_request_confirmed_coordinate_packet(STRANGER)));
    assert_eq!(
        node.poll_with_sample(7),
        PollOutcome::Handled {
            header: Header::HRequestConfirmedCoordinate,
            from: STRANGER,
            delay: 7,
            replied: false
        }
    );
    assert_eq!(node.take_outgoing(), Vec::<u8>::new());
    assert!(!node.is_confirmed());
}

#[test]
fn poll_confirms_a_node_once() {
    let mut node = confirmed_node();
    assert!(node.is_confirmed());
    assert_eq!(node.get_coordinate(), Some((7, 5)));
    let path = GlobalLocation::from_path(vec![
        LocalNetworkLocation::DownRight,
        LocalNetworkLocation::UpRight,
    ])
    .unwrap();
    assert_eq!(node.get_global_location(), Some(path.clone()));
    assert_eq!(node.take_outgoing(), Vec::<u8>::new());

    let other = Packet::make_confirm_coordinate_packet_by_confirmed_node(
        STRANGER,
        NODE,
        (-9, 9),
        GlobalLocation::origin(),
    );
    node.receive(&encode_packet(&other));
    node.receive(&encode_packet(&other));
    for _ in 0..2 {
        assert_eq!(
            node.poll_with_sample(1),
            PollOutcome::Handled {
                header: Header::HConfirmCoordinate,
                from: STRANGER,
                delay: 1,
                replied: false
            }
        );
        assert_eq!(node.get_coordinate(), Some((7, 5)));
        assert_eq!(node.get_global_location(), Some(path.clone()));
        assert_eq!(node.take_outgoing(), Vec::<u8>::new());
    }
}

#[test]
fn poll_leaves_an_unknown_header_alone() {
    let unknown = Packet::make_unknown_packet(0xEE, STRANGER, NODE, vec![9; 10]).unwrap();
    let mut node = NetworkNode::new(NODE);
    node.receive(&encode_packet(&unknown));
    assert_eq!(
        node.poll_with_sample(1001),
        PollOutcome::Handled {
            header: Header::HUnknown(0xEE),
            from: STRANGER,
            delay: 1,
            replied: false
        }
    );
    assert_eq!(node.take_outgoing(), Vec::<u8>::new());
    assert!(!node.is_confirmed());

    let mut confirmed = confirmed_node();
    confirmed.receive(&encode_packet(&unknown));
    assert_eq!(
        confirmed.poll_with_sample(1001),
        PollOutcome::Handled {
            header: Header::HUnknown(0xEE),
            from: STRANGER,
            delay: 1,
            replied: false
        }
    );
    assert_eq!(confirmed.take_outgoing(), Vec::<u8>::new());
    assert_eq!(confirmed.get_coordinate(), Some((7, 5)));
}

#[test]
fn poll_flushes_after_an_error_and_reads_on() {
    let mut node = NetworkNode::new(NODE);
    node.receive(&[0x00, 0x7E, 0x01]);
    assert_eq!(
        node.poll_with_sample(0),
        PollOutcome::Desynchronized(FrameError::BadDelimiter)
    );
    assert_eq!(node.poll_with_sample(0), PollOutcome::Idle);
    node.receive(&encode_packet(&Packet::make_check_connection_packet(STRANGER)));
    assert_eq!(
        node.poll_with_sample(0),
        PollOutcome::Handled {
            header: Header::HCheckConnection,
            from: STRANGER,
            delay: 0,
            replied: true
        }
    );
    assert_eq!(node.poll_with_sample(0), PollOutcome::Idle);
    assert_eq!(
        node.take_outgoing(),
        encode_packet(&Packet::make_check_connection_packet(NODE))
    );
}

#[test]
fn get_packet_and_flush_all_recover_from_two_errors() {
    let mut node = NetworkNode::new(NODE);
    node.receive(&[0x7E, 0x01, 0x00, 0x09, 0xFF, 0xFF, 0x07]);
    assert_eq!(node.get_packet(), Err(FrameError::MalformedLength));
    assert_eq!(node.get_packet(), Err(FrameError::MalformedLength));
    node.flush_all();
    node.receive(&encode_packet(&confirmation_for_node()));
    assert_eq!(node.get_packet(), Ok(Some(confirmation_for_node())));
    assert_eq!(node.get_packet(), Ok(None));
    // Reading a packet is not acting on it.
    assert!(!node.is_confirmed());
}

#[test]
fn send_queues_frames_in_order() {
    let mut node = NetworkNode::new(NODE);
    node.send_check_connection();
    node.send_request_confirmed_coordinate();
    node.send(&confirmation_for_node());
    let mut expected = vec![0x7E, 0x01, 0x00, 0x2A, 0xFF, 0xFF, 0x00, 0x29];
    expected.extend_from_slice(&[0x7E, 0x02, 0x00, 0x2A, 0xFF, 0xFF, 0x00, 0x2A]);
    expected.extend_from_slice(&encode_packet(&confirmation_for_node()));
    assert_eq!(node.take_outgoing(), expected);
    assert_eq!(node.take_outgoing(), Vec::<u8>::new());
}

#[test]
fn poll_draws_a_delay_below_the_jitter_range() {
    for _ in 0..200 {
        let mut node = NetworkNode::new(NODE);
        node.receive(&encode_packet(&Packet::make_check_connection_packet(STRANGER)));
        match node.poll() {
            PollOutcome::Handled { header, from, delay, replied } => {
                assert_eq!(header, Header::HCheckConnection);
                assert_eq!(from, STRANGER);
                assert!(delay < JITTER_RANGE);
                assert!(replied);
            }
            other => panic!("not handled: {:?}", other),
        }
        assert_eq!(
            node.take_outgoing(),
            encode_packet(&Packet::make_check_connection_packet(NODE))
        );
    }
}

#[test]
fn poll_without_bytes_is_idle() {
    let mut node = NetworkNode::new(ROOT_NODE);
    assert_eq!(node.poll(), PollOutcome::Idle);
    node.receive(&[0x7E, 0x02, 0x00]);
    assert_eq!(node.poll(), PollOutcome::Idle);
}

#[test]
fn two_nodes_agree_on_coordinates() {
    // The root and a node of another local network, wired back to back.
    let mut root = NetworkNode::new(ROOT_NODE);
    let mut node = NetworkNode::new(0x002E);
    node.send_request_confirmed_coordinate();
    root.receive(&node.take_outgoing());
    assert_eq!(
        root.poll_with_sample(42),
        PollOutcome::Handled {
            header: Header::HRequestConfirmedCoordinate,
            from: 0x002E,
            delay: 42,
            replied: true
        }
    );
    node.receive(&root.take_outgoing());
    assert_eq!(
        node.poll_with_sample(43),
        PollOutcome::Handled {
            header: Header::HConfirmCoordinate,
            from: ROOT_NODE,
            delay: 43,
            replied: false
        }
    );
    assert_eq!(node.get_coordinate(), Some((1, 0)));
    assert_eq!(
        node.get_global_location(),
        Some(GlobalLocation::from_path(vec![LocalNetworkLocation::DownRight]).unwrap())
    );
}
