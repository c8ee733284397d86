//! One node of the display: the protocol engine and the codec of the bus.
//!
//! The node does not touch the bus itself. Its owner hands it the bytes that
//! arrived, lets it poll, waits for the delay that the poll names, and writes
//! the bytes that the node wants sent.

use crate::codec::{read_remainder, read_result, PacketCodec};
use crate::coordinate::GlobalLocation;
use crate::frame::{frame_of, parse, FrameError, Parsed};
use crate::header::Header;
use crate::id_utils::{get_localnet_location, location_of_id, Coordinate, Id};
use crate::localnet::LocalNetworkLocation;
use crate::packet::{
    check_connection_packet, request_confirmed_coordinate_packet, Packet, PacketView,
};
use crate::protocol::{
    initial_state, jitter_delay, reaction, CoordinateState, ProtocolEngine, StateView,
    JITTER_RANGE,
};
use vstd::prelude::*;

verus! {

/// A node of the display.
pub struct NetworkNode {
    engine: ProtocolEngine,
    codec: PacketCodec,
}

/// A node as a mathematical value.
pub struct NodeView {
    /// The identifier of the node.
    pub id: Id,
    /// What the node knows of its placement.
    pub state: StateView,
    /// The bytes that arrived and are not yet read.
    pub received: Seq<u8>,
    /// The bytes that wait to be written to the bus.
    pub outgoing: Seq<u8>,
}

/// How one poll ended.
#[derive(Clone, Copy, Debug, PartialEq, Eq, Structural)]
pub enum PollOutcome {
    /// No whole frame has arrived.
    Idle,
    /// The received bytes were not a frame. They are thrown away, and the
    /// node reads on with whatever arrives next.
    Desynchronized(FrameError),
    /// A packet of kind `header`, sent by the node at `from`, was read and
    /// acted on. The owner waits `delay` milliseconds before it writes
    /// anything to the bus; `replied` says whether the node has put a reply
    /// among the outgoing bytes.
    Handled { header: Header, from: Id, delay: u32, replied: bool },
}

/// A node after a poll, and how the poll ended.
pub struct Step {
    pub node: NodeView,
    pub outcome: PollOutcome,
}

/// The frame of a reply, or no bytes where there is no reply.
pub open spec fn reply_bytes(reply: Option<PacketView>) -> Seq<u8> {
    match reply {
        Some(packet) => frame_of(packet),
        None => Seq::empty(),
    }
}

/// One poll of `node`, with `sample` as the random number of the jitter.
///
/// - While the frame at the front of the received bytes is incomplete,
///   nothing happens.
/// - Bytes that are not a frame are thrown away, all of them.
/// - A whole frame leaves the received bytes. The node reacts to its packet
///   as `reaction` says, and the frame of the reply, if there is one, goes
///   behind the outgoing bytes. The delay is the sample reduced to the range
///   of the jitter.
pub open spec fn poll_step(node: NodeView, sample: u32) -> Step {
    match parse(node.received) {
        Parsed::Incomplete => Step { node, outcome: PollOutcome::Idle },
        Parsed::Invalid(error) => Step {
            node: NodeView { received: Seq::empty(), ..node },
            outcome: PollOutcome::Desynchronized(error),
        },
        Parsed::Frame { packet, length } => Step {
            node: NodeView {
                id: node.id,
                state: reaction(node.id, node.state, packet).state,
                received: node.received.subrange(length as int, node.received.len() as int),
                outgoing: node.outgoing + reply_bytes(reaction(node.id, node.state, packet).reply),
            },
            outcome: PollOutcome::Handled {
                header: packet.header,
                from: packet.from,
                delay: (sample % JITTER_RANGE) as u32,
                replied: reaction(node.id, node.state, packet).reply is Some,
            },
        },
    }
}

/// Draws a number with `rand::random`, from the random generator of the
/// thread. Nothing is claimed of the number. The first draw in a thread
/// seeds the generator from the operating system, and panics where the
/// system has no entropy to give.
#[verifier::external_body]
fn random_sample() -> (sample: u32) {
    rand::random::<u32>()
}

impl View for NetworkNode {
    type V = NodeView;

    closed spec fn view(&self) -> NodeView {
        NodeView {
            id: self.engine@.id,
            state: self.engine@.state,
            received: self.codec@.received,
            outgoing: self.codec@.outgoing,
        }
    }
}

impl NetworkNode {
    /// The node with the given identifier, as it starts: the root confirmed
    /// at the origin, any other node unconfirmed, nothing received and
    /// nothing to send.
    pub fn new(id: Id) -> (node: NetworkNode)
        ensures
            node@ == (NodeView {
                id,
                state: initial_state(id),
                received: Seq::empty(),
                outgoing: Seq::empty(),
            }),
    {
        NetworkNode { engine: ProtocolEngine::new(id), codec: PacketCodec::new() }
    }

    /// The address of the node on the bus: its identifier, unchanged.
    pub fn get_ip_address(&self) -> (address: Id)
        ensures
            address == self@.id,
    {
        self.engine.id()
    }

    /// The location of the node inside its local network.
    pub fn get_local_location(&self) -> (location: LocalNetworkLocation)
        ensures
            location == location_of_id(self@.id),
    {
        get_localnet_location(self.engine.id())
    }

    /// Whether the node has its placement.
    pub fn is_confirmed(&self) -> (confirmed: bool)
        ensures
            confirmed == (self@.state is Confirmed),
    {
        self.engine.is_confirmed()
    }

    /// The grid position of the node, once it is confirmed.
    pub fn get_coordinate(&self) -> (coordinate: Option<Coordinate>)
        ensures
            coordinate == match self@.state {
                StateView::Confirmed { coordinate, path } => Some(coordinate),
                StateView::Unconfirmed => None,
            },
    {
        match self.engine.state() {
            CoordinateState::Confirmed { coordinate, .. } => Some(*coordinate),
            CoordinateState::Unconfirmed => None,
        }
    }

    /// The path of the node from the root, once it is confirmed.
    pub fn get_global_location(&self) -> (location: Option<GlobalLocation>)
        ensures
            match self@.state {
                StateView::Confirmed { coordinate, path } => location matches Some(l) && l@ == path,
                StateView::Unconfirmed => location is None,
            },
    {
        match self.engine.state() {
            CoordinateState::Confirmed { global_location, .. } => Some(global_location.clone()),
            CoordinateState::Unconfirmed => None,
        }
    }

    /// Takes in bytes that arrived on the bus.
    pub fn receive(&mut self, bytes: &[u8])
        ensures
            final(self)@ == (NodeView { received: old(self)@.received + bytes@, ..old(self)@ }),
    {
        self.codec.receive(bytes);
    }

    /// Reads the next packet from the received bytes, without acting on it.
    /// See `PacketCodec::try_read_packet`.
    pub fn get_packet(&mut self) -> (result: Result<Option<Packet>, FrameError>)
        ensures
            final(self)@ == (NodeView {
                received: read_remainder(old(self)@.received),
                ..old(self)@
            }),
            match read_result(old(self)@.received) {
                Ok(Some(packet)) => result matches Ok(Some(found)) && found@ == packet
                    && packet.wf(),
                Ok(None) => result matches Ok(None),
                Err(error) => result == Err::<Option<Packet>, FrameError>(error),
            },
    {
        self.codec.try_read_packet()
    }

    /// Throws away the received bytes.
    pub fn flush_all(&mut self)
        ensures
            final(self)@ == (NodeView { received: Seq::empty(), ..old(self)@ }),
    {
        self.codec.flush_receive_buffer();
    }

    /// Puts the frame of a packet behind the outgoing bytes.
    pub fn send(&mut self, packet: &Packet)
        ensures
            final(self)@ == (NodeView {
                outgoing: old(self)@.outgoing + frame_of(packet@),
                ..old(self)@
            }),
    {
        self.codec.send(packet);
    }

    /// Announces the node to everybody on the bus.
    pub fn send_check_connection(&mut self)
        ensures
            final(self)@ == (NodeView {
                outgoing: old(self)@.outgoing + frame_of(check_connection_packet(old(self)@.id)),
                ..old(self)@
            }),
    {
        let packet = Packet::make_check_connection_packet(self.engine.id());
        self.send(&packet);
    }

    /// Asks every confirmed node on the bus for its placement. An
    /// unconfirmed node does this once when it starts.
    pub fn send_request_confirmed_coordinate(&mut self)
        ensures
            final(self)@ == (NodeView {
                outgoing: old(self)@.outgoing + frame_of(
                    request_confirmed_coordinate_packet(old(self)@.id),
                ),
                ..old(self)@
            }),
    {
        let packet = Packet::make_request_confirmed_coordinate_packet(self.engine.id());
        self.send(&packet);
    }

    /// Hands over the bytes that wait to be written to the bus. None wait
    /// after that.
    pub fn take_outgoing(&mut self) -> (bytes: Vec<u8>)
        ensures
            bytes@ == old(self)@.outgoing,
            final(self)@ == (NodeView { outgoing: Seq::empty(), ..old(self)@ }),
    {
        self.codec.take_outgoing()
    }

    /// One poll, with `sample` as the random number of the jitter: see
    /// `poll_step`.
    pub fn poll_with_sample(&mut self, sample: u32) -> (outcome: PollOutcome)
        ensures
            (Step { node: final(self)@, outcome }) == poll_step(old(self)@, sample),
    {
        match self.codec.try_read_packet() {
            Ok(None) => PollOutcome::Idle,
            Err(error) => {
                self.codec.flush_receive_buffer();
                PollOutcome::Desynchronized(error)
            },
            Ok(Some(packet)) => {
                let delay = jitter_delay(sample);
                let header = packet.get_header();
                let from = packet.get_global_from();
                let reply = self.engine.react(&packet);
                match reply {
                    Some(answer) => {
                        self.send(&answer);
                        PollOutcome::Handled { header, from, delay, replied: true }
                    },
                    None => {
                        PollOutcome::Handled { header, from, delay, replied: false }
                    },
                }
            },
        }
    }

    /// One poll. The random number of the jitter is drawn here, so the delay
    /// is some number below `JITTER_RANGE`; all else is as `poll_step` says.
    /// An owner that brings its own random number calls `poll_with_sample`.
    pub fn poll(&mut self) -> (outcome: PollOutcome)
        ensures
            exists|sample: u32|
                (Step { node: final(self)@, outcome }) == #[trigger] poll_step(old(self)@, sample),
            outcome matches PollOutcome::Handled { header, from, delay, replied } ==> delay
                < JITTER_RANGE,
    {
        let sample = random_sample();
        self.poll_with_sample(sample)
    }
}

} // verus!
