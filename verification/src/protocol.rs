//! The state machine of one node: what it knows of its own placement, and
//! how it answers what it hears on the bus.

use crate::coordinate::{
    can_estimate, estimated_coordinate, try_estimate, GlobalLocation, MAX_DEPTH,
};
use crate::header::Header;
use crate::id_utils::{
    get_localnet_location, is_root, is_root_id, is_same_localnet, localnet_id_of, location_of_id,
    Coordinate, Id,
};
use crate::localnet::LocalNetworkLocation;
use crate::packet::{
    check_connection_packet, confirm_coordinate_packet, request_confirmed_coordinate_packet,
    Packet, PacketView, Payload, PayloadView,
};
use vstd::prelude::*;

verus! {

/// The delay before a node reacts to a packet is less than this, in
/// milliseconds.
pub const JITTER_RANGE: u32 = 1000;

/// What a node knows of its own placement. It starts unconfirmed, unless it
/// is the root, becomes confirmed once, and never goes back.
#[derive(Debug, PartialEq, Eq)]
pub enum CoordinateState {
    Unconfirmed,
    Confirmed { coordinate: Coordinate, global_location: GlobalLocation },
}

/// A coordinate state as a mathematical value.
pub enum StateView {
    Unconfirmed,
    Confirmed { coordinate: Coordinate, path: Seq<LocalNetworkLocation> },
}

impl View for CoordinateState {
    type V = StateView;

    open spec fn view(&self) -> StateView {
        match *self {
            CoordinateState::Unconfirmed => StateView::Unconfirmed,
            CoordinateState::Confirmed { coordinate, global_location } => StateView::Confirmed {
                coordinate,
                path: global_location@,
            },
        }
    }
}

impl StateView {
    /// A confirmed state is well formed when its path is at most `MAX_DEPTH`
    /// long, so that it fits a frame.
    pub open spec fn wf(self) -> bool {
        self matches StateView::Confirmed { coordinate, path } ==> path.len() <= MAX_DEPTH
    }
}

impl Clone for CoordinateState {
    fn clone(&self) -> (copy: CoordinateState)
        ensures
            copy@ == self@,
    {
        match self {
            CoordinateState::Unconfirmed => CoordinateState::Unconfirmed,
            CoordinateState::Confirmed { coordinate, global_location } => {
                CoordinateState::Confirmed {
                    coordinate: *coordinate,
                    global_location: global_location.clone(),
                }
            },
        }
    }
}

/// What a node does on a packet: the state it goes to, and the packet it
/// sends in answer, if any.
pub struct Reaction {
    pub state: StateView,
    pub reply: Option<PacketView>,
}

/// The state in which the node with the given identifier starts: the root is
/// confirmed at the origin, every other node is unconfirmed.
pub open spec fn initial_state(id: Id) -> StateView {
    if is_root_id(id) {
        StateView::Confirmed { coordinate: (0, 0), path: Seq::empty() }
    } else {
        StateView::Unconfirmed
    }
}

/// The state of an unconfirmed node at `id` after it has heard the placement
/// of a confirmed neighbour. Where the node cannot build on the placement it
/// stays unconfirmed.
pub open spec fn confirmed_by(
    id: Id,
    coordinate: Coordinate,
    path: Seq<LocalNetworkLocation>,
) -> StateView {
    if can_estimate(coordinate, path) {
        StateView::Confirmed {
            coordinate: (
                estimated_coordinate(coordinate, location_of_id(id)).0 as i16,
                estimated_coordinate(coordinate, location_of_id(id)).1 as i16,
            ),
            path: path.push(location_of_id(id)),
        }
    } else {
        StateView::Unconfirmed
    }
}

/// The rule of the protocol: what the node at `id` in `state` does on
/// `packet`.
///
/// - An announcement from the node's own local network is left alone; one
///   from another local network is answered with the node's own announcement.
/// - A request for a confirmed placement is answered by a confirmed node with
///   its placement, addressed to the sender; an unconfirmed node keeps quiet.
/// - A confirmation makes an unconfirmed node confirmed, at the placement
///   that follows from the sender's and the node's own location. A confirmed
///   node leaves it alone.
/// - A packet of an unknown kind is left alone.
pub open spec fn reaction(id: Id, state: StateView, packet: PacketView) -> Reaction {
    match packet.header {
        Header::HCheckConnection => Reaction {
            state,
            reply: if localnet_id_of(packet.from) == localnet_id_of(id) {
                None
            } else {
                Some(check_connection_packet(id))
            },
        },
        Header::HRequestConfirmedCoordinate => Reaction {
            state,
            reply: match state {
                StateView::Unconfirmed => None,
                StateView::Confirmed { coordinate, path } => Some(
                    confirm_coordinate_packet(id, packet.from, coordinate, path),
                ),
            },
        },
        Header::HConfirmCoordinate => Reaction {
            state: match (state, packet.payload) {
                (StateView::Unconfirmed, PayloadView::Placement { coordinate, path }) => {
                    confirmed_by(id, coordinate, path)
                },
                _ => state,
            },
            reply: None,
        },
        Header::HUnknown(_) => Reaction { state, reply: None },
    }
}

/// The state of the node at `id` that starts in `state` and then hears the
/// packets of `heard`, one after the other.
pub open spec fn state_after(id: Id, state: StateView, heard: Seq<PacketView>) -> StateView
    decreases heard.len(),
{
    if heard.len() == 0 {
        state
    } else {
        reaction(id, state_after(id, state, heard.drop_last()), heard.last()).state
    }
}

/// The delay, in milliseconds, that goes with a random sample: the sample
/// reduced to the range of the jitter.
pub fn jitter_delay(sample: u32) -> (delay: u32)
    ensures
        delay == sample % JITTER_RANGE,
        delay < JITTER_RANGE,
{
    sample % JITTER_RANGE
}

/// The protocol side of a node: its identifier and its coordinate state.
pub struct ProtocolEngine {
    id: Id,
    state: CoordinateState,
}

/// An engine as a mathematical value.
pub struct EngineView {
    pub id: Id,
    pub state: StateView,
}

impl View for ProtocolEngine {
    type V = EngineView;

    closed spec fn view(&self) -> EngineView {
        EngineView { id: self.id, state: self.state@ }
    }
}

impl ProtocolEngine {
    /// The state of every engine is well formed: see `StateView::wf`.
    #[verifier::type_invariant]
    pub open spec fn wf(&self) -> bool {
        self@.state.wf()
    }

    /// The engine of the node with the given identifier, in its initial
    /// state.
    pub fn new(id: Id) -> (engine: ProtocolEngine)
        ensures
            engine@.id == id,
            engine@.state == initial_state(id),
    {
        let state = if is_root(id) {
            CoordinateState::Confirmed {
                coordinate: (0, 0),
                global_location: GlobalLocation::origin(),
            }
        } else {
            CoordinateState::Unconfirmed
        };
        ProtocolEngine { id, state }
    }

    /// The identifier of the node.
    pub fn id(&self) -> (id: Id)
        ensures
            id == self@.id,
    {
        self.id
    }

    /// The coordinate state of the node.
    pub fn state(&self) -> (state: &CoordinateState)
        ensures
            state@ == self@.state,
            state@.wf(),
    {
        proof {
            use_type_invariant(self);
        }
        &self.state
    }

    /// Whether the node has its placement.
    pub fn is_confirmed(&self) -> (confirmed: bool)
        ensures
            confirmed == (self@.state is Confirmed),
    {
        match self.state {
            CoordinateState::Confirmed { .. } => true,
            CoordinateState::Unconfirmed => false,
        }
    }

    /// Lets the node react to a packet that it heard. The node goes to the
    /// state, and gives back the reply, that `reaction` names.
    pub fn react(&mut self, packet: &Packet) -> (reply: Option<Packet>)
        ensures
            final(self)@.id == old(self)@.id,
            final(self)@.state == reaction(old(self)@.id, old(self)@.state, packet@).state,
            match reaction(old(self)@.id, old(self)@.state, packet@).reply {
                Some(expected) => reply matches Some(sent) && sent@ == expected,
                None => reply is None,
            },
    {
        proof {
            use_type_invariant(&*self);
        }
        match packet.get_header() {
            Header::HCheckConnection => {
                if is_same_localnet(packet.get_global_from(), self.id) {
                    None
                } else {
                    Some(Packet::make_check_connection_packet(self.id))
                }
            },
            Header::HRequestConfirmedCoordinate => {
                match &self.state {
                    CoordinateState::Unconfirmed => None,
                    CoordinateState::Confirmed { coordinate, global_location } => Some(
                        Packet::make_confirm_coordinate_packet_by_confirmed_node(
                            self.id,
                            packet.get_global_from(),
                            *coordinate,
                            global_location.clone(),
                        ),
                    ),
                }
            },
            Header::HConfirmCoordinate => {
                if !self.is_confirmed() {
                    match packet.get_payload() {
                        Payload::Placement { coordinate, global_location } => {
                            match try_estimate(
                                *coordinate,
                                global_location,
                                get_localnet_location(self.id),
                            ) {
                                Some(placement) => {
                                    self.state = CoordinateState::Confirmed {
                                        coordinate: placement.0,
                                        global_location: placement.1,
                                    };
                                },
                                None => {},
                            }
                        },
                        _ => {},
                    }
                }
                None
            },
            Header::HUnknown(_) => None,
        }
    }
}

/// A node that hears an announcement from its own local network does
/// nothing: its state stays and it sends no packet.
pub proof fn lemma_check_connection_from_own_localnet(id: Id, state: StateView, packet: PacketView)
    requires
        packet.header == Header::HCheckConnection,
        localnet_id_of(packet.from) == localnet_id_of(id),
    ensures
        reaction(id, state, packet) == (Reaction { state, reply: None }),
{
}

/// A node that hears an announcement from another local network answers with
/// one packet, its own announcement, and its state stays.
pub proof fn lemma_check_connection_from_other_localnet(
    id: Id,
    state: StateView,
    packet: PacketView,
)
    requires
        packet.header == Header::HCheckConnection,
        localnet_id_of(packet.from) != localnet_id_of(id),
    ensures
        reaction(id, state, packet) == (Reaction {
            state,
            reply: Some(check_connection_packet(id)),
        }),
        check_connection_packet(id).header == Header::HCheckConnection,
        check_connection_packet(id).from == id,
{
}

/// A confirmed node answers a request for a confirmed placement with a
/// confirmation that carries its own placement and is addressed to the node
/// that asked. An unconfirmed node does not answer. Neither changes state.
pub proof fn lemma_request_confirmed_coordinate(id: Id, state: StateView, packet: PacketView)
    requires
        packet.header == Header::HRequestConfirmedCoordinate,
    ensures
        reaction(id, state, packet).state == state,
        state is Unconfirmed ==> reaction(id, state, packet).reply is None,
        state matches StateView::Confirmed { coordinate, path } ==> {
            &&& reaction(id, state, packet).reply matches Some(reply)
            &&& reply.header == Header::HConfirmCoordinate
            &&& reply.from == id
            &&& reply.to == packet.from
            &&& reply.payload == (PayloadView::Placement { coordinate, path })
        },
{
}

/// A confirmed node keeps its placement whatever it hears. A confirmation in
/// particular leaves it as it is, and is not answered.
pub proof fn lemma_confirmed_is_final(id: Id, state: StateView, packet: PacketView)
    requires
        state is Confirmed,
    ensures
        reaction(id, state, packet).state == state,
        packet.header == Header::HConfirmCoordinate ==> reaction(id, state, packet) == (Reaction {
            state,
            reply: None,
        }),
{
}

/// Once confirmed, for ever confirmed, at the same placement: whatever
/// packets a confirmed node hears, and however many, its state stays.
pub proof fn lemma_confirmed_stays_confirmed(id: Id, state: StateView, heard: Seq<PacketView>)
    requires
        state is Confirmed,
    ensures
        state_after(id, state, heard) == state,
    decreases heard.len(),
{
    if heard.len() > 0 {
        lemma_confirmed_stays_confirmed(id, state, heard.drop_last());
    }
}

/// A packet of an unknown kind changes nothing and is not answered.
pub proof fn lemma_unknown_header_is_inert(id: Id, state: StateView, packet: PacketView)
    requires
        packet.header is HUnknown,
    ensures
        reaction(id, state, packet) == (Reaction { state, reply: None }),
{
}

/// An unconfirmed node that hears a confirmation on which it can build
/// becomes confirmed: at the sender's coordinate doubled plus the step of its
/// own location, on the sender's path with its own location appended.
pub proof fn lemma_confirmation_places_node(id: Id, packet: PacketView)
    requires
        packet.header == Header::HConfirmCoordinate,
        packet.payload is Placement,
        can_estimate(packet.payload->coordinate, packet.payload->path),
    ensures
        reaction(id, StateView::Unconfirmed, packet).reply is None,
        ({
            &&& reaction(id, StateView::Unconfirmed, packet).state matches StateView::Confirmed {
                coordinate,
                path,
            }
            &&& (coordinate.0 as int, coordinate.1 as int) == estimated_coordinate(
                packet.payload->coordinate,
                location_of_id(id),
            )
            &&& path == (packet.payload->path).push(location_of_id(id))
        }),
{
}

/// One exchange places a node: when an unconfirmed node asks, and a confirmed
/// node answers, the answer takes the node that asked to the state that
/// `confirmed_by` builds on the placement of the node that answered.
pub proof fn lemma_exchange_places_requester(
    requester: Id,
    responder: Id,
    coordinate: Coordinate,
    path: Seq<LocalNetworkLocation>,
)
    ensures
        reaction(
            responder,
            StateView::Confirmed { coordinate, path },
            request_confirmed_coordinate_packet(requester),
        ).reply == Some(confirm_coordinate_packet(responder, requester, coordinate, path)),
        reaction(
            requester,
            StateView::Unconfirmed,
            confirm_coordinate_packet(responder, requester, coordinate, path),
        ).state == confirmed_by(requester, coordinate, path),
{
}

/// The states that a node can reach are well formed, and so are its replies:
/// from a well-formed state, on a well-formed packet, the next state and the
/// reply are well formed. The initial state is well formed.
pub proof fn lemma_reaction_preserves_wf(id: Id, state: StateView, packet: PacketView)
    requires
        state.wf(),
        packet.wf(),
    ensures
        initial_state(id).wf(),
        reaction(id, state, packet).state.wf(),
        reaction(id, state, packet).reply matches Some(reply) ==> reply.wf(),
{
}

} // verus!
