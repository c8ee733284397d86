//! Packets: what one node says to the others on the bus.

use crate::coordinate::{GlobalLocation, MAX_DEPTH};
use crate::header::{is_known_tag, Header};
use crate::id_utils::{Coordinate, Id};
use crate::localnet::LocalNetworkLocation;
use vstd::prelude::*;

verus! {

/// The address that stands for every node on the bus.
pub const BROADCAST_ADDRESS: Id = 0xFFFF;

/// Largest number of payload bytes in one frame.
pub const MAX_PAYLOAD_LEN: usize = 64;

/// What a packet carries besides its kind and its two addresses.
#[derive(Debug, PartialEq, Eq)]
pub enum Payload {
    /// Nothing: announcements and requests speak by their kind alone.
    Empty,
    /// The placement of a confirmed node.
    Placement { coordinate: Coordinate, global_location: GlobalLocation },
    /// The bytes of a packet of a kind that this node does not know.
    Opaque(Vec<u8>),
}

/// A payload as a mathematical value.
pub enum PayloadView {
    Empty,
    Placement { coordinate: Coordinate, path: Seq<LocalNetworkLocation> },
    Opaque(Seq<u8>),
}

impl View for Payload {
    type V = PayloadView;

    open spec fn view(&self) -> PayloadView {
        match *self {
            Payload::Empty => PayloadView::Empty,
            Payload::Placement { coordinate, global_location } => PayloadView::Placement {
                coordinate,
                path: global_location@,
            },
            Payload::Opaque(bytes) => PayloadView::Opaque(bytes@),
        }
    }
}

/// A packet as a mathematical value.
pub struct PacketView {
    pub header: Header,
    pub from: Id,
    pub to: Id,
    pub payload: PayloadView,
}

/// Whether a payload has the shape that goes with a kind: none for an
/// announcement or a request, a placement of at most `MAX_DEPTH` steps for a
/// confirmation, and at most `MAX_PAYLOAD_LEN` bytes for an unknown kind.
pub open spec fn payload_fits_header(header: Header, payload: PayloadView) -> bool {
    match header {
        Header::HCheckConnection => payload is Empty,
        Header::HRequestConfirmedCoordinate => payload is Empty,
        Header::HConfirmCoordinate => payload matches PayloadView::Placement { coordinate, path }
            && path.len() <= MAX_DEPTH,
        Header::HUnknown(_) => payload matches PayloadView::Opaque(bytes) && bytes.len()
            <= MAX_PAYLOAD_LEN,
    }
}

impl PacketView {
    /// A packet is well formed when its kind is, and its payload has the
    /// shape that goes with the kind.
    pub open spec fn wf(self) -> bool {
        &&& self.header.wf()
        &&& payload_fits_header(self.header, self.payload)
    }
}

/// The announcement that the node at `from` sends to everybody.
pub open spec fn check_connection_packet(from: Id) -> PacketView {
    PacketView {
        header: Header::HCheckConnection,
        from,
        to: BROADCAST_ADDRESS,
        payload: PayloadView::Empty,
    }
}

/// The request for a confirmed placement that the node at `from` sends to
/// everybody.
pub open spec fn request_confirmed_coordinate_packet(from: Id) -> PacketView {
    PacketView {
        header: Header::HRequestConfirmedCoordinate,
        from,
        to: BROADCAST_ADDRESS,
        payload: PayloadView::Empty,
    }
}

/// The answer by which the confirmed node at `from` tells the node at `to`
/// its placement.
pub open spec fn confirm_coordinate_packet(
    from: Id,
    to: Id,
    coordinate: Coordinate,
    path: Seq<LocalNetworkLocation>,
) -> PacketView {
    PacketView {
        header: Header::HConfirmCoordinate,
        from,
        to,
        payload: PayloadView::Placement { coordinate, path },
    }
}

/// A copy of a byte slice.
pub(crate) fn copy_bytes(source: &[u8]) -> (copy: Vec<u8>)
    ensures
        copy@ == source@,
{
    let mut copy: Vec<u8> = Vec::new();
    let mut i: usize = 0;
    while i < source.len()
        invariant
            i <= source.len(),
            copy@ == source@.subrange(0, i as int),
        decreases source.len() - i,
    {
        copy.push(source[i]);
        i += 1;
    }
    copy
}

impl Clone for Payload {
    fn clone(&self) -> (copy: Payload)
        ensures
            copy@ == self@,
    {
        match self {
            Payload::Empty => Payload::Empty,
            Payload::Placement { coordinate, global_location } => Payload::Placement {
                coordinate: *coordinate,
                global_location: global_location.clone(),
            },
            Payload::Opaque(bytes) => Payload::Opaque(copy_bytes(bytes.as_slice())),
        }
    }
}

/// One message on the bus. Every node on the segment hears it; `to` says
/// whom it is meant for.
#[derive(Debug, PartialEq, Eq)]
pub struct Packet {
    header: Header,
    from: Id,
    to: Id,
    payload: Payload,
}

impl View for Packet {
    type V = PacketView;

    closed spec fn view(&self) -> PacketView {
        PacketView { header: self.header, from: self.from, to: self.to, payload: self.payload@ }
    }
}

impl Clone for Packet {
    fn clone(&self) -> (copy: Packet)
        ensures
            copy@ == self@,
    {
        proof {
            use_type_invariant(self);
        }
        Packet {
            header: self.header,
            from: self.from,
            to: self.to,
            payload: self.payload.clone(),
        }
    }
}

impl Packet {
    /// Every packet is well formed: see `PacketView::wf`.
    #[verifier::type_invariant]
    pub open spec fn wf(&self) -> bool {
        self@.wf()
    }

    /// The announcement of the node at `from`, addressed to everybody.
    pub fn make_check_connection_packet(from: Id) -> (packet: Packet)
        ensures
            packet@ == check_connection_packet(from),
            packet@.wf(),
    {
        Packet {
            header: Header::HCheckConnection,
            from,
            to: BROADCAST_ADDRESS,
            payload: Payload::Empty,
        }
    }

    /// The request of the node at `from` for a confirmed placement, addressed
    /// to everybody.
    pub fn make_request_confirmed_coordinate_packet(from: Id) -> (packet: Packet)
        ensures
            packet@ == request_confirmed_coordinate_packet(from),
            packet@.wf(),
    {
        Packet {
            header: Header::HRequestConfirmedCoordinate,
            from,
            to: BROADCAST_ADDRESS,
            payload: Payload::Empty,
        }
    }

    /// The answer of the confirmed node at `from` to the node at `to`: the
    /// placement that the sender holds.
    pub fn make_confirm_coordinate_packet_by_confirmed_node(
        from: Id,
        to: Id,
        coordinate: Coordinate,
        global_location: GlobalLocation,
    ) -> (packet: Packet)
        ensures
            packet@ == confirm_coordinate_packet(from, to, coordinate, global_location@),
            packet@.wf(),
    {
        proof {
            use_type_invariant(&global_location);
        }
        Packet {
            header: Header::HConfirmCoordinate,
            from,
            to,
            payload: Payload::Placement { coordinate, global_location },
        }
    }

    /// A packet of a kind that this node does not know, with its bytes. There
    /// is none where the tag names a known kind or the bytes are more than
    /// `MAX_PAYLOAD_LEN`.
    pub fn make_unknown_packet(tag: u8, from: Id, to: Id, bytes: Vec<u8>) -> (packet: Option<
        Packet,
    >)
        ensures
            packet.is_some() <==> !is_known_tag(tag) && bytes@.len() <= MAX_PAYLOAD_LEN,
            packet matches Some(p) ==> p@.wf() && p@ == (PacketView {
                header: Header::HUnknown(tag),
                from,
                to,
                payload: PayloadView::Opaque(bytes@),
            }),
    {
        let header = Header::from_tag(tag);
        if header.is_known() || bytes.len() > MAX_PAYLOAD_LEN {
            None
        } else {
            Some(Packet { header, from, to, payload: Payload::Opaque(bytes) })
        }
    }

    /// The packet with the given parts, which have to fit together.
    pub(crate) fn assemble(header: Header, from: Id, to: Id, payload: Payload) -> (packet: Packet)
        requires
            (PacketView { header, from, to, payload: payload@ }).wf(),
        ensures
            packet@ == (PacketView { header, from, to, payload: payload@ }),
    {
        Packet { header, from, to, payload }
    }

    /// The kind of the packet.
    pub fn get_header(&self) -> (header: Header)
        ensures
            header == self@.header,
            self@.wf(),
    {
        proof {
            use_type_invariant(self);
        }
        self.header
    }

    /// The address of the sender.
    pub fn get_global_from(&self) -> (from: Id)
        ensures
            from == self@.from,
    {
        self.from
    }

    /// The address that the packet is meant for; `BROADCAST_ADDRESS` for
    /// everybody.
    pub fn get_global_to(&self) -> (to: Id)
        ensures
            to == self@.to,
    {
        self.to
    }

    /// What the packet carries. It has the shape that goes with the kind
    /// of the packet.
    pub fn get_payload(&self) -> (payload: &Payload)
        ensures
            payload@ == self@.payload,
            self@.wf(),
    {
        proof {
            use_type_invariant(self);
        }
        &self.payload
    }
}

} // verus!
