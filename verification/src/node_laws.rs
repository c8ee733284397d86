//! What a poll does, from the bytes that a node has received to the bytes
//! that it wants sent. In each statement the node has received the frame of a
//! well-formed packet, perhaps with more bytes after it, and polls once.

use crate::coordinate::{can_estimate, estimated_coordinate};
use crate::frame::{frame_of, parse};
use crate::frame_laws::lemma_parse_of_frame;
use crate::header::Header;
use crate::id_utils::{localnet_id_of, location_of_id};
use crate::node::{poll_step, NodeView, PollOutcome};
use crate::packet::{check_connection_packet, confirm_coordinate_packet, PacketView};
use crate::protocol::{StateView, JITTER_RANGE};
use vstd::prelude::*;

verus! {

/// An announcement from the node's own local network is read and left at
/// that: the state stays and nothing is put among the outgoing bytes.
pub proof fn lemma_poll_check_connection_from_own_localnet(
    node: NodeView,
    packet: PacketView,
    rest: Seq<u8>,
    sample: u32,
)
    requires
        packet.wf(),
        node.received == frame_of(packet) + rest,
        packet.header == Header::HCheckConnection,
        localnet_id_of(packet.from) == localnet_id_of(node.id),
    ensures
        poll_step(node, sample).node == (NodeView { received: rest, ..node }),
        poll_step(node, sample).outcome == (PollOutcome::Handled {
            header: Header::HCheckConnection,
            from: packet.from,
            delay: (sample % JITTER_RANGE) as u32,
            replied: false,
        }),
{
    lemma_parse_of_frame(packet, rest);
    assert(poll_step(node, sample).node.received =~= rest);
}

/// An announcement from another local network is answered with exactly one
/// frame, that of the node's own announcement, after a delay of less than
/// `JITTER_RANGE` milliseconds. The state stays.
pub proof fn lemma_poll_check_connection_from_other_localnet(
    node: NodeView,
    packet: PacketView,
    rest: Seq<u8>,
    sample: u32,
)
    requires
        packet.wf(),
        node.received == frame_of(packet) + rest,
        packet.header == Header::HCheckConnection,
        localnet_id_of(packet.from) != localnet_id_of(node.id),
    ensures
        poll_step(node, sample).node == (NodeView {
            received: rest,
            outgoing: node.outgoing + frame_of(check_connection_packet(node.id)),
            ..node
        }),
        poll_step(node, sample).outcome == (PollOutcome::Handled {
            header: Header::HCheckConnection,
            from: packet.from,
            delay: (sample % JITTER_RANGE) as u32,
            replied: true,
        }),
        sample % JITTER_RANGE < JITTER_RANGE,
{
    lemma_parse_of_frame(packet, rest);
    assert(poll_step(node, sample).node.received =~= rest);
}

/// A confirmed node answers a request for a confirmed placement with exactly
/// one frame: the confirmation that carries its own placement and is
/// addressed to the node that asked. An unconfirmed node puts nothing among
/// the outgoing bytes. The state stays either way.
pub proof fn lemma_poll_request_confirmed_coordinate(
    node: NodeView,
    packet: PacketView,
    rest: Seq<u8>,
    sample: u32,
)
    requires
        packet.wf(),
        node.received == frame_of(packet) + rest,
        packet.header == Header::HRequestConfirmedCoordinate,
    ensures
        poll_step(node, sample).node == (NodeView {
            received: rest,
            outgoing: match node.state {
                StateView::Confirmed { coordinate, path } => node.outgoing + frame_of(
                    confirm_coordinate_packet(node.id, packet.from, coordinate, path),
                ),
                StateView::Unconfirmed => node.outgoing,
            },
            ..node
        }),
        poll_step(node, sample).outcome == (PollOutcome::Handled {
            header: Header::HRequestConfirmedCoordinate,
            from: packet.from,
            delay: (sample % JITTER_RANGE) as u32,
            replied: node.state is Confirmed,
        }),
{
    lemma_parse_of_frame(packet, rest);
    assert(poll_step(node, sample).node.received =~= rest);
}

/// A confirmed node that hears a confirmation stays as it is and sends
/// nothing, however often it hears one.
pub proof fn lemma_poll_confirmation_when_confirmed(
    node: NodeView,
    packet: PacketView,
    rest: Seq<u8>,
    sample: u32,
)
    requires
        packet.wf(),
        node.received == frame_of(packet) + rest,
        packet.header == Header::HConfirmCoordinate,
        node.state is Confirmed,
    ensures
        poll_step(node, sample).node == (NodeView { received: rest, ..node }),
{
    lemma_parse_of_frame(packet, rest);
    assert(poll_step(node, sample).node.received =~= rest);
}

/// An unconfirmed node that hears a confirmation on which it can build
/// becomes confirmed, at the sender's coordinate doubled plus the step of its
/// own location and on the sender's path with its own location appended. It
/// sends nothing. Where it cannot build on the placement it stays
/// unconfirmed.
pub proof fn lemma_poll_confirmation_when_unconfirmed(
    node: NodeView,
    packet: PacketView,
    rest: Seq<u8>,
    sample: u32,
)
    requires
        packet.wf(),
        node.received == frame_of(packet) + rest,
        packet.header == Header::HConfirmCoordinate,
        node.state is Unconfirmed,
    ensures
        poll_step(node, sample).node.received == rest,
        poll_step(node, sample).node.outgoing == node.outgoing,
        poll_step(node, sample).node.id == node.id,
        can_estimate(packet.payload->coordinate, packet.payload->path) ==> ({
            &&& poll_step(node, sample).node.state matches StateView::Confirmed {
                coordinate,
                path,
            }
            &&& (coordinate.0 as int, coordinate.1 as int) == estimated_coordinate(
                packet.payload->coordinate,
                location_of_id(node.id),
            )
            &&& path == (packet.payload->path).push(location_of_id(node.id))
        }),
        !can_estimate(packet.payload->coordinate, packet.payload->path) ==> poll_step(
            node,
            sample,
        ).node.state is Unconfirmed,
{
    lemma_parse_of_frame(packet, rest);
}

/// A packet of an unknown kind is read and left at that: the state stays and
/// nothing is put among the outgoing bytes.
pub proof fn lemma_poll_unknown_header(
    node: NodeView,
    packet: PacketView,
    rest: Seq<u8>,
    sample: u32,
)
    requires
        packet.wf(),
        node.received == frame_of(packet) + rest,
        packet.header is HUnknown,
    ensures
        poll_step(node, sample).node == (NodeView { received: rest, ..node }),
        poll_step(node, sample).outcome == (PollOutcome::Handled {
            header: packet.header,
            from: packet.from,
            delay: (sample % JITTER_RANGE) as u32,
            replied: false,
        }),
{
    lemma_parse_of_frame(packet, rest);
    assert(poll_step(node, sample).node.received =~= rest);
}

/// A poll on bytes that are not a frame throws them all away and changes
/// nothing else. When the frame of a well-formed packet arrives after that,
/// the next poll reads exactly that packet, and the poll after it is idle.
pub proof fn lemma_poll_recovers(node: NodeView, packet: PacketView, sample: u32)
    requires
        parse(node.received) is Invalid,
        packet.wf(),
    ensures
        poll_step(node, sample).node == (NodeView { received: Seq::empty(), ..node }),
        poll_step(node, sample).outcome == PollOutcome::Desynchronized(
            parse(node.received)->Invalid_0,
        ),
        ({
            let flushed = poll_step(node, sample).node;
            let fed = NodeView { received: flushed.received + frame_of(packet), ..flushed };
            let read = poll_step(fed, sample);
            &&& read.outcome matches PollOutcome::Handled { header, from, delay, replied }
            &&& header == packet.header
            &&& from == packet.from
            &&& read.node.received == Seq::<u8>::empty()
            &&& poll_step(read.node, sample).outcome == PollOutcome::Idle
        }),
{
    lemma_parse_of_frame(packet, Seq::empty());
    assert(Seq::<u8>::empty() + frame_of(packet) =~= frame_of(packet) + Seq::<u8>::empty());
}

} // verus!
