//! What holds of the frame format: writing and reading are inverse to each
//! other, and what the front of a buffer amounts to does not change once it is
//! a frame or an error.

use crate::frame::{
    coordinate_bytes, coordinate_of_bytes, frame_body, frame_of, is_location_byte,
    length_fits_header, parse, path_bytes, path_of_bytes, payload_bytes, payload_of_bytes, Parsed,
    COORDINATE_LEN, FRAME_DELIMITER, FRAME_HEADER_LEN,
};
use crate::header::{header_of_tag, Header};
use crate::id_utils::Coordinate;
use crate::localnet::{location_of_raw, raw_of_location, LocalNetworkLocation};
use crate::packet::{payload_fits_header, PacketView, PayloadView};
use vstd::prelude::*;

verus! {

/// Reading the bytes of a coordinate gives the coordinate back.
pub proof fn lemma_coordinate_round_trip(coordinate: Coordinate, rest: Seq<u8>)
    ensures
        coordinate_of_bytes(coordinate_bytes(coordinate) + rest) == coordinate,
{
}

/// Writing the coordinate read from four bytes gives the four bytes back.
pub proof fn lemma_coordinate_bytes_round_trip(bytes: Seq<u8>)
    requires
        bytes.len() >= COORDINATE_LEN,
    ensures
        coordinate_bytes(coordinate_of_bytes(bytes)) == bytes.subrange(0, COORDINATE_LEN as int),
{
}

/// Reading the bytes of a path gives the path back.
pub proof fn lemma_path_round_trip(path: Seq<LocalNetworkLocation>)
    ensures
        path_of_bytes(path_bytes(path)) == Some(path),
{
    let bytes = path_bytes(path);
    assert forall|i: int| 0 <= i < bytes.len() implies is_location_byte(#[trigger] bytes[i])
        && location_of_raw(bytes[i] as u16) == Some(path[i]) by {
        assert(location_of_raw(raw_of_location(path[i])) == Some(path[i]));
    }
}

/// Writing the path read from bytes gives the bytes back.
pub proof fn lemma_path_bytes_round_trip(bytes: Seq<u8>)
    requires
        path_of_bytes(bytes).is_some(),
    ensures
        path_bytes(path_of_bytes(bytes).unwrap()) == bytes,
        path_of_bytes(bytes).unwrap().len() == bytes.len(),
{
    let path = path_of_bytes(bytes).unwrap();
    assert forall|i: int| 0 <= i < bytes.len() implies raw_of_location(path[i]) as u8
        == #[trigger] bytes[i] by {
        assert(is_location_byte(bytes[i]));
    }
    assert(path_bytes(path) =~= bytes);
}

/// Reading the bytes of a payload, as the payload of a packet of its kind,
/// gives the payload back.
pub proof fn lemma_payload_round_trip(header: Header, payload: PayloadView)
    requires
        payload_fits_header(header, payload),
    ensures
        payload_of_bytes(header, payload_bytes(payload)) == Some(payload),
        length_fits_header(header, payload_bytes(payload).len()),
{
    if let PayloadView::Placement { coordinate, path } = payload {
        let bytes = payload_bytes(payload);
        lemma_coordinate_round_trip(coordinate, path_bytes(path));
        lemma_path_round_trip(path);
        assert(bytes.subrange(COORDINATE_LEN as int, bytes.len() as int) =~= path_bytes(path));
    }
}

/// Writing the payload read from bytes gives the bytes back, and the payload
/// has the shape that goes with the kind.
pub proof fn lemma_payload_bytes_round_trip(header: Header, bytes: Seq<u8>)
    requires
        length_fits_header(header, bytes.len()),
        payload_of_bytes(header, bytes).is_some(),
    ensures
        payload_bytes(payload_of_bytes(header, bytes).unwrap()) == bytes,
        payload_fits_header(header, payload_of_bytes(header, bytes).unwrap()),
{
    if header is HConfirmCoordinate {
        lemma_coordinate_bytes_round_trip(bytes);
        lemma_path_bytes_round_trip(bytes.subrange(COORDINATE_LEN as int, bytes.len() as int));
    }
}

/// Reading the frame of a well-formed packet gives the packet back, with the
/// length of the frame, whatever bytes follow the frame.
pub proof fn lemma_parse_of_frame(packet: PacketView, rest: Seq<u8>)
    requires
        packet.wf(),
    ensures
        parse(frame_of(packet) + rest) == (Parsed::Frame {
            packet,
            length: frame_of(packet).len(),
        }),
        frame_of(packet).len() == FRAME_HEADER_LEN + payload_bytes(packet.payload).len() + 1,
{
    let buffer = frame_of(packet) + rest;
    let body = frame_body(packet);
    let payload = payload_bytes(packet.payload);
    let end = FRAME_HEADER_LEN + payload.len();
    lemma_payload_round_trip(packet.header, packet.payload);
    assert(buffer[6] == payload.len() as u8);
    assert(buffer.subrange(1, end) =~= body);
    assert(buffer.subrange(FRAME_HEADER_LEN as int, end) =~= payload);
}

/// Two well-formed packets with the same frame are the same packet.
pub proof fn lemma_frame_names_one_packet(first: PacketView, second: PacketView)
    requires
        first.wf(),
        second.wf(),
        frame_of(first) == frame_of(second),
    ensures
        first == second,
{
    lemma_parse_of_frame(first, Seq::empty());
    lemma_parse_of_frame(second, Seq::empty());
}

/// A frame that was read is the frame of the packet that came out of it: the
/// packet is well formed, and writing it gives the bytes that were read.
pub proof fn lemma_frame_of_parsed(buffer: Seq<u8>)
    requires
        parse(buffer) is Frame,
    ensures
        parse(buffer)->packet.wf(),
        parse(buffer)->length <= buffer.len(),
        frame_of(parse(buffer)->packet) == buffer.subrange(0, parse(buffer)->length as int),
{
    let packet = parse(buffer)->packet;
    let length = buffer[6] as nat;
    let end = FRAME_HEADER_LEN + length;
    let bytes = buffer.subrange(FRAME_HEADER_LEN as int, end);
    lemma_payload_bytes_round_trip(packet.header, bytes);
    assert(frame_body(packet) =~= buffer.subrange(1, end));
}

/// Bytes that are not a frame do not become one: once the front of a buffer
/// is an error, it is the same error whatever bytes arrive after it.
pub proof fn lemma_invalid_stays_invalid(buffer: Seq<u8>, more: Seq<u8>)
    requires
        parse(buffer) is Invalid,
    ensures
        parse(buffer + more) == parse(buffer),
{
    let longer = buffer + more;
    if buffer[0] == FRAME_DELIMITER {
        let header = header_of_tag(buffer[1]);
        let length = buffer[6] as nat;
        let end = FRAME_HEADER_LEN + length;
        if length_fits_header(header, length) {
            assert(longer.subrange(1, end) =~= buffer.subrange(1, end));
            assert(longer.subrange(FRAME_HEADER_LEN as int, end) =~= buffer.subrange(
                FRAME_HEADER_LEN as int,
                end,
            ));
        }
    }
}

/// A frame at the front of a buffer stays what it is whatever bytes arrive
/// after it.
pub proof fn lemma_frame_stays_frame(buffer: Seq<u8>, more: Seq<u8>)
    requires
        parse(buffer) is Frame,
    ensures
        parse(buffer + more) == parse(buffer),
{
    let longer = buffer + more;
    let length = buffer[6] as nat;
    let end = FRAME_HEADER_LEN + length;
    assert(longer.subrange(1, end) =~= buffer.subrange(1, end));
    assert(longer.subrange(FRAME_HEADER_LEN as int, end) =~= buffer.subrange(
        FRAME_HEADER_LEN as int,
        end,
    ));
}

/// While only a part of a frame has arrived, the answer is to wait: a frame
/// cut short anywhere is incomplete, never an error.
pub proof fn lemma_partial_frame_is_incomplete(packet: PacketView, arrived: int)
    requires
        packet.wf(),
        0 <= arrived < frame_of(packet).len(),
    ensures
        parse(frame_of(packet).subrange(0, arrived)) == Parsed::Incomplete,
{
    lemma_parse_of_frame(packet, Seq::empty());
}

} // verus!
