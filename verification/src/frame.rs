//! The frame: how a packet is written on the bus.
//!
//! A frame is the delimiter, then the body, then the checksum of the body.
//! The body is the tag of the kind, the sender and the receiver as two bytes
//! each, high byte first, the number of payload bytes, and the payload. The
//! checksum is the sum of the bytes of the body modulo 256. The payload of a
//! confirmation is the two components of the coordinate, two bytes each in
//! two's complement, high byte first, and then one byte for each step of the
//! path.

use crate::coordinate::GlobalLocation;
use crate::header::{header_of_tag, tag_of_header, Header};
use crate::id_utils::Coordinate;
use crate::localnet::{location_of_raw, raw_of_location, LocalNetworkLocation};
use crate::packet::{
    copy_bytes, payload_fits_header, Packet, PacketView, Payload, PayloadView, MAX_PAYLOAD_LEN,
};
use vstd::prelude::*;
use vstd::slice::slice_subrange;

verus! {

/// First byte of every frame.
pub const FRAME_DELIMITER: u8 = 0x7E;

/// Number of bytes from the delimiter up to and including the payload length.
pub const FRAME_HEADER_LEN: usize = 7;

/// Number of payload bytes that the coordinate of a placement takes.
pub const COORDINATE_LEN: usize = 4;

/// Why received bytes are not a frame.
#[derive(Clone, Copy, Debug, PartialEq, Eq, Structural)]
pub enum FrameError {
    /// The first byte is not the delimiter.
    BadDelimiter,
    /// The payload length is more than a frame can hold, or not one that
    /// goes with the kind.
    MalformedLength,
    /// The checksum is not that of the body.
    ChecksumMismatch,
    /// A step of the path of a placement is none of the four locations.
    MalformedPayload,
}

/// What the bytes received so far amount to.
pub enum Parsed {
    /// The start of a frame, or nothing at all: more bytes are needed.
    Incomplete,
    /// A whole frame of `length` bytes, holding `packet`, and perhaps more
    /// bytes after it.
    Frame { packet: PacketView, length: nat },
    /// Not a frame, whatever bytes may follow.
    Invalid(FrameError),
}

pub open spec fn high_byte(word: u16) -> u8 {
    (word / 256) as u8
}

pub open spec fn low_byte(word: u16) -> u8 {
    (word % 256) as u8
}

pub open spec fn word_of_bytes(high: u8, low: u8) -> u16 {
    (high * 256 + low) as u16
}

/// A coordinate component as 16 bits in two's complement.
pub open spec fn word_of_component(component: i16) -> u16 {
    if component >= 0 {
        component as u16
    } else {
        (component + 0x1_0000) as u16
    }
}

/// The coordinate component that 16 bits in two's complement stand for.
pub open spec fn component_of_word(word: u16) -> i16 {
    if word < 0x8000 {
        word as i16
    } else {
        (word - 0x1_0000) as i16
    }
}

/// The sum of the bytes modulo 256.
pub open spec fn checksum(bytes: Seq<u8>) -> u8
    decreases bytes.len(),
{
    if bytes.len() == 0 {
        0
    } else {
        ((checksum(bytes.drop_last()) + bytes.last()) % 256) as u8
    }
}

/// The four bytes of a coordinate.
pub open spec fn coordinate_bytes(coordinate: Coordinate) -> Seq<u8> {
    seq![
        high_byte(word_of_component(coordinate.0)),
        low_byte(word_of_component(coordinate.0)),
        high_byte(word_of_component(coordinate.1)),
        low_byte(word_of_component(coordinate.1)),
    ]
}

/// The coordinate that the first four bytes stand for.
pub open spec fn coordinate_of_bytes(bytes: Seq<u8>) -> Coordinate {
    (
        component_of_word(word_of_bytes(bytes[0], bytes[1])),
        component_of_word(word_of_bytes(bytes[2], bytes[3])),
    )
}

/// One byte for each step of a path: the raw value of the location.
pub open spec fn path_bytes(path: Seq<LocalNetworkLocation>) -> Seq<u8> {
    Seq::new(path.len(), |i: int| raw_of_location(path[i]) as u8)
}

/// Whether a byte is the raw value of a location.
pub open spec fn is_location_byte(byte: u8) -> bool {
    location_of_raw(byte as u16).is_some()
}

/// The path that the bytes stand for, if each of them is a location.
pub open spec fn path_of_bytes(bytes: Seq<u8>) -> Option<Seq<LocalNetworkLocation>> {
    if forall|i: int| 0 <= i < bytes.len() ==> is_location_byte(#[trigger] bytes[i]) {
        Some(Seq::new(bytes.len(), |i: int| location_of_raw(bytes[i] as u16).unwrap()))
    } else {
        None
    }
}

/// The bytes of a payload.
pub open spec fn payload_bytes(payload: PayloadView) -> Seq<u8> {
    match payload {
        PayloadView::Empty => Seq::empty(),
        PayloadView::Placement { coordinate, path } => coordinate_bytes(coordinate) + path_bytes(
            path,
        ),
        PayloadView::Opaque(bytes) => bytes,
    }
}

/// Whether a packet of the given kind can have `length` payload bytes.
pub open spec fn length_fits_header(header: Header, length: nat) -> bool {
    &&& length <= MAX_PAYLOAD_LEN
    &&& match header {
        Header::HCheckConnection => length == 0,
        Header::HRequestConfirmedCoordinate => length == 0,
        Header::HConfirmCoordinate => length >= COORDINATE_LEN,
        Header::HUnknown(_) => true,
    }
}

/// The payload that the bytes stand for in a packet of the given kind, if
/// they stand for one. The number of bytes is taken to fit the kind.
pub open spec fn payload_of_bytes(header: Header, bytes: Seq<u8>) -> Option<PayloadView> {
    match header {
        Header::HCheckConnection => Some(PayloadView::Empty),
        Header::HRequestConfirmedCoordinate => Some(PayloadView::Empty),
        Header::HConfirmCoordinate => match path_of_bytes(
            bytes.subrange(COORDINATE_LEN as int, bytes.len() as int),
        ) {
            Some(path) => Some(
                PayloadView::Placement { coordinate: coordinate_of_bytes(bytes), path },
            ),
            None => None,
        },
        Header::HUnknown(_) => Some(PayloadView::Opaque(bytes)),
    }
}

/// The body of the frame of a packet: everything between the delimiter and
/// the checksum.
pub open spec fn frame_body(packet: PacketView) -> Seq<u8> {
    seq![
        tag_of_header(packet.header),
        high_byte(packet.from),
        low_byte(packet.from),
        high_byte(packet.to),
        low_byte(packet.to),
        payload_bytes(packet.payload).len() as u8,
    ] + payload_bytes(packet.payload)
}

/// The frame of a packet.
pub open spec fn frame_of(packet: PacketView) -> Seq<u8> {
    seq![FRAME_DELIMITER] + frame_body(packet) + seq![checksum(frame_body(packet))]
}

/// What the front of a receive buffer amounts to. The checks come in the
/// order of the bytes: delimiter, payload length, checksum, payload.
pub open spec fn parse(buffer: Seq<u8>) -> Parsed {
    if buffer.len() == 0 {
        Parsed::Incomplete
    } else if buffer[0] != FRAME_DELIMITER {
        Parsed::Invalid(FrameError::BadDelimiter)
    } else if buffer.len() < FRAME_HEADER_LEN {
        Parsed::Incomplete
    } else {
        let header = header_of_tag(buffer[1]);
        let length = buffer[6] as nat;
        let end = FRAME_HEADER_LEN + length;
        if !length_fits_header(header, length) {
            Parsed::Invalid(FrameError::MalformedLength)
        } else if buffer.len() < end + 1 {
            Parsed::Incomplete
        } else if checksum(buffer.subrange(1, end)) != buffer[end] {
            Parsed::Invalid(FrameError::ChecksumMismatch)
        } else {
            match payload_of_bytes(header, buffer.subrange(FRAME_HEADER_LEN as int, end)) {
                None => Parsed::Invalid(FrameError::MalformedPayload),
                Some(payload) => Parsed::Frame {
                    packet: PacketView {
                        header,
                        from: word_of_bytes(buffer[2], buffer[3]),
                        to: word_of_bytes(buffer[4], buffer[5]),
                        payload,
                    },
                    length: (end + 1) as nat,
                },
            }
        }
    }
}

fn word_from_bytes(high: u8, low: u8) -> (word: u16)
    ensures
        word == word_of_bytes(high, low),
{
    (high as u16) * 256 + (low as u16)
}

fn word_from_component(component: i16) -> (word: u16)
    ensures
        word == word_of_component(component),
{
    if component >= 0 {
        component as u16
    } else {
        (component as i32 + 0x1_0000) as u16
    }
}

fn component_from_word(word: u16) -> (component: i16)
    ensures
        component == component_of_word(word),
{
    if word < 0x8000 {
        word as i16
    } else {
        (word as i32 - 0x1_0000) as i16
    }
}

/// Appends the two bytes of a word, high byte first.
fn push_word(bytes: &mut Vec<u8>, word: u16)
    ensures
        final(bytes)@ == old(bytes)@.push(high_byte(word)).push(low_byte(word)),
{
    bytes.push((word / 256) as u8);
    bytes.push((word % 256) as u8);
}

/// Appends a copy of `source`.
pub(crate) fn append_bytes(bytes: &mut Vec<u8>, source: &[u8])
    ensures
        final(bytes)@ == old(bytes)@ + source@,
{
    let mut i: usize = 0;
    while i < source.len()
        invariant
            i <= source.len(),
            bytes@ == old(bytes)@ + source@.subrange(0, i as int),
        decreases source.len() - i,
    {
        bytes.push(source[i]);
        i += 1;
    }
}

/// The sum of the bytes modulo 256.
pub fn checksum_of(bytes: &[u8]) -> (sum: u8)
    ensures
        sum == checksum(bytes@),
{
    let mut sum: u8 = 0;
    let mut i: usize = 0;
    while i < bytes.len()
        invariant
            i <= bytes.len(),
            sum == checksum(bytes@.subrange(0, i as int)),
        decreases bytes.len() - i,
    {
        assert(bytes@.subrange(0, i + 1).drop_last() == bytes@.subrange(0, i as int));
        sum = ((sum as u16 + bytes[i] as u16) % 256) as u8;
        i += 1;
    }
    assert(bytes@.subrange(0, bytes@.len() as int) == bytes@);
    sum
}

/// The bytes of a payload.
fn encode_payload(payload: &Payload) -> (bytes: Vec<u8>)
    ensures
        bytes@ == payload_bytes(payload@),
{
    match payload {
        Payload::Empty => Vec::new(),
        Payload::Placement { coordinate, global_location } => {
            let mut bytes: Vec<u8> = Vec::new();
            push_word(&mut bytes, word_from_component(coordinate.0));
            push_word(&mut bytes, word_from_component(coordinate.1));
            let path = global_location.path();
            let mut i: usize = 0;
            while i < path.len()
                invariant
                    i <= path.len(),
                    bytes@ == coordinate_bytes(*coordinate) + path_bytes(
                        path@.subrange(0, i as int),
                    ),
                decreases path.len() - i,
            {
                bytes.push(path[i].to_raw() as u8);
                i += 1;
            }
            bytes
        },
        Payload::Opaque(data) => copy_bytes(data.as_slice()),
    }
}

/// The payload of a packet of the given kind, read from its bytes.
fn decode_payload(header: Header, bytes: &[u8]) -> (payload: Option<Payload>)
    requires
        length_fits_header(header, bytes@.len()),
    ensures
        match payload_of_bytes(header, bytes@) {
            Some(view) => payload matches Some(p) && p@ == view && payload_fits_header(
                header,
                view,
            ),
            None => payload is None,
        },
{
    match header {
        Header::HCheckConnection => Some(Payload::Empty),
        Header::HRequestConfirmedCoordinate => Some(Payload::Empty),
        Header::HConfirmCoordinate => {
            let x = component_from_word(word_from_bytes(bytes[0], bytes[1]));
            let y = component_from_word(word_from_bytes(bytes[2], bytes[3]));
            let ghost tail = bytes@.subrange(COORDINATE_LEN as int, bytes@.len() as int);
            let mut path: Vec<LocalNetworkLocation> = Vec::new();
            let mut i: usize = COORDINATE_LEN;
            while i < bytes.len()
                invariant
                    header is HConfirmCoordinate,
                    COORDINATE_LEN <= i <= bytes.len(),
                    tail == bytes@.subrange(COORDINATE_LEN as int, bytes@.len() as int),
                    path@.len() == i - COORDINATE_LEN,
                    forall|k: int|
                        0 <= k < path@.len() ==> is_location_byte(#[trigger] tail[k]) && path@[k]
                            == location_of_raw(tail[k] as u16).unwrap(),
                decreases bytes.len() - i,
            {
                match LocalNetworkLocation::from_raw(bytes[i] as u16) {
                    Some(location) => {
                        path.push(location);
                    },
                    None => {
                        assert(!is_location_byte(tail[i - COORDINATE_LEN]));
                        return None;
                    },
                }
                i += 1;
            }
            assert(path@ == path_of_bytes(tail).unwrap());
            Some(
                Payload::Placement {
                    coordinate: (x, y),
                    global_location: GlobalLocation::from_short_path(path),
                },
            )
        },
        Header::HUnknown(_) => Some(Payload::Opaque(copy_bytes(bytes))),
    }
}

/// Writes a packet as a frame.
pub fn encode_packet(packet: &Packet) -> (frame: Vec<u8>)
    ensures
        frame@ == frame_of(packet@),
        packet@.wf(),
{
    let payload = encode_payload(packet.get_payload());
    let mut body: Vec<u8> = Vec::new();
    body.push(packet.get_header().to_tag());
    push_word(&mut body, packet.get_global_from());
    push_word(&mut body, packet.get_global_to());
    body.push(payload.len() as u8);
    append_bytes(&mut body, payload.as_slice());
    assert(body@ == frame_body(packet@));
    let sum = checksum_of(body.as_slice());
    let mut frame: Vec<u8> = Vec::new();
    frame.push(FRAME_DELIMITER);
    append_bytes(&mut frame, body.as_slice());
    frame.push(sum);
    frame
}

/// Reads the frame at the front of `buffer`, if a whole one is there. With a
/// frame comes its length in bytes. Nothing comes back while bytes are still
/// missing; an error comes back as soon as the bytes cannot become a frame.
pub fn parse_frame(buffer: &[u8]) -> (result: Result<Option<(Packet, usize)>, FrameError>)
    ensures
        match parse(buffer@) {
            Parsed::Incomplete => result matches Ok(None),
            Parsed::Invalid(error) => result == Err::<Option<(Packet, usize)>, FrameError>(error),
            Parsed::Frame { packet, length } => result matches Ok(Some(found)) && found.0@
                == packet && packet.wf() && found.1 == length && length <= buffer@.len(),
        },
{
    if buffer.len() == 0 {
        return Ok(None);
    }
    if buffer[0] != FRAME_DELIMITER {
        return Err(FrameError::BadDelimiter);
    }
    if buffer.len() < FRAME_HEADER_LEN {
        return Ok(None);
    }
    let header = Header::from_tag(buffer[1]);
    let length: usize = buffer[6] as usize;
    if !payload_length_fits(header, length) {
        return Err(FrameError::MalformedLength);
    }
    let end: usize = FRAME_HEADER_LEN + length;
    if buffer.len() < end + 1 {
        return Ok(None);
    }
    if checksum_of(slice_subrange(buffer, 1, end)) != buffer[end] {
        return Err(FrameError::ChecksumMismatch);
    }
    let from = word_from_bytes(buffer[2], buffer[3]);
    let to = word_from_bytes(buffer[4], buffer[5]);
    match decode_payload(header, slice_subrange(buffer, FRAME_HEADER_LEN, end)) {
        None => Err(FrameError::MalformedPayload),
        Some(payload) => Ok(Some((Packet::assemble(header, from, to, payload), end + 1))),
    }
}

/// Tells whether a packet of the given kind can have `length` payload bytes.
pub fn payload_length_fits(header: Header, length: usize) -> (fits: bool)
    ensures
        fits == length_fits_header(header, length as nat),
{
    if length > MAX_PAYLOAD_LEN {
        false
    } else {
        match header {
            Header::HCheckConnection => length == 0,
            Header::HRequestConfirmedCoordinate => length == 0,
            Header::HConfirmCoordinate => length >= COORDINATE_LEN,
            Header::HUnknown(_) => true,
        }
    }
}

} // verus!
