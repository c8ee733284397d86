//! The two sides of the bus. Bytes come in as they arrive and are read as
//! packets, one at a time. Packets go out as frames, which wait here until
//! they are written to the bus.

use crate::frame::{
    append_bytes, encode_packet, frame_of, parse, parse_frame, FrameError, Parsed,
};
use crate::frame_laws::{lemma_invalid_stays_invalid, lemma_parse_of_frame};
use crate::packet::{Packet, PacketView};
use vstd::prelude::*;

verus! {

/// The bytes that have arrived and are not yet read as packets, and the
/// bytes that wait to be written.
pub struct PacketCodec {
    buffer: Vec<u8>,
    outbox: Vec<u8>,
}

/// A codec as a mathematical value.
pub struct CodecView {
    /// The bytes that arrived and are not yet read.
    pub received: Seq<u8>,
    /// The bytes that wait to be written to the bus.
    pub outgoing: Seq<u8>,
}

impl View for PacketCodec {
    type V = CodecView;

    closed spec fn view(&self) -> CodecView {
        CodecView { received: self.buffer@, outgoing: self.outbox@ }
    }
}

/// What a read gives back on a buffer: nothing while the frame at the front
/// is incomplete, the packet of a whole frame, or the error.
pub open spec fn read_result(buffer: Seq<u8>) -> Result<Option<PacketView>, FrameError> {
    match parse(buffer) {
        Parsed::Incomplete => Ok(None),
        Parsed::Frame { packet, length } => Ok(Some(packet)),
        Parsed::Invalid(error) => Err(error),
    }
}

/// What a read leaves in a buffer: the bytes after the frame that it read,
/// and everything where it read no frame.
pub open spec fn read_remainder(buffer: Seq<u8>) -> Seq<u8> {
    match parse(buffer) {
        Parsed::Frame { packet, length } => buffer.subrange(length as int, buffer.len() as int),
        _ => buffer,
    }
}

impl PacketCodec {
    /// A codec that has received nothing and has nothing to send.
    pub fn new() -> (codec: PacketCodec)
        ensures
            codec@ == (CodecView { received: Seq::empty(), outgoing: Seq::empty() }),
    {
        PacketCodec { buffer: Vec::new(), outbox: Vec::new() }
    }

    /// The number of received bytes that wait to be read.
    pub fn pending(&self) -> (count: usize)
        ensures
            count == self@.received.len(),
    {
        self.buffer.len()
    }

    /// Takes in bytes that arrived on the bus, behind those that already wait.
    pub fn receive(&mut self, bytes: &[u8])
        ensures
            final(self)@ == (CodecView { received: old(self)@.received + bytes@, ..old(self)@ }),
    {
        append_bytes(&mut self.buffer, bytes);
    }

    /// Reads the packet at the front of the received bytes, without waiting.
    /// While the frame at the front is incomplete there is nothing to read,
    /// and the bytes stay. A whole, valid frame gives its packet and leaves
    /// the buffer. Bytes that cannot be a frame give the error and stay:
    /// every further read fails in the same way until the buffer is flushed.
    pub fn try_read_packet(&mut self) -> (result: Result<Option<Packet>, FrameError>)
        ensures
            final(self)@ == (CodecView {
                received: read_remainder(old(self)@.received),
                ..old(self)@
            }),
            match read_result(old(self)@.received) {
                Ok(Some(packet)) => result matches Ok(Some(found)) && found@ == packet
                    && packet.wf(),
                Ok(None) => result matches Ok(None),
                Err(error) => result == Err::<Option<Packet>, FrameError>(error),
            },
    {
        match parse_frame(self.buffer.as_slice()) {
            Ok(Some((packet, length))) => {
                let rest = self.buffer.split_off(length);
                self.buffer = rest;
                Ok(Some(packet))
            },
            Ok(None) => Ok(None),
            Err(error) => Err(error),
        }
    }

    /// Throws away every received byte that waits to be read. After an error
    /// this is the only way back to reading frames.
    pub fn flush_receive_buffer(&mut self)
        ensures
            final(self)@ == (CodecView { received: Seq::empty(), ..old(self)@ }),
    {
        self.buffer.clear();
    }

    /// Puts the frame of a packet behind the bytes that wait to be written.
    pub fn send(&mut self, packet: &Packet)
        ensures
            final(self)@ == (CodecView {
                outgoing: old(self)@.outgoing + frame_of(packet@),
                ..old(self)@
            }),
            packet@.wf(),
    {
        let frame = encode_packet(packet);
        append_bytes(&mut self.outbox, frame.as_slice());
    }

    /// Hands over the bytes that wait to be written to the bus. None wait
    /// after that.
    pub fn take_outgoing(&mut self) -> (bytes: Vec<u8>)
        ensures
            bytes@ == old(self)@.outgoing,
            final(self)@ == (CodecView { outgoing: Seq::empty(), ..old(self)@ }),
    {
        let bytes = self.outbox.split_off(0);
        assert(self@.outgoing == Seq::<u8>::empty());
        bytes
    }
}

/// A buffer that gives an error keeps giving it, read after read, and also
/// when more bytes arrive in between.
pub proof fn lemma_error_persists(buffer: Seq<u8>, more: Seq<u8>)
    requires
        read_result(buffer) is Err,
    ensures
        read_remainder(buffer) == buffer,
        read_result(read_remainder(buffer)) == read_result(buffer),
        read_result(buffer + more) == read_result(buffer),
{
    lemma_invalid_stays_invalid(buffer, more);
}

/// After a flush the receiver is in step again: when the frame of a
/// well-formed packet then arrives, the next read gives exactly that packet
/// and empties the buffer, and the read after it finds nothing.
pub proof fn lemma_recovery_after_flush(packet: PacketView)
    requires
        packet.wf(),
    ensures
        read_result(Seq::<u8>::empty() + frame_of(packet)) == Ok::<
            Option<PacketView>,
            FrameError,
        >(Some(packet)),
        read_remainder(Seq::<u8>::empty() + frame_of(packet)) == Seq::<u8>::empty(),
        read_result(Seq::<u8>::empty()) == Ok::<Option<PacketView>, FrameError>(None),
{
    lemma_parse_of_frame(packet, Seq::empty());
    assert(Seq::<u8>::empty() + frame_of(packet) =~= frame_of(packet) + Seq::<u8>::empty());
}

/// Frames that arrive back to back are read one by one: a read on the frame
/// of a well-formed packet followed by other bytes gives the packet and
/// leaves exactly the other bytes.
pub proof fn lemma_read_takes_one_frame(packet: PacketView, rest: Seq<u8>)
    requires
        packet.wf(),
    ensures
        read_result(frame_of(packet) + rest) == Ok::<Option<PacketView>, FrameError>(
            Some(packet),
        ),
        read_remainder(frame_of(packet) + rest) == rest,
{
    lemma_parse_of_frame(packet, rest);
}

} // verus!
