//! The kind of a packet, and the tag byte that names it on the bus.

use vstd::prelude::*;

verus! {

/// Tag of a presence announcement.
pub const TAG_CHECK_CONNECTION: u8 = 0x01;

/// Tag of a request for a confirmed placement.
pub const TAG_REQUEST_CONFIRMED_COORDINATE: u8 = 0x02;

/// Tag of the answer that carries a confirmed placement.
pub const TAG_CONFIRM_COORDINATE: u8 = 0x03;

/// The kind of a packet. Kinds that this node does not know are kept with
/// their tag, so that a newer node can speak to an older one without harm.
#[derive(Clone, Copy, Debug, PartialEq, Eq, Structural)]
pub enum Header {
    HCheckConnection,
    HRequestConfirmedCoordinate,
    HConfirmCoordinate,
    HUnknown(u8),
}

/// Whether a tag names one of the kinds that this node knows.
pub open spec fn is_known_tag(tag: u8) -> bool {
    tag == TAG_CHECK_CONNECTION || tag == TAG_REQUEST_CONFIRMED_COORDINATE || tag
        == TAG_CONFIRM_COORDINATE
}

/// The kind that a tag names.
pub open spec fn header_of_tag(tag: u8) -> Header {
    if tag == TAG_CHECK_CONNECTION {
        Header::HCheckConnection
    } else if tag == TAG_REQUEST_CONFIRMED_COORDINATE {
        Header::HRequestConfirmedCoordinate
    } else if tag == TAG_CONFIRM_COORDINATE {
        Header::HConfirmCoordinate
    } else {
        Header::HUnknown(tag)
    }
}

/// The tag that names a kind.
pub open spec fn tag_of_header(header: Header) -> u8 {
    match header {
        Header::HCheckConnection => TAG_CHECK_CONNECTION,
        Header::HRequestConfirmedCoordinate => TAG_REQUEST_CONFIRMED_COORDINATE,
        Header::HConfirmCoordinate => TAG_CONFIRM_COORDINATE,
        Header::HUnknown(tag) => tag,
    }
}

impl Header {
    /// An unknown kind is well formed when its tag is not the tag of a known
    /// kind. The known kinds are always well formed.
    pub open spec fn wf(self) -> bool {
        self matches Header::HUnknown(tag) ==> !is_known_tag(tag)
    }

    /// The kind that a tag names. Every tag names one.
    pub fn from_tag(tag: u8) -> (header: Header)
        ensures
            header == header_of_tag(tag),
            header.wf(),
            tag_of_header(header) == tag,
    {
        if tag == TAG_CHECK_CONNECTION {
            Header::HCheckConnection
        } else if tag == TAG_REQUEST_CONFIRMED_COORDINATE {
            Header::HRequestConfirmedCoordinate
        } else if tag == TAG_CONFIRM_COORDINATE {
            Header::HConfirmCoordinate
        } else {
            Header::HUnknown(tag)
        }
    }

    /// The tag that names this kind.
    pub fn to_tag(self) -> (tag: u8)
        ensures
            tag == tag_of_header(self),
            self.wf() ==> header_of_tag(tag) == self,
    {
        match self {
            Header::HCheckConnection => TAG_CHECK_CONNECTION,
            Header::HRequestConfirmedCoordinate => TAG_REQUEST_CONFIRMED_COORDINATE,
            Header::HConfirmCoordinate => TAG_CONFIRM_COORDINATE,
            Header::HUnknown(tag) => tag,
        }
    }

    /// Whether this is one of the kinds that the protocol acts on.
    pub fn is_known(self) -> (known: bool)
        ensures
            known == !(self is HUnknown),
    {
        match self {
            Header::HUnknown(_) => false,
            _ => true,
        }
    }
}

} // verus!
