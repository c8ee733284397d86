//! The position of a node inside the 2x2 block of its local network.

use vstd::prelude::*;

verus! {

/// In-place value of the location field for the upper left tile.
pub const LOCALNET_UPLEFT: u16 = 0x0000;

/// In-place value of the location field for the upper right tile.
pub const LOCALNET_UPRIGHT: u16 = 0x0002;

/// In-place value of the location field for the lower left tile.
pub const LOCALNET_DOWNLEFT: u16 = 0x0004;

/// In-place value of the location field for the lower right tile.
pub const LOCALNET_DOWNRIGHT: u16 = 0x0006;

/// Which of the four tiles of its 2x2 block a node is.
#[derive(Clone, Copy, Debug, PartialEq, Eq, Hash, Structural)]
pub enum LocalNetworkLocation {
    UpLeft,
    UpRight,
    DownLeft,
    DownRight,
}

/// The location that a raw field value stands for, if it stands for one.
pub open spec fn location_of_raw(raw: u16) -> Option<LocalNetworkLocation> {
    if raw == LOCALNET_UPLEFT {
        Some(LocalNetworkLocation::UpLeft)
    } else if raw == LOCALNET_UPRIGHT {
        Some(LocalNetworkLocation::UpRight)
    } else if raw == LOCALNET_DOWNLEFT {
        Some(LocalNetworkLocation::DownLeft)
    } else if raw == LOCALNET_DOWNRIGHT {
        Some(LocalNetworkLocation::DownRight)
    } else {
        None
    }
}

/// The raw field value that stands for a location.
pub open spec fn raw_of_location(location: LocalNetworkLocation) -> u16 {
    match location {
        LocalNetworkLocation::UpLeft => LOCALNET_UPLEFT,
        LocalNetworkLocation::UpRight => LOCALNET_UPRIGHT,
        LocalNetworkLocation::DownLeft => LOCALNET_DOWNLEFT,
        LocalNetworkLocation::DownRight => LOCALNET_DOWNRIGHT,
    }
}

/// The step that a location adds to the doubled coordinate of the parent block.
pub open spec fn offset_of_location(location: LocalNetworkLocation) -> (int, int) {
    match location {
        LocalNetworkLocation::UpLeft => (0, 1),
        LocalNetworkLocation::UpRight => (1, 1),
        LocalNetworkLocation::DownLeft => (0, 0),
        LocalNetworkLocation::DownRight => (1, 0),
    }
}

impl LocalNetworkLocation {
    /// Decodes a raw field value. Only the four values of the location
    /// constants decode; every other value is rejected.
    pub fn from_raw(raw: u16) -> (location: Option<LocalNetworkLocation>)
        ensures
            location == location_of_raw(raw),
            location.is_some() <==> (raw == LOCALNET_UPLEFT || raw == LOCALNET_UPRIGHT || raw
                == LOCALNET_DOWNLEFT || raw == LOCALNET_DOWNRIGHT),
    {
        if raw == LOCALNET_UPLEFT {
            Some(LocalNetworkLocation::UpLeft)
        } else if raw == LOCALNET_UPRIGHT {
            Some(LocalNetworkLocation::UpRight)
        } else if raw == LOCALNET_DOWNLEFT {
            Some(LocalNetworkLocation::DownLeft)
        } else if raw == LOCALNET_DOWNRIGHT {
            Some(LocalNetworkLocation::DownRight)
        } else {
            None
        }
    }

    /// The raw field value of this location.
    pub fn to_raw(self) -> (raw: u16)
        ensures
            raw == raw_of_location(self),
            location_of_raw(raw) == Some(self),
    {
        match self {
            LocalNetworkLocation::UpLeft => LOCALNET_UPLEFT,
            LocalNetworkLocation::UpRight => LOCALNET_UPRIGHT,
            LocalNetworkLocation::DownLeft => LOCALNET_DOWNLEFT,
            LocalNetworkLocation::DownRight => LOCALNET_DOWNRIGHT,
        }
    }

    /// The step that this location adds to the doubled coordinate of the
    /// parent block: `(0, 1)`, `(1, 1)`, `(0, 0)` and `(1, 0)` for upper left,
    /// upper right, lower left and lower right.
    pub fn offset(self) -> (step: (i16, i16))
        ensures
            (step.0 as int, step.1 as int) == offset_of_location(self),
    {
        match self {
            LocalNetworkLocation::UpLeft => (0, 1),
            LocalNetworkLocation::UpRight => (1, 1),
            LocalNetworkLocation::DownLeft => (0, 0),
            LocalNetworkLocation::DownRight => (1, 0),
        }
    }
}

/// Each location has exactly one raw value: two raw values that decode to the
/// same location are equal, and decoding the raw value of a location gives the
/// location back.
pub proof fn lemma_location_decoding_is_unique(a: u16, b: u16, location: LocalNetworkLocation)
    ensures
        location_of_raw(a).is_some() && location_of_raw(a) == location_of_raw(b) ==> a == b,
        location_of_raw(raw_of_location(location)) == Some(location),
        location_of_raw(a) == Some(location) <==> a == raw_of_location(location),
{
}

} // verus!
