//! The 16-bit node identifier and its fields.
//!
//! Bit 0 marks the root node, bits 1 and 2 hold the location inside the local
//! network, bits 3 to 15 hold the number of the local network. The whole value
//! doubles as the node's address on the bus. The masks are fixed: they are
//! burned into every manufactured tile.

use crate::localnet::{
    location_of_raw, raw_of_location, LocalNetworkLocation, LOCALNET_DOWNLEFT, LOCALNET_DOWNRIGHT,
    LOCALNET_UPLEFT, LOCALNET_UPRIGHT,
};
use vstd::prelude::*;

verus! {

/// A node identifier.
pub type Id = u16;

/// One axis of a grid position.
pub type CoordinateComponent = i16;

/// A grid position, `(x, y)`.
pub type Coordinate = (i16, i16);

/// The identifier is the low half of the 32-bit word of the hardware store.
pub const ID_MASK: u32 = 0xFFFF;

pub const ROOT_MASK: u16 = 0x0001;

pub const ROOT_SHIFT: u16 = 0;

pub const LOCALNET_LOCATION_MASK: u16 = 0x0006;

pub const LOCALNET_LOCATION_SHIFT: u16 = 1;

pub const LOCALNET_ID_MASK: u16 = 0xFFF8;

pub const LOCALNET_ID_SHIFT: u16 = 3;

pub const MAC_ADDRESS_MASK: u16 = 0xFFFF;

pub const MAC_ADDRESS_SHIFT: u16 = 0;

/// Value of the root field of the root node.
pub const ROOT: u16 = 0x0001;

/// Largest number of a local network: the field is 13 bits wide.
pub const LOCALNET_ID_MAX: u16 = 0x1FFF;

/// The number of the local network of `id`: bits 3 to 15, shifted down.
pub open spec fn localnet_id_of(id: Id) -> u16 {
    id / 8
}

/// The location field of `id`, in place: bits 1 and 2, everything else zero.
pub open spec fn raw_location_of(id: Id) -> u16 {
    ((id / 2) % 4 * 2) as u16
}

/// Whether `id` is the identifier of the root node: bit 0.
pub open spec fn is_root_id(id: Id) -> bool {
    id % 2 == 1
}

/// The location inside its local network that `id` names.
pub open spec fn location_of_id(id: Id) -> LocalNetworkLocation {
    location_of_raw(raw_location_of(id)).unwrap()
}

/// The identifier made of the three fields.
pub open spec fn id_of_fields(root: bool, location: LocalNetworkLocation, localnet_id: u16) -> int {
    localnet_id * 8 + raw_of_location(location) + if root {
        1int
    } else {
        0int
    }
}

/// The identifier in a word read from the hardware store: its low 16 bits.
pub fn id_of_efuse_value(value: u32) -> (id: Id)
    ensures
        id == value % 0x1_0000,
{
    let low: u32 = value & ID_MASK;
    assert(value & 0xFFFF == value % 0x1_0000) by (bit_vector);
    low as u16
}

/// The local network field in place: the identifier with bits 0 to 2 cleared.
pub fn get_raw_localnet_id(id: Id) -> (raw: u16)
    ensures
        raw == localnet_id_of(id) * 8,
        raw == id - id % 8,
{
    assert(id & 0xFFF8 == (id / 8) * 8) by (bit_vector);
    id & LOCALNET_ID_MASK
}

/// The address field in place. It covers all 16 bits, so it is the identifier.
pub fn get_raw_mac_address(id: Id) -> (raw: u16)
    ensures
        raw == id,
{
    assert(id & 0xFFFF == id) by (bit_vector);
    id & MAC_ADDRESS_MASK
}

/// The location field in place: one of the four location constants.
pub fn get_raw_localnet_location(id: Id) -> (raw: u16)
    ensures
        raw == raw_location_of(id),
        raw == LOCALNET_UPLEFT || raw == LOCALNET_UPRIGHT || raw == LOCALNET_DOWNLEFT || raw
            == LOCALNET_DOWNRIGHT,
        location_of_raw(raw).is_some(),
{
    assert(id & 0x0006 == (id / 2) % 4 * 2) by (bit_vector);
    id & LOCALNET_LOCATION_MASK
}

/// The root field in place: 1 for the root node, 0 for every other node.
pub fn get_raw_root(id: Id) -> (raw: u16)
    ensures
        raw == id % 2,
        raw == ROOT <==> is_root_id(id),
{
    assert(id & 0x0001 == id % 2) by (bit_vector);
    id & ROOT_MASK
}

/// The number of the local network that the node belongs to.
pub fn get_localnet_id(id: Id) -> (localnet_id: u16)
    ensures
        localnet_id == localnet_id_of(id),
        localnet_id <= LOCALNET_ID_MAX,
{
    assert((id & 0xFFF8) >> 3 == id / 8) by (bit_vector);
    (id & LOCALNET_ID_MASK) >> LOCALNET_ID_SHIFT
}

/// The address of the node on the bus: the identifier itself, unchanged.
pub fn get_mac_address(id: Id) -> (address: u16)
    ensures
        address == id,
{
    assert((id & 0xFFFF) >> 0 == id) by (bit_vector);
    (id & MAC_ADDRESS_MASK) >> MAC_ADDRESS_SHIFT
}

/// The location of the node inside its local network. The location field is
/// two bits wide and each of its four values names a location, so every
/// identifier decodes.
pub fn get_localnet_location(id: Id) -> (location: LocalNetworkLocation)
    ensures
        location == location_of_id(id),
        location_of_raw(raw_location_of(id)) == Some(location),
{
    let raw: u16 = get_raw_localnet_location(id);
    if raw == LOCALNET_UPLEFT {
        LocalNetworkLocation::UpLeft
    } else if raw == LOCALNET_UPRIGHT {
        LocalNetworkLocation::UpRight
    } else if raw == LOCALNET_DOWNLEFT {
        LocalNetworkLocation::DownLeft
    } else {
        LocalNetworkLocation::DownRight
    }
}

/// Whether the node is the root: the one node that is the origin of the grid.
pub fn is_root(id: Id) -> (root: bool)
    ensures
        root == is_root_id(id),
{
    assert((id & 0x0001) >> 0 == id % 2) by (bit_vector);
    (id & ROOT_MASK) >> ROOT_SHIFT == ROOT
}

/// Whether two nodes belong to the same local network.
pub fn is_same_localnet(a: Id, b: Id) -> (same: bool)
    ensures
        same == (localnet_id_of(a) == localnet_id_of(b)),
{
    get_localnet_id(a) == get_localnet_id(b)
}

/// Builds the identifier with the given fields. The number of the local
/// network must fit its 13 bits; a larger one is refused.
pub fn make_id(root: bool, location: LocalNetworkLocation, localnet_id: u16) -> (id: Option<Id>)
    ensures
        id.is_some() <==> localnet_id <= LOCALNET_ID_MAX,
        id matches Some(value) ==> {
            &&& value == id_of_fields(root, location, localnet_id)
            &&& is_root_id(value) == root
            &&& location_of_id(value) == location
            &&& localnet_id_of(value) == localnet_id
        },
{
    if localnet_id > LOCALNET_ID_MAX {
        return None;
    }
    let root_bit: u16 = if root {
        ROOT
    } else {
        0
    };
    let value: u16 = localnet_id * 8 + location.to_raw() + root_bit;
    Some(value)
}

/// Taking an identifier apart and putting the fields together again gives the
/// identifier back, for every 16-bit value. The same holds of the fields in
/// place, which add up to the identifier.
pub proof fn lemma_id_round_trip(id: Id)
    ensures
        localnet_id_of(id) <= LOCALNET_ID_MAX,
        location_of_raw(raw_location_of(id)).is_some(),
        id_of_fields(is_root_id(id), location_of_id(id), localnet_id_of(id)) == id,
        localnet_id_of(id) * 8 + raw_location_of(id) + id % 2 == id,
{
}

/// Putting fields together and taking the identifier apart gives the fields
/// back, for every number of a local network that fits its 13 bits.
pub proof fn lemma_fields_round_trip(root: bool, location: LocalNetworkLocation, localnet_id: u16)
    requires
        localnet_id <= LOCALNET_ID_MAX,
    ensures
        0 <= id_of_fields(root, location, localnet_id) <= u16::MAX,
        is_root_id(id_of_fields(root, location, localnet_id) as u16) == root,
        location_of_id(id_of_fields(root, location, localnet_id) as u16) == location,
        localnet_id_of(id_of_fields(root, location, localnet_id) as u16) == localnet_id,
{
}

} // verus!
