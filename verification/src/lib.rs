//! Self-organising addressing for the tiles of a reconfigurable display.
//!
//! Every tile carries a 16-bit identifier burned in at manufacture. From it and
//! from the packets it hears on the shared serial bus, a tile works out where it
//! sits in the assembled grid. The crate holds the identifier layout, the frame
//! format of the bus, the per-node state machine and the coordinate rule, each
//! with a contract that Verus proves.

pub mod codec;
pub mod coordinate;
pub mod frame;
pub mod frame_laws;
pub mod header;
pub mod id_utils;
pub mod localnet;
pub mod node;
pub mod node_laws;
pub mod ota;
pub mod packet;
pub mod protocol;
