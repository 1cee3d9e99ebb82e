//! The multiplayer-randomizer synchronization subsystem: a bridge from a
//! background network session into a single-threaded, tick-driven game loop,
//! the session state derived from server messages, and the deterministic
//! patcher that rewrites static stage assets so item pickups become
//! remote-controlled checks.
//!
//! The sockets, the handshake and the background tasks live outside the
//! library; they reach it only through the bounded channels the bridge owns
//! and through plain values.

use vstd::prelude::*;

pub mod channel;
pub mod client;
pub mod codec;
pub mod effects;
pub mod engine_constants;
pub mod generator;
pub mod protocol;
pub mod stage_data;

verus! {

/// Offset between the local game's native flag/item numbering and the
/// network id space: every network item or location id is a native number
/// plus this base, and any id below it is never a network-originated value.
pub const ITEM_BASE: i32 = 0xD00000;

} // verus!
