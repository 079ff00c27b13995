//! A verified SOCKS5 proxy core: wire codec, authentication negotiation,
//! address resolution, and the per-connection protocol state machine.
//!
//! All network I/O is performed by a thin unverified driver; this crate
//! holds the protocol logic and its proofs.

use vstd::prelude::*;

pub mod codec;
pub mod display;
pub mod handler;
pub mod negotiate;
pub mod resolver;
pub mod text;
pub mod types;

verus! {

/// SOCKS protocol version understood by this server.
pub const SOCKS_VERSION: u8 = 0x05;

/// Reserved byte in requests and replies.
pub const RESERVED: u8 = 0x00;

} // verus!
