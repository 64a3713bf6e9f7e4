//! A secure framing codec for peer-to-peer links of a consensus node.
//!
//! The crate turns a reliable byte stream into a duplex channel of typed
//! application events carried under a Noise-XX encrypted session:
//!
//! * [`event`] defines the closed set of application events and their
//!   dispatch-tagged wire form `[u16 id LE][body]`.
//! * [`framing`] provides length-delimited framing (`[u32 len LE][payload]`)
//!   with strict size bounds and a partial-input-safe decoder.
//! * [`noise`] provides the two-phase Noise codec: opaque handshake messages
//!   before the transition, chunked AEAD-encrypted event frames after it.

use vstd::prelude::*;

pub mod data;
pub mod errors;
pub mod event;
pub mod framing;
pub mod noise;

verus! {

/// The version of the event protocol; it can be incremented in order to
/// signal an incompatible wire change.
pub const PROTOCOL_VERSION: u32 = 0;

/// The maximum size of an event that can be transmitted during the handshake.
pub const MAX_HANDSHAKE_SIZE: usize = 1024 * 1024;

/// The maximum size of an event that can be transmitted in the network.
pub const MAX_EVENT_SIZE: usize = 128 * 1024 * 1024;

/// The maximum size of a Noise transport message (an AEAD ciphertext).
pub const MAX_MESSAGE_LEN: usize = 65535;

/// The length of the authentication tag appended to each AEAD ciphertext.
pub const TAG_LEN: usize = 16;

/// The largest plaintext that fits in one Noise transport message.
pub const MAX_PLAINTEXT_CHUNK: usize = MAX_MESSAGE_LEN - TAG_LEN;

} // verus!
