//! The error vocabulary of the codec.
//!
//! Every error is fatal for the session that owns the codec: nothing is
//! retried inside the codec and no partial event is ever delivered. A
//! decoder that merely lacks a full frame reports that by returning
//! `Ok(None)` rather than an error.

use vstd::prelude::*;

verus! {

/// A fatal codec error.
#[derive(Clone, Copy, Debug, PartialEq, Eq, Structural)]
pub enum CodecError {
    /// A frame exceeds the maximum size its codec was configured with, or
    /// its length cannot be represented in the 32-bit length prefix.
    FrameTooLarge,
    /// An event frame holds fewer than the two bytes of the event id.
    MissingId,
    /// The event id is not in the registry; surfaces version skew.
    UnknownId(u16),
    /// An event body failed to decode, an AEAD chunk failed to open, or the
    /// decrypted chunks of an outer frame did not reassemble into exactly
    /// one event.
    InvalidData,
    /// The codec was driven against its phase: an event was submitted
    /// during the handshake, raw bytes were submitted after it, the
    /// transition was requested before the handshake had finished, or a
    /// per-direction nonce would have been driven past its 64-bit range.
    ContractViolation,
}

impl CodecError {
    /// Returns a human-readable label for the error.
    pub fn describe(&self) -> (r: &'static str)
        ensures
            r@ == self.spec_describe(),
    {
        match self {
            CodecError::FrameTooLarge => "frame too large",
            CodecError::MissingId => "missing event ID",
            CodecError::UnknownId(_) => "unknown event ID",
            CodecError::InvalidData => "invalid data",
            CodecError::ContractViolation => "contract violation",
        }
    }

    /// The label that `describe` returns.
    pub open spec fn spec_describe(&self) -> Seq<char> {
        match self {
            CodecError::FrameTooLarge => "frame too large"@,
            CodecError::MissingId => "missing event ID"@,
            CodecError::UnknownId(_) => "unknown event ID"@,
            CodecError::InvalidData => "invalid data"@,
            CodecError::ContractViolation => "contract violation"@,
        }
    }
}

} // verus!
