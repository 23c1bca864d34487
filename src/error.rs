//! The errors of the channel.

use vstd::prelude::*;
use crate::frame::FramingError;

verus! {

/// Why a handshake step failed.
#[derive(Debug, Clone, Copy, PartialEq, Eq, Structural)]
pub enum HandshakeFailure {
    /// The step was not this side's to take, or the handshake is over.
    OutOfOrder,
    /// A received handshake message has the wrong length for its step.
    WrongLength,
    /// The Noise state refused the step (a tag that did not verify, among others).
    Rejected,
}

#[derive(Debug, Clone, Copy, PartialEq, Eq, Structural)]
pub enum ChannelError {
    /// Key material of the wrong length.
    KeyError,
    /// A handshake step failed; `step` counts the messages already exchanged.
    HandshakeError { step: u8, cause: HandshakeFailure },
    /// A transport record did not authenticate.
    DecryptError,
    /// A frame was too large to send, or the stream ended inside one.
    FramingError(FramingError),
    /// A nonce counter reached its largest value: no more records can pass.
    NonceExhausted,
    /// The underlying transport failed.
    IoError,
    /// The channel has closed or failed; nothing more can pass over it.
    Closed,
}

} // verus!
