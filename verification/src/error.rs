//! Error taxonomy of the transport: cryptographic failures, malformed
//! messages, misuse of the length-limit protocol, and the top-level sum.

use vstd::prelude::*;

verus! {

/// Failures of the cryptographic layer.
#[derive(Debug, Clone, Copy, PartialEq, Eq, Structural)]
pub enum CryptoError {
    /// The underlying primitive failed without detail.
    Unspecified,
    /// A key could not be parsed or validated.
    KeyRejected,
    /// The server hello signature did not verify.
    BadServerHelloSignature,
    /// The server's X25519 public key was rejected.
    BadServerPublicKey,
}

/// Failures when parsing or constructing a message.
#[derive(Debug)]
pub enum InvalidMessageError {
    /// The type byte names no known message type.
    MessageType(u8),
    /// The version byte names no supported protocol version.
    ProtocolVersion(u8),
    /// The payload length lies outside the negotiable range.
    PayloadLengthOutOfRange { length: usize },
    /// The payload length exceeds the current limit.
    PayloadLengthAboveLimit { length: usize, limit: usize },
    /// The payload length does not match what the header declares.
    PayloadLengthMismatch { expected: usize, actual: usize },
    /// An application object could not be decoded.
    CborDeserialization(String),
    /// An application object could not be encoded.
    CborSerialization(String),
}

/// Failures of the length-limit negotiation protocol.
#[derive(Debug, Clone, Copy, PartialEq, Eq, Structural)]
pub enum LenLimitAdjustmentError {
    /// A request is already outstanding; its limit is carried along.
    OngoingRequest(usize),
    /// The proposed limit lies outside the negotiable range.
    InvalidLimit(usize),
    /// A response arrived with no outstanding request.
    NoOngoingRequest,
}

/// The top-level error of the transport.
#[derive(Debug)]
pub enum Error {
    /// A cryptographic operation failed.
    Crypto(CryptoError),
    /// The base channel failed; the session closes.
    IoNetwork(String),
    /// A message could not be parsed or constructed.
    MessageParsing(InvalidMessageError),
    /// The length-limit protocol was misused.
    LenLimitAdjustment(LenLimitAdjustmentError),
    /// An operation was invoked in a state that does not allow it.
    IllegalState,
}

} // verus!
