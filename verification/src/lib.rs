//! Hermit: a verified core for a bidirectional secure transport.
//!
//! The crate covers the plaintext frame format, the length-limit
//! negotiation, the handshake message formats and key schedule, the AEAD
//! record layer with its deterministic nonce sequence, the chunking
//! buffers, the bounded outbound sink, and the client session state
//! machine.  Network I/O and asynchronous plumbing live outside the
//! library; every function here is plain computation with a contract.

use vstd::prelude::*;

pub mod buffer;
pub mod channel;
pub mod client;
pub mod crypto;
pub mod error;
pub mod handshake_msg;
pub mod header;
pub mod len_limit;
pub mod len_limit_msg;
pub mod message;
pub mod nonce;
pub mod plain_message;
pub mod secrets;
pub mod secure_message;

verus! {

/// Smallest negotiable frame payload length (2^10 - 1).
pub const MIN_LEN_LIMIT: usize = 1023;

/// Largest negotiable frame payload length (2^15 - 1).
pub const MAX_LEN_LIMIT: usize = 32767;

/// Length of a plain frame header: type, version, big-endian length.
pub const MSG_HEADER_LEN: usize = 4;

/// Largest payload length representable in the 16-bit header field.
pub const MAX_PAYLOAD_LEN: usize = 65535;

/// Length of an AES-128-GCM authentication tag.
pub const TAG_LEN: usize = 16;

/// Largest secure payload: the tag must still fit in the header field.
pub const MAX_SECURE_PAYLOAD_LEN: usize = 65519;

/// Length of the hello nonces.
pub const NONCE_LEN: usize = 16;

/// Length of an X25519 public key.
pub const X25519_PUBLIC_KEY_LEN: usize = 32;

/// Length of an Ed25519 signature.
pub const ED25519_SIGNATURE_LEN: usize = 64;

/// Length of the content the server signs:
/// client nonce, server nonce, server public key.
pub const SIGNED_CONTENT_LEN: usize = 64;

/// Length of an AES-128-GCM key.
pub const AEAD_KEY_LEN: usize = 16;

/// Length of an AES-128-GCM nonce.
pub const AEAD_NONCE_LEN: usize = 12;

/// Payload length of a client hello: nonce and X25519 public key.
pub const CLIENT_HELLO_MSG_LEN: usize = 48;

/// Payload length of a server hello: nonce, X25519 public key, signature.
pub const SERVER_HELLO_MSG_LEN: usize = 112;

} // verus!
