//! The handshake and control messages carried as plain frames: client
//! hello, server hello, disconnect, and downgrade, each with a byte-exact
//! conversion to and from a frame.

use vstd::prelude::*;

use crate::error::InvalidMessageError;
use crate::header::PlainMessageType;
use crate::message::append_bytes;
use crate::message::bytes_eq;
use crate::message::copy_bytes_range;
use crate::message::Message;
use crate::CLIENT_HELLO_MSG_LEN;
use crate::ED25519_SIGNATURE_LEN;
use crate::NONCE_LEN;
use crate::SERVER_HELLO_MSG_LEN;
use crate::X25519_PUBLIC_KEY_LEN;

verus! {

/// The client's opening message: its nonce and X25519 public key.
#[derive(Debug, Clone)]
pub struct ClientHelloMessage {
    pub nonce: Vec<u8>,
    pub public_key_bytes: Vec<u8>,
}

/// The payload of a client hello frame.
pub open spec fn spec_client_hello_payload(nonce: Seq<u8>, public_key: Seq<u8>) -> Seq<u8> {
    nonce + public_key
}

impl ClientHelloMessage {
    /// Field lengths are fixed by the wire format.
    pub open spec fn wf(self) -> bool {
        &&& self.nonce@.len() == NONCE_LEN
        &&& self.public_key_bytes@.len() == X25519_PUBLIC_KEY_LEN
    }

    /// Serializes this hello as a plain frame.
    pub fn into_message(self) -> (r: Message)
        requires
            self.wf(),
        ensures
            r.wf(),
            r.header.plain_msg_type == PlainMessageType::ClientHello,
            r.header.length == CLIENT_HELLO_MSG_LEN,
            r.payload@ == spec_client_hello_payload(self.nonce@, self.public_key_bytes@),
    {
        let mut payload: Vec<u8> = Vec::new();
        append_bytes(&mut payload, &self.nonce);
        append_bytes(&mut payload, &self.public_key_bytes);
        Message::new(PlainMessageType::ClientHello, payload)
    }

    /// Recovers a hello from a frame payload of the right length; any
    /// other length is the mismatch error, with the lengths carried along.
    pub fn try_from_message(value: &Message) -> (r: Result<
        ClientHelloMessage,
        InvalidMessageError,
    >)
        ensures
            value.payload@.len() == CLIENT_HELLO_MSG_LEN ==> (r matches Ok(c) && c.wf()
                && c.nonce@ == value.payload@.take(NONCE_LEN as int) && c.public_key_bytes@
                == value.payload@.skip(NONCE_LEN as int)),
            value.payload@.len() != CLIENT_HELLO_MSG_LEN ==> (r matches Err(
                InvalidMessageError::PayloadLengthMismatch { expected, actual },
            ) && expected == CLIENT_HELLO_MSG_LEN && actual == value.payload@.len()),
    {
        if value.payload.len() != CLIENT_HELLO_MSG_LEN {
            return Err(
                InvalidMessageError::PayloadLengthMismatch {
                    expected: CLIENT_HELLO_MSG_LEN,
                    actual: value.payload.len(),
                },
            );
        }
        let nonce = copy_bytes_range(&value.payload, 0, NONCE_LEN);
        let public_key_bytes = copy_bytes_range(&value.payload, NONCE_LEN, CLIENT_HELLO_MSG_LEN);
        assert(value.payload@.subrange(NONCE_LEN as int, CLIENT_HELLO_MSG_LEN as int)
            =~= value.payload@.skip(NONCE_LEN as int));
        assert(value.payload@.subrange(0, NONCE_LEN as int) =~= value.payload@.take(
            NONCE_LEN as int,
        ));
        Ok(ClientHelloMessage { nonce, public_key_bytes })
    }
}

impl PartialEq for ClientHelloMessage {
    fn eq(&self, o: &ClientHelloMessage) -> (r: bool) {
        bytes_eq(&self.nonce, &o.nonce) && bytes_eq(&self.public_key_bytes, &o.public_key_bytes)
    }
}

impl vstd::std_specs::cmp::PartialEqSpecImpl for ClientHelloMessage {
    open spec fn obeys_eq_spec() -> bool {
        true
    }

    open spec fn eq_spec(&self, o: &ClientHelloMessage) -> bool {
        self.nonce@ == o.nonce@ && self.public_key_bytes@ == o.public_key_bytes@
    }
}

/// A serialized client hello parses back to the same fields.
pub proof fn lemma_client_hello_round_trip(nonce: Seq<u8>, public_key: Seq<u8>)
    requires
        nonce.len() == NONCE_LEN,
        public_key.len() == X25519_PUBLIC_KEY_LEN,
    ensures
        spec_client_hello_payload(nonce, public_key).take(NONCE_LEN as int) == nonce,
        spec_client_hello_payload(nonce, public_key).skip(NONCE_LEN as int) == public_key,
{
    assert(spec_client_hello_payload(nonce, public_key).take(NONCE_LEN as int) =~= nonce);
    assert(spec_client_hello_payload(nonce, public_key).skip(NONCE_LEN as int) =~= public_key);
}

/// The server's reply: its nonce, X25519 public key, and Ed25519
/// signature over both nonces and that key.
#[derive(Debug, Clone)]
pub struct ServerHelloMessage {
    pub nonce: Vec<u8>,
    pub public_key_bytes: Vec<u8>,
    pub signature: Vec<u8>,
}

/// The payload of a server hello frame.
pub open spec fn spec_server_hello_payload(
    nonce: Seq<u8>,
    public_key: Seq<u8>,
    signature: Seq<u8>,
) -> Seq<u8> {
    nonce + public_key + signature
}

impl ServerHelloMessage {
    /// Field lengths are fixed by the wire format.
    pub open spec fn wf(self) -> bool {
        &&& self.nonce@.len() == NONCE_LEN
        &&& self.public_key_bytes@.len() == X25519_PUBLIC_KEY_LEN
        &&& self.signature@.len() == ED25519_SIGNATURE_LEN
    }

    /// Serializes this hello as a plain frame.
    pub fn into_message(self) -> (r: Message)
        requires
            self.wf(),
        ensures
            r.wf(),
            r.header.plain_msg_type == PlainMessageType::ServerHello,
            r.header.length == SERVER_HELLO_MSG_LEN,
            r.payload@ == spec_server_hello_payload(
                self.nonce@,
                self.public_key_bytes@,
                self.signature@,
            ),
    {
        let mut payload: Vec<u8> = Vec::new();
        append_bytes(&mut payload, &self.nonce);
        append_bytes(&mut payload, &self.public_key_bytes);
        append_bytes(&mut payload, &self.signature);
        Message::new(PlainMessageType::ServerHello, payload)
    }

    /// Recovers a hello from a frame payload of the right length; any
    /// other length is the mismatch error, with the lengths carried along.
    pub fn try_from_message(value: &Message) -> (r: Result<
        ServerHelloMessage,
        InvalidMessageError,
    >)
        ensures
            value.payload@.len() == SERVER_HELLO_MSG_LEN ==> (r matches Ok(s) && s.wf()
                && s.nonce@ == value.payload@.subrange(0, NONCE_LEN as int) && s.public_key_bytes@
                == value.payload@.subrange(NONCE_LEN as int, (NONCE_LEN + X25519_PUBLIC_KEY_LEN) as int)
                && s.signature@ == value.payload@.subrange(
                (NONCE_LEN + X25519_PUBLIC_KEY_LEN) as int,
                SERVER_HELLO_MSG_LEN as int,
            )),
            value.payload@.len() != SERVER_HELLO_MSG_LEN ==> (r matches Err(
                InvalidMessageError::PayloadLengthMismatch { expected, actual },
            ) && expected == SERVER_HELLO_MSG_LEN && actual == value.payload@.len()),
    {
        if value.payload.len() != SERVER_HELLO_MSG_LEN {
            return Err(
                InvalidMessageError::PayloadLengthMismatch {
                    expected: SERVER_HELLO_MSG_LEN,
                    actual: value.payload.len(),
                },
            );
        }
        let nonce = copy_bytes_range(&value.payload, 0, NONCE_LEN);
        let public_key_bytes = copy_bytes_range(
            &value.payload,
            NONCE_LEN,
            NONCE_LEN + X25519_PUBLIC_KEY_LEN,
        );
        let signature = copy_bytes_range(
            &value.payload,
            NONCE_LEN + X25519_PUBLIC_KEY_LEN,
            SERVER_HELLO_MSG_LEN,
        );
        Ok(ServerHelloMessage { nonce, public_key_bytes, signature })
    }
}

impl PartialEq for ServerHelloMessage {
    fn eq(&self, o: &ServerHelloMessage) -> (r: bool) {
        bytes_eq(&self.nonce, &o.nonce) && bytes_eq(&self.public_key_bytes, &o.public_key_bytes)
            && bytes_eq(&self.signature, &o.signature)
    }
}

impl vstd::std_specs::cmp::PartialEqSpecImpl for ServerHelloMessage {
    open spec fn obeys_eq_spec() -> bool {
        true
    }

    open spec fn eq_spec(&self, o: &ServerHelloMessage) -> bool {
        self.nonce@ == o.nonce@ && self.public_key_bytes@ == o.public_key_bytes@ && self.signature@
            == o.signature@
    }
}

/// A serialized server hello parses back to the same fields.
pub proof fn lemma_server_hello_round_trip(nonce: Seq<u8>, public_key: Seq<u8>, signature: Seq<u8>)
    requires
        nonce.len() == NONCE_LEN,
        public_key.len() == X25519_PUBLIC_KEY_LEN,
        signature.len() == ED25519_SIGNATURE_LEN,
    ensures
        spec_server_hello_payload(nonce, public_key, signature).subrange(0, NONCE_LEN as int)
            == nonce,
        spec_server_hello_payload(nonce, public_key, signature).subrange(
            NONCE_LEN as int,
            (NONCE_LEN + X25519_PUBLIC_KEY_LEN) as int,
        ) == public_key,
        spec_server_hello_payload(nonce, public_key, signature).subrange(
            (NONCE_LEN + X25519_PUBLIC_KEY_LEN) as int,
            SERVER_HELLO_MSG_LEN as int,
        ) == signature,
{
    let p = spec_server_hello_payload(nonce, public_key, signature);
    assert(p.subrange(0, NONCE_LEN as int) =~= nonce);
    assert(p.subrange(NONCE_LEN as int, (NONCE_LEN + X25519_PUBLIC_KEY_LEN) as int)
        =~= public_key);
    assert(p.subrange((NONCE_LEN + X25519_PUBLIC_KEY_LEN) as int, SERVER_HELLO_MSG_LEN as int)
        =~= signature);
}

/// A request to end the session.
#[derive(Debug, Clone, Copy, PartialEq, Eq, Structural)]
pub struct DisconnectMessage {}

impl DisconnectMessage {
    /// Serializes a disconnect as an empty plain frame.
    pub fn into_message(self) -> (r: Message)
        ensures
            r.wf(),
            r.header.plain_msg_type == PlainMessageType::Disconnect,
            r.header.length == 0,
            r.payload@ == Seq::<u8>::empty(),
    {
        let payload: Vec<u8> = Vec::new();
        assert(payload@ =~= Seq::<u8>::empty());
        Message::new(PlainMessageType::Disconnect, payload)
    }

    /// Recovers a disconnect from an empty frame payload; any other length
    /// is the mismatch error.
    pub fn try_from_message(value: &Message) -> (r: Result<DisconnectMessage, InvalidMessageError>)
        ensures
            value.payload@.len() == 0 ==> (r matches Ok(d) && d == (DisconnectMessage {  })),
            value.payload@.len() != 0 ==> (r matches Err(
                InvalidMessageError::PayloadLengthMismatch { expected, actual },
            ) && expected == 0 && actual == value.payload@.len()),
    {
        if value.payload.len() != 0 {
            return Err(
                InvalidMessageError::PayloadLengthMismatch {
                    expected: 0,
                    actual: value.payload.len(),
                },
            );
        }
        Ok(DisconnectMessage {  })
    }
}

/// A request to fall back from the secure session to plain frames.
#[derive(Debug, Clone, Copy, PartialEq, Eq, Structural)]
pub struct DowngradeMessage {}

impl DowngradeMessage {
    /// Serializes a downgrade as an empty plain frame.
    pub fn into_message(self) -> (r: Message)
        ensures
            r.wf(),
            r.header.plain_msg_type == PlainMessageType::Downgrade,
            r.header.length == 0,
            r.payload@ == Seq::<u8>::empty(),
    {
        let payload: Vec<u8> = Vec::new();
        assert(payload@ =~= Seq::<u8>::empty());
        Message::new(PlainMessageType::Downgrade, payload)
    }

    /// Recovers a downgrade from an empty frame payload; any other length
    /// is the mismatch error.
    pub fn try_from_message(value: &Message) -> (r: Result<DowngradeMessage, InvalidMessageError>)
        ensures
            value.payload@.len() == 0 ==> (r matches Ok(d) && d == (DowngradeMessage {  })),
            value.payload@.len() != 0 ==> (r matches Err(
                InvalidMessageError::PayloadLengthMismatch { expected, actual },
            ) && expected == 0 && actual == value.payload@.len()),
    {
        if value.payload.len() != 0 {
            return Err(
                InvalidMessageError::PayloadLengthMismatch {
                    expected: 0,
                    actual: value.payload.len(),
                },
            );
        }
        Ok(DowngradeMessage {  })
    }
}

} // verus!
