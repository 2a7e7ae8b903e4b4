//! The client-side session state machine.  It owns the negotiation state
//! and the state-specific secrets, gates every operation on the state it
//! is legal in, and turns events into the frames to send.  Writing those
//! frames to the base channel, and reading the peer's, happens outside
//! the library; this controller decides everything else.

use vstd::prelude::*;

use crate::channel::clamp_len_limit;
use crate::crypto::ed25519_verifies;
use crate::crypto::gcm_seal_of;
use crate::crypto::generate_ephemeral_key_pair;
use crate::crypto::generate_nonce;
use crate::crypto::spec_signed_content;
use crate::crypto::verify_server_hello;
use crate::error::CryptoError;
use crate::error::Error;
use crate::error::InvalidMessageError;
use crate::error::LenLimitAdjustmentError;
use crate::handshake_msg::ClientHelloMessage;
use crate::handshake_msg::DisconnectMessage;
use crate::handshake_msg::DowngradeMessage;
use crate::handshake_msg::ServerHelloMessage;
use crate::header::PlainMessageType;
use crate::len_limit::LenLimit;
use crate::len_limit_msg::spec_request_payload;
use crate::len_limit_msg::spec_response_payload;
use crate::len_limit_msg::AdjustLenLimitRequest;
use crate::len_limit_msg::AdjustLenLimitResponse;
use crate::message::Message;
use crate::nonce::spec_nonce;
use crate::secrets::SessionSecrets;
use crate::secrets::Side;
use crate::CLIENT_HELLO_MSG_LEN;
use crate::MAX_LEN_LIMIT;
use crate::MIN_LEN_LIMIT;
use crate::NONCE_LEN;
use crate::TAG_LEN;

verus! {

/// The server's Ed25519 public key, known to the client out of band.
pub struct ServerSigPubKey {
    pub bytes: Vec<u8>,
}

impl ServerSigPubKey {
    /// Wraps the raw public key bytes.
    pub fn new(sig_pub_key: Vec<u8>) -> (r: ServerSigPubKey)
        ensures
            r.bytes@ == sig_pub_key@,
    {
        ServerSigPubKey { bytes: sig_pub_key }
    }

    /// The raw public key bytes.
    pub fn as_bytes(&self) -> (r: &Vec<u8>)
        ensures
            r == &self.bytes,
    {
        &self.bytes
    }
}

/// What the client remembers between sending its hello and receiving the
/// server's: its nonce and its ephemeral private key.
pub struct HandshakeContext {
    pub nonce: Vec<u8>,
    pub private_key: ring::agreement::EphemeralPrivateKey,
}

/// The session state; each variant owns exactly the resources that state
/// needs, so leaving a state drops them.
pub enum State {
    Insecure,
    Handshaking { handshake_context: HandshakeContext, server_sig_pub_key: ServerSigPubKey },
    Secure { secrets: SessionSecrets },
    Closed,
}

impl State {
    /// The state-specific resources are well formed.
    pub open spec fn wf(self) -> bool {
        match self {
            State::Insecure => true,
            State::Handshaking { handshake_context, server_sig_pub_key } => handshake_context.nonce@.len()
                == NONCE_LEN,
            State::Secure { secrets } => secrets.wf(),
            State::Closed => true,
        }
    }
}

impl Default for State {
    /// A session starts insecure.
    fn default() -> (r: State)
        ensures
            r is Insecure,
    {
        State::Insecure
    }
}

/// The client session controller.
pub struct Client {
    pub state: State,
    pub len_limit: LenLimit,
    /// The frame payload limit currently in force on the codec.
    pub current_limit: usize,
}

impl Client {
    /// The limit in force stays in the negotiable range, an outstanding
    /// request was validated when it was sent, and the state's resources
    /// are well formed.
    pub open spec fn wf(self) -> bool {
        &&& MIN_LEN_LIMIT <= self.current_limit <= MAX_LEN_LIMIT
        &&& self.len_limit.wf()
        &&& (self.len_limit.requested matches Some(l) ==> MIN_LEN_LIMIT <= l <= MAX_LEN_LIMIT)
        &&& self.state.wf()
    }

    /// A fresh session: insecure, with the initial limit in force and
    /// nothing requested.
    pub fn new() -> (r: Client)
        ensures
            r.wf(),
            r.state is Insecure,
            r.len_limit.requested is None,
            r.current_limit == MIN_LEN_LIMIT,
    {
        Client { state: State::Insecure, len_limit: LenLimit::new(), current_limit: MIN_LEN_LIMIT }
    }

    /// The frame payload limit currently in force.
    pub fn current_limit(&self) -> (r: usize)
        ensures
            r == self.current_limit,
    {
        self.current_limit
    }

    /// Narrows the range of limits this side will accept from the peer.
    pub fn adjust_acceptable_len_limit_range(&mut self, lower: usize, upper: usize)
        requires
            old(self).wf(),
        ensures
            final(self).wf(),
            final(self).len_limit.acceptable_min == if lower >= MIN_LEN_LIMIT {
                lower
            } else {
                MIN_LEN_LIMIT
            },
            final(self).len_limit.acceptable_max == if upper <= MAX_LEN_LIMIT {
                upper
            } else {
                MAX_LEN_LIMIT
            },
            final(self).len_limit.requested == old(self).len_limit.requested,
            final(self).current_limit == old(self).current_limit,
            final(self).state == old(self).state,
    {
        self.len_limit.adjust_acceptable_range(lower, upper);
    }

    /// Opens the handshake: generates the client nonce and ephemeral key,
    /// remembers both, and returns the client hello frame to send.  Legal
    /// only in the insecure state; a cryptographic failure leaves the
    /// session insecure with nothing retained.
    pub fn send_client_hello(&mut self, server_sig_pub_key: ServerSigPubKey) -> (r: Result<
        Message,
        Error,
    >)
        requires
            old(self).wf(),
        ensures
            final(self).wf(),
            final(self).len_limit == old(self).len_limit,
            final(self).current_limit == old(self).current_limit,
            !(old(self).state is Insecure) ==> (r matches Err(Error::IllegalState) && final(self).state == old(self).state),
            old(self).state is Insecure ==> match r {
                Ok(m) => {
                    &&& final(self).state matches State::Handshaking {
                        handshake_context: hc,
                        server_sig_pub_key: k,
                    }
                    &&& k.bytes@ == server_sig_pub_key.bytes@
                    &&& m.wf()
                    &&& m.header.plain_msg_type == PlainMessageType::ClientHello
                    &&& m.header.length == CLIENT_HELLO_MSG_LEN
                    &&& m.payload@.take(NONCE_LEN as int) == hc.nonce@
                },
                Err(e) => final(self).state is Insecure && e matches Error::Crypto(_),
            },
    {
        match &self.state {
            State::Insecure => {},
            _ => { return Err(Error::IllegalState) },
        }
        let client_nonce = match generate_nonce() {
            Ok(n) => n,
            Err(e) => { return Err(Error::Crypto(e)) },
        };
        let (client_private_key, public_key_bytes) = match generate_ephemeral_key_pair() {
            Ok(pair) => pair,
            Err(e) => { return Err(Error::Crypto(e)) },
        };
        let nonce_copy = crate::message::copy_bytes_range(&client_nonce, 0, client_nonce.len());
        let hello = ClientHelloMessage { nonce: client_nonce, public_key_bytes };
        let msg = hello.into_message();
        proof {
            crate::handshake_msg::lemma_client_hello_round_trip(
                hello.nonce@,
                hello.public_key_bytes@,
            );
        }
        self.state = State::Handshaking {
            handshake_context: HandshakeContext {
                nonce: nonce_copy,
                private_key: client_private_key,
            },
            server_sig_pub_key,
        };
        Ok(msg)
    }

    /// Completes the handshake from the server hello: verifies the
    /// signature over exactly both nonces and the server key, derives the
    /// session secrets, and enters the secure state.  The signature error
    /// comes back exactly when verification rejects; on any failure the
    /// session returns to insecure with the context dropped.
    pub fn recv_server_hello(&mut self, msg: ServerHelloMessage) -> (r: Result<(), Error>)
        requires
            old(self).wf(),
            msg.wf(),
        ensures
            final(self).wf(),
            final(self).len_limit == old(self).len_limit,
            final(self).current_limit == old(self).current_limit,
            !(old(self).state is Handshaking) ==> (r matches Err(Error::IllegalState) && final(self).state == old(self).state),
            old(self).state matches State::Handshaking {
                handshake_context: hc,
                server_sig_pub_key: k,
            } ==> {
                let content = spec_signed_content(hc.nonce@, msg.nonce@, msg.public_key_bytes@);
                &&& !ed25519_verifies(k.bytes@, content, msg.signature@) ==> (r matches Err(
                    Error::Crypto(CryptoError::BadServerHelloSignature),
                ) && final(self).state is Insecure)
                &&& match r {
                    Ok(u) => ed25519_verifies(k.bytes@, content, msg.signature@) && (final(self).state matches State::Secure { secrets } && secrets.wf()
                        && secrets.derived_from_some(hc.nonce@ + msg.nonce@, Side::Client)),
                    Err(e) => final(self).state is Insecure && (e matches Error::Crypto(_)),
                }
            },
    {
        let mut state = State::Insecure;
        core::mem::swap(&mut self.state, &mut state);
        match state {
            State::Handshaking { handshake_context, server_sig_pub_key } => {
                let nonces = match verify_server_hello(
                    &msg,
                    &handshake_context.nonce,
                    &server_sig_pub_key.bytes,
                ) {
                    Ok(nonces) => nonces,
                    Err(e) => { return Err(Error::Crypto(e)) },
                };
                let secrets = match SessionSecrets::generate(
                    handshake_context.private_key,
                    &msg.public_key_bytes,
                    &nonces,
                    Side::Client,
                ) {
                    Ok(secrets) => secrets,
                    Err(e) => { return Err(Error::Crypto(e)) },
                };
                self.state = State::Secure { secrets };
                Ok(())
            },
            other => {
                self.state = other;
                Err(Error::IllegalState)
            },
        }
    }

    /// Leaves the secure state for the insecure one, dropping the
    /// secrets, and returns the downgrade frame to send.
    pub fn send_downgrade(&mut self) -> (r: Result<Message, Error>)
        requires
            old(self).wf(),
        ensures
            final(self).wf(),
            final(self).len_limit == old(self).len_limit,
            final(self).current_limit == old(self).current_limit,
            !(old(self).state is Secure) ==> (r matches Err(Error::IllegalState) && final(self).state == old(self).state),
            old(self).state is Secure ==> (r matches Ok(m) && m.wf() && m.header.plain_msg_type
                == PlainMessageType::Downgrade && m.header.length == 0 && final(self).state is Insecure),
    {
        match &self.state {
            State::Secure { .. } => {
                self.state = State::Insecure;
                Ok(DowngradeMessage {  }.into_message())
            },
            _ => Err(Error::IllegalState),
        }
    }

    /// Acknowledges the peer's downgrade: drops the secrets and returns
    /// to the insecure state.
    pub fn recv_downgrade(&mut self, _msg: DowngradeMessage) -> (r: Result<(), Error>)
        requires
            old(self).wf(),
        ensures
            final(self).wf(),
            final(self).len_limit == old(self).len_limit,
            final(self).current_limit == old(self).current_limit,
            !(old(self).state is Secure) ==> (r matches Err(Error::IllegalState) && final(self).state == old(self).state),
            old(self).state is Secure ==> (r matches Ok(u) && final(self).state is Insecure),
    {
        match &self.state {
            State::Secure { .. } => {
                self.state = State::Insecure;
                Ok(())
            },
            _ => Err(Error::IllegalState),
        }
    }

    /// Ends the session, consuming it, and returns the disconnect frame
    /// to send.
    pub fn send_disconnect(self) -> (r: Message)
        ensures
            r.wf(),
            r.header.plain_msg_type == PlainMessageType::Disconnect,
            r.header.length == 0,
    {
        DisconnectMessage {  }.into_message()
    }

    /// Acknowledges the peer's disconnect, consuming the session.
    pub fn recv_disconnect(self, _msg: DisconnectMessage) {
    }

    /// Whether this peer would accept the given limit from the other
    /// side: no request of its own outstanding, and the value inside its
    /// acceptable range.
    pub open spec fn spec_accepts(len_limit: LenLimit, value: usize) -> bool {
        &&& len_limit.requested is None
        &&& len_limit.acceptable_min <= value <= len_limit.acceptable_max
    }

    /// Proposes a new limit to the peer and returns the request frame to
    /// send.  A second request while one is outstanding is rejected, as
    /// is a value outside the negotiable range; the limit in force does
    /// not change until the peer accepts.
    pub fn send_len_limit_request(&mut self, len_limit: usize) -> (r: Result<Message, Error>)
        requires
            old(self).wf(),
        ensures
            final(self).wf(),
            final(self).current_limit == old(self).current_limit,
            final(self).state == old(self).state,
            final(self).len_limit.acceptable_min == old(self).len_limit.acceptable_min,
            final(self).len_limit.acceptable_max == old(self).len_limit.acceptable_max,
            !(old(self).state is Insecure || old(self).state is Secure) ==> (r matches Err(
                Error::IllegalState,
            ) && final(self).len_limit == old(self).len_limit),
            (old(self).state is Insecure || old(self).state is Secure) ==> {
                &&& old(self).len_limit.requested matches Some(l) ==> (r matches Err(
                    Error::LenLimitAdjustment(LenLimitAdjustmentError::OngoingRequest(got)),
                ) && got == l && final(self).len_limit == old(self).len_limit)
                &&& old(self).len_limit.requested is None && !(MIN_LEN_LIMIT <= len_limit
                    <= MAX_LEN_LIMIT) ==> (r matches Err(
                    Error::LenLimitAdjustment(LenLimitAdjustmentError::InvalidLimit(got)),
                ) && got == len_limit && final(self).len_limit == old(self).len_limit)
                &&& old(self).len_limit.requested is None && MIN_LEN_LIMIT <= len_limit
                    <= MAX_LEN_LIMIT ==> (r matches Ok(m) && m.wf() && m.header.plain_msg_type
                    == PlainMessageType::AdjustLenLimitRequest && m.payload@
                    == spec_request_payload(len_limit as u16) && final(self).len_limit.requested
                    == Some(len_limit))
            },
    {
        match &self.state {
            State::Insecure | State::Secure { .. } => {},
            _ => { return Err(Error::IllegalState) },
        }
        if let Some(l) = self.len_limit.requested {
            return Err(Error::LenLimitAdjustment(LenLimitAdjustmentError::OngoingRequest(l)));
        }
        let request = match AdjustLenLimitRequest::try_from_usize(len_limit) {
            Ok(request) => request,
            Err(e) => { return Err(Error::LenLimitAdjustment(e)) },
        };
        self.len_limit.requested = Some(len_limit);
        Ok(request.into_message())
    }

    /// Answers the peer's limit proposal: accepts it only while no own
    /// request is outstanding and the value lies in the acceptable range,
    /// and returns the response frame to send.  On acceptance the new
    /// limit is in force for every frame sent after the response.
    pub fn recv_len_limit_request(&mut self, request: AdjustLenLimitRequest) -> (r: Result<
        Message,
        Error,
    >)
        requires
            old(self).wf(),
        ensures
            final(self).wf(),
            final(self).state == old(self).state,
            final(self).len_limit == old(self).len_limit,
            !(old(self).state is Insecure || old(self).state is Secure) ==> (r matches Err(
                Error::IllegalState,
            ) && final(self).current_limit == old(self).current_limit),
            (old(self).state is Insecure || old(self).state is Secure) ==> {
                let accepted = Self::spec_accepts(old(self).len_limit, request.len_limit as usize);
                &&& r matches Ok(m) && m.wf() && m.header.plain_msg_type
                    == PlainMessageType::AdjustLenLimitResponse && m.payload@
                    == spec_response_payload(accepted)
                &&& accepted ==> final(self).current_limit == request.len_limit
                &&& !accepted ==> final(self).current_limit == old(self).current_limit
            },
    {
        match &self.state {
            State::Insecure | State::Secure { .. } => {},
            _ => { return Err(Error::IllegalState) },
        }
        let value = request.to_usize();
        let has_accepted = match self.len_limit.requested {
            Some(_) => false,
            None => self.len_limit.acceptable_min <= value && value
                <= self.len_limit.acceptable_max,
        };
        if has_accepted {
            self.current_limit = clamp_len_limit(value);
        }
        Ok(AdjustLenLimitResponse::from_bool(has_accepted).into_message())
    }

    /// Settles this side's outstanding request from the peer's response:
    /// on acceptance the requested limit is in force from here on; on
    /// rejection nothing changes.  A response with no request outstanding
    /// is an error.
    pub fn recv_len_limit_response(&mut self, response: AdjustLenLimitResponse) -> (r: Result<
        (),
        Error,
    >)
        requires
            old(self).wf(),
        ensures
            final(self).wf(),
            final(self).state == old(self).state,
            final(self).len_limit.acceptable_min == old(self).len_limit.acceptable_min,
            final(self).len_limit.acceptable_max == old(self).len_limit.acceptable_max,
            !(old(self).state is Insecure || old(self).state is Secure) ==> (r matches Err(
                Error::IllegalState,
            ) && final(self).len_limit == old(self).len_limit && final(self).current_limit == old(self).current_limit),
            (old(self).state is Insecure || old(self).state is Secure) ==> {
                &&& old(self).len_limit.requested is None ==> (r matches Err(
                    Error::LenLimitAdjustment(LenLimitAdjustmentError::NoOngoingRequest),
                ) && final(self).current_limit == old(self).current_limit && final(self).len_limit == old(self).len_limit)
                &&& old(self).len_limit.requested matches Some(l) ==> (r matches Ok(u) && final(self).len_limit.requested is None && (response.has_accepted ==> final(self).current_limit == l) && (!response.has_accepted ==> final(self).current_limit
                    == old(self).current_limit))
            },
    {
        match &self.state {
            State::Insecure | State::Secure { .. } => {},
            _ => { return Err(Error::IllegalState) },
        }
        match self.len_limit.requested {
            None => Err(Error::LenLimitAdjustment(LenLimitAdjustmentError::NoOngoingRequest)),
            Some(l) => {
                self.len_limit.requested = None;
                if response.to_bool() {
                    self.current_limit = clamp_len_limit(l);
                }
                Ok(())
            },
        }
    }

    /// Seals application bytes as the next outbound secure frame.  Legal
    /// only in the secure state; the sealed payload, tag included, must
    /// fit the limit in force.
    pub fn seal_secure(&mut self, payload: &Vec<u8>) -> (r: Result<Message, Error>)
        requires
            old(self).wf(),
            old(self).state matches State::Secure { secrets } ==> secrets.seal_nonces.counter
                < u64::MAX,
        ensures
            final(self).wf(),
            final(self).len_limit == old(self).len_limit,
            final(self).current_limit == old(self).current_limit,
            !(old(self).state is Secure) ==> (r matches Err(Error::IllegalState) && final(self).state == old(self).state),
            old(self).state matches State::Secure { secrets: s0 } ==> {
                &&& payload@.len() + TAG_LEN > old(self).current_limit ==> (r matches Err(
                    Error::MessageParsing(InvalidMessageError::PayloadLengthAboveLimit { length, limit }),
                ) && length == payload@.len() && limit == old(self).current_limit - TAG_LEN
                    && final(self).state == old(self).state)
                &&& payload@.len() + TAG_LEN <= old(self).current_limit ==> (r matches Ok(m)
                    && m.wf() && m.header.plain_msg_type == PlainMessageType::Secure && m.payload@
                    == gcm_seal_of(
                    s0.send_key@,
                    spec_nonce(s0.seal_nonces.base@, s0.seal_nonces.counter),
                    payload@,
                ) && (final(self).state matches State::Secure { secrets: s1 }
                    && s1.send_key@ == s0.send_key@ && s1.recv_key@ == s0.recv_key@
                    && s1.seal_nonces.base@ == s0.seal_nonces.base@ && s1.seal_nonces.counter
                    == s0.seal_nonces.counter + 1 && s1.open_nonces == s0.open_nonces))
            },
    {
        match &mut self.state {
            State::Secure { secrets } => {
                if payload.len() > self.current_limit - TAG_LEN {
                    return Err(
                        Error::MessageParsing(
                            InvalidMessageError::PayloadLengthAboveLimit {
                                length: payload.len(),
                                limit: self.current_limit - TAG_LEN,
                            },
                        ),
                    );
                }
                match secrets.seal(payload) {
                    Ok(m) => Ok(m),
                    Err(e) => Err(Error::Crypto(e)),
                }
            },
            _ => Err(Error::IllegalState),
        }
    }

    /// Opens the next inbound secure frame.  Legal only in the secure
    /// state.  The plaintext comes back exactly when the payload is what
    /// sealing it under the session's opening key and the next expected
    /// nonce produces; any other payload fails fatally and closes the
    /// session.
    pub fn open_secure(&mut self, msg: &Message) -> (r: Result<Vec<u8>, Error>)
        requires
            old(self).wf(),
            old(self).state matches State::Secure { secrets } ==> secrets.open_nonces.counter
                < u64::MAX,
        ensures
            final(self).wf(),
            final(self).len_limit == old(self).len_limit,
            final(self).current_limit == old(self).current_limit,
            !(old(self).state is Secure) ==> (r matches Err(Error::IllegalState) && final(self).state == old(self).state),
            old(self).state matches State::Secure { secrets: s0 } ==> {
                &&& r matches Ok(p) ==> msg.payload@ == gcm_seal_of(
                    s0.recv_key@,
                    spec_nonce(s0.open_nonces.base@, s0.open_nonces.counter),
                    p@,
                ) && (final(self).state matches State::Secure { secrets: s1 }
                    && s1.send_key@ == s0.send_key@ && s1.recv_key@ == s0.recv_key@
                    && s1.open_nonces.base@ == s0.open_nonces.base@ && s1.open_nonces.counter
                    == s0.open_nonces.counter + 1 && s1.seal_nonces == s0.seal_nonces)
                &&& forall|p: Seq<u8>|
                    msg.payload@ == #[trigger] gcm_seal_of(
                        s0.recv_key@,
                        spec_nonce(s0.open_nonces.base@, s0.open_nonces.counter),
                        p,
                    ) ==> (r matches Ok(q) && q@ == p)
                &&& r is Err ==> final(self).state is Closed
            },
    {
        let mut state = State::Insecure;
        core::mem::swap(&mut self.state, &mut state);
        match state {
            State::Secure { mut secrets } => {
                match secrets.open(msg) {
                    Ok(p) => {
                        self.state = State::Secure { secrets };
                        Ok(p)
                    },
                    Err(e) => {
                        self.state = State::Closed;
                        Err(Error::Crypto(e))
                    },
                }
            },
            other => {
                self.state = other;
                Err(Error::IllegalState)
            },
        }
    }
}

/// When both peers have requests outstanding at once, neither accepts
/// the other's: a peer with its own outstanding request answers every
/// proposal with a rejection, whatever the value.
pub proof fn lemma_concurrent_requests_rejected(a: LenLimit, b: LenLimit, va: usize, vb: usize)
    requires
        a.requested is Some,
        b.requested is Some,
    ensures
        !Client::spec_accepts(a, va),
        !Client::spec_accepts(b, vb),
{
}

} // verus!
