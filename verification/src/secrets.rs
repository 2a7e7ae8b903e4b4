//! The session secrets derived by the handshake: two directional
//! AES-128-GCM keys, a shared nonce base, and one nonce sequence per
//! direction, together with the sealing and opening of secure frames.

use vstd::prelude::*;

use crate::crypto::aead_open;
use crate::crypto::aead_seal;
use crate::crypto::gcm_seal_of;
use crate::crypto::hkdf_master_key;
use crate::crypto::generate_nonce_base;
use crate::crypto::master_key_of;
use crate::crypto::spec_nonce_base;
use crate::crypto::x25519_agree;
use crate::error::CryptoError;
use crate::header::PlainMessageType;
use crate::message::Message;
use crate::nonce::spec_nonce;
use crate::nonce::NonceSequence;
use crate::AEAD_KEY_LEN;
use crate::MAX_SECURE_PAYLOAD_LEN;
use crate::NONCE_LEN;
use crate::TAG_LEN;

verus! {

/// Which side of the session this party plays.
#[derive(Debug, Clone, Copy, PartialEq, Eq, Structural)]
pub enum Side {
    Client,
    Server,
}

impl Side {
    /// The opposite side.
    pub open spec fn spec_other(self) -> Side {
        match self {
            Side::Client => Side::Server,
            Side::Server => Side::Client,
        }
    }

    /// The opposite side.
    pub fn other(self) -> (r: Side)
        ensures
            r == self.spec_other(),
    {
        match self {
            Side::Client => Side::Server,
            Side::Server => Side::Client,
        }
    }
}

/// The HKDF info role string of a side: the bytes of "client" or
/// "server".
pub open spec fn spec_role_bytes(side: Side) -> Seq<u8> {
    match side {
        Side::Client => seq![0x63u8, 0x6cu8, 0x69u8, 0x65u8, 0x6eu8, 0x74u8],
        Side::Server => seq![0x73u8, 0x65u8, 0x72u8, 0x76u8, 0x65u8, 0x72u8],
    }
}

/// Builds the role string of a side.
pub fn role_bytes(side: Side) -> (r: Vec<u8>)
    ensures
        r@ == spec_role_bytes(side),
{
    let mut out: Vec<u8> = Vec::new();
    match side {
        Side::Client => {
            out.push(0x63u8);
            out.push(0x6cu8);
            out.push(0x69u8);
            out.push(0x65u8);
            out.push(0x6eu8);
            out.push(0x74u8);
        },
        Side::Server => {
            out.push(0x73u8);
            out.push(0x65u8);
            out.push(0x72u8);
            out.push(0x76u8);
            out.push(0x65u8);
            out.push(0x72u8);
        },
    }
    assert(out@ =~= spec_role_bytes(side));
    out
}

/// The sealing key of a side: derived under its own role string.
pub open spec fn spec_send_key(z: Seq<u8>, nonces: Seq<u8>, side: Side) -> Seq<u8> {
    master_key_of(z, nonces, spec_role_bytes(side))
}

/// The opening key of a side: derived under the peer's role string.
pub open spec fn spec_recv_key(z: Seq<u8>, nonces: Seq<u8>, side: Side) -> Seq<u8> {
    master_key_of(z, nonces, spec_role_bytes(side.spec_other()))
}

/// One side's sealing key is the other side's opening key, and the other
/// way round: the directional keys of the two sides match.
pub proof fn lemma_directional_keys_match(z: Seq<u8>, nonces: Seq<u8>)
    ensures
        spec_send_key(z, nonces, Side::Client) == spec_recv_key(z, nonces, Side::Server),
        spec_recv_key(z, nonces, Side::Client) == spec_send_key(z, nonces, Side::Server),
{
}

/// The secrets of an established session.
pub struct SessionSecrets {
    pub send_key: Vec<u8>,
    pub recv_key: Vec<u8>,
    pub seal_nonces: NonceSequence,
    pub open_nonces: NonceSequence,
}

impl SessionSecrets {
    /// Keys have the AEAD key length; both directions share one nonce
    /// base with independent counters.
    pub open spec fn wf(self) -> bool {
        &&& self.send_key@.len() == AEAD_KEY_LEN
        &&& self.recv_key@.len() == AEAD_KEY_LEN
        &&& self.seal_nonces.wf()
        &&& self.open_nonces.wf()
        &&& self.seal_nonces.base@ == self.open_nonces.base@
    }

    /// The secrets a side derives from a shared secret and the hello
    /// nonces, with both counters at zero.
    pub open spec fn derived_from(self, z: Seq<u8>, nonces: Seq<u8>, side: Side) -> bool {
        &&& self.send_key@ == spec_send_key(z, nonces, side)
        &&& self.recv_key@ == spec_recv_key(z, nonces, side)
        &&& self.seal_nonces.base@ == spec_nonce_base(nonces)
        &&& self.open_nonces.base@ == spec_nonce_base(nonces)
        &&& self.seal_nonces.counter == 0
        &&& self.open_nonces.counter == 0
    }

    /// Derives the session secrets of one side from the shared secret and
    /// the concatenated hello nonces.
    pub fn derive(z: &Vec<u8>, nonces: &Vec<u8>, own_side: Side) -> (r: SessionSecrets)
        requires
            nonces@.len() == 2 * NONCE_LEN,
        ensures
            r.wf(),
            r.derived_from(z@, nonces@, own_side),
    {
        let own_role = role_bytes(own_side);
        let peer_role = role_bytes(own_side.other());
        let send_key = hkdf_master_key(z, nonces, &own_role);
        let recv_key = hkdf_master_key(z, nonces, &peer_role);
        let nonce_base = generate_nonce_base(nonces);
        SessionSecrets {
            send_key,
            recv_key,
            seal_nonces: NonceSequence::new(&nonce_base),
            open_nonces: NonceSequence::new(&nonce_base),
        }
    }

    /// The secrets some thirty-two byte shared secret derives for this
    /// side from these nonces.
    pub open spec fn derived_from_some(self, nonces: Seq<u8>, side: Side) -> bool {
        exists|z: Seq<u8>| z.len() == 32 && #[trigger] self.derived_from(z, nonces, side)
    }

    /// Agrees on the shared secret with the peer's public key, then
    /// derives the session secrets.  The peer key may be rejected; the
    /// derivation itself cannot fail.
    pub fn generate(
        own_private_key: ring::agreement::EphemeralPrivateKey,
        other_public_key: &Vec<u8>,
        nonces: &Vec<u8>,
        own_side: Side,
    ) -> (r: Result<SessionSecrets, CryptoError>)
        requires
            nonces@.len() == 2 * NONCE_LEN,
        ensures
            r matches Ok(s) ==> s.wf() && s.derived_from_some(nonces@, own_side),
    {
        let z = x25519_agree(own_private_key, other_public_key)?;
        let secrets = Self::derive(&z, nonces, own_side);
        proof {
            assert(z@.len() == 32 && secrets.derived_from(z@, nonces@, own_side));
            assert(secrets.derived_from_some(nonces@, own_side));
        }
        Ok(secrets)
    }

    /// Seals a plaintext as the payload of the next outbound secure
    /// frame, advancing the sealing counter once.
    pub fn seal(&mut self, payload: &Vec<u8>) -> (r: Result<Message, CryptoError>)
        requires
            old(self).wf(),
            old(self).seal_nonces.counter < u64::MAX,
            payload@.len() <= MAX_SECURE_PAYLOAD_LEN,
        ensures
            final(self).wf(),
            final(self).send_key@ == old(self).send_key@,
            final(self).recv_key@ == old(self).recv_key@,
            final(self).open_nonces == old(self).open_nonces,
            final(self).seal_nonces.base@ == old(self).seal_nonces.base@,
            final(self).seal_nonces.counter == old(self).seal_nonces.counter + 1,
            r matches Ok(m) && m.wf() && m.header.plain_msg_type == PlainMessageType::Secure
                && m.payload@ == gcm_seal_of(
                old(self).send_key@,
                spec_nonce(old(self).seal_nonces.base@, old(self).seal_nonces.counter),
                payload@,
            ) && m.payload@.len() == payload@.len() + TAG_LEN,
    {
        let nonce = match self.seal_nonces.advance() {
            Ok(nonce) => nonce,
            Err(e) => { return Err(e) },
        };
        let sealed = match aead_seal(&self.send_key, &nonce, payload) {
            Ok(sealed) => sealed,
            Err(e) => { return Err(e) },
        };
        Ok(Message::new(PlainMessageType::Secure, sealed))
    }

    /// Opens the payload of the next inbound secure frame, advancing the
    /// opening counter once.  The result is exactly the plaintext whose
    /// sealing under this key and the expected nonce gives this payload;
    /// any other payload fails.
    pub fn open(&mut self, message: &Message) -> (r: Result<Vec<u8>, CryptoError>)
        requires
            old(self).wf(),
            old(self).open_nonces.counter < u64::MAX,
        ensures
            final(self).wf(),
            final(self).send_key@ == old(self).send_key@,
            final(self).recv_key@ == old(self).recv_key@,
            final(self).seal_nonces == old(self).seal_nonces,
            final(self).open_nonces.base@ == old(self).open_nonces.base@,
            final(self).open_nonces.counter == old(self).open_nonces.counter + 1,
            r matches Ok(p) ==> message.payload@ == gcm_seal_of(
                old(self).recv_key@,
                spec_nonce(old(self).open_nonces.base@, old(self).open_nonces.counter),
                p@,
            ),
            crate::crypto::gcm_open_recovers(
                old(self).recv_key@,
                spec_nonce(old(self).open_nonces.base@, old(self).open_nonces.counter),
                message.payload@,
                r,
            ),
    {
        let nonce = match self.open_nonces.advance() {
            Ok(nonce) => nonce,
            Err(e) => { return Err(e) },
        };
        aead_open(&self.recv_key, &nonce, &message.payload)
    }
}

} // verus!
