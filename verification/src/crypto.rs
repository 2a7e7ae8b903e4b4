//! Cryptographic primitives of the handshake and record layer.  Each
//! outside call stands behind one trusted wrapper; everything around the
//! calls is verified.  Results that no short statement can pin down are
//! given names: `sha256_of`, `master_key_of`, `gcm_seal_of`,
//! `ed25519_verifies`.

use vstd::prelude::*;

use crate::error::CryptoError;
use crate::handshake_msg::ServerHelloMessage;
use crate::message::append_bytes;
use crate::message::copy_bytes_range;
use crate::AEAD_KEY_LEN;
use crate::AEAD_NONCE_LEN;
use crate::MAX_SECURE_PAYLOAD_LEN;
use crate::NONCE_LEN;
use crate::SIGNED_CONTENT_LEN;
use crate::TAG_LEN;
use crate::X25519_PUBLIC_KEY_LEN;

verus! {

/// An X25519 ephemeral private key of the outside crate, held opaquely
/// between sending a hello and deriving the session secrets.
#[verifier::external_type_specification]
#[verifier::external_body]
pub struct ExEphemeralPrivateKey(ring::agreement::EphemeralPrivateKey);

/// What SHA-256 digests to; a function of the input bytes alone.
pub uninterp spec fn sha256_of(data: Seq<u8>) -> Seq<u8>;

/// What the HKDF-SHA256 key schedule yields for a shared secret, a salt
/// of both hello nonces, and a role info string; a function of those
/// bytes alone.
pub uninterp spec fn master_key_of(z: Seq<u8>, nonces: Seq<u8>, role: Seq<u8>) -> Seq<u8>;

/// What AES-128-GCM seals a plaintext to under a key and nonce, tag
/// appended; a function of those bytes alone.
pub uninterp spec fn gcm_seal_of(key: Seq<u8>, nonce: Seq<u8>, plaintext: Seq<u8>) -> Seq<u8>;

/// Whether an Ed25519 signature verifies under a public key; a function
/// of the three byte strings alone.
pub uninterp spec fn ed25519_verifies(key: Seq<u8>, msg: Seq<u8>, sig: Seq<u8>) -> bool;

/// Relies on ring's SystemRandom::fill for sixteen random bytes.  Nothing
/// is promised of the bytes but their number.
#[verifier::external_body]
pub fn generate_nonce() -> (r: Result<Vec<u8>, CryptoError>)
    ensures
        r matches Ok(nonce) ==> nonce@.len() == NONCE_LEN,
{
    let rng = ring::rand::SystemRandom::new();
    let mut nonce = [0u8; 16];
    match ring::rand::SecureRandom::fill(&rng, &mut nonce) {
        Ok(()) => Ok(nonce.to_vec()),
        Err(_) => Err(CryptoError::Unspecified),
    }
}

/// Relies on ring's EphemeralPrivateKey::generate and compute_public_key:
/// a fresh X25519 key pair, the public half as thirty-two bytes.
#[verifier::external_body]
pub fn generate_ephemeral_key_pair() -> (r: Result<
    (ring::agreement::EphemeralPrivateKey, Vec<u8>),
    CryptoError,
>)
    ensures
        r matches Ok(pair) ==> pair.1@.len() == X25519_PUBLIC_KEY_LEN,
{
    let rng = ring::rand::SystemRandom::new();
    let private_key = ring::agreement::EphemeralPrivateKey::generate(
        &ring::agreement::X25519,
        &rng,
    ).map_err(|_| CryptoError::Unspecified)?;
    let public_key = private_key.compute_public_key().map_err(|_| CryptoError::Unspecified)?;
    Ok((private_key, public_key.as_ref().to_vec()))
}

/// Relies on ring's agree_ephemeral over X25519: the thirty-two byte
/// shared secret, or rejection of the peer key.  The secret depends on an
/// opaque private key, so nothing is promised of its value.
#[verifier::external_body]
pub(crate) fn x25519_agree(
    private_key: ring::agreement::EphemeralPrivateKey,
    peer_public_key: &Vec<u8>,
) -> (r: Result<Vec<u8>, CryptoError>)
    ensures
        r matches Ok(z) ==> z@.len() == X25519_PUBLIC_KEY_LEN,
{
    let peer = ring::agreement::UnparsedPublicKey::new(
        &ring::agreement::X25519,
        peer_public_key.as_slice(),
    );
    ring::agreement::agree_ephemeral(private_key, &peer, |key_material| key_material.to_vec())
        .map_err(|_| CryptoError::BadServerPublicKey)
}

/// Relies on ring's UnparsedPublicKey::verify over Ed25519: whether the
/// signature verifies, a function of key, message, and signature.
#[verifier::external_body]
pub(crate) fn ed25519_verify(key: &Vec<u8>, msg: &Vec<u8>, sig: &Vec<u8>) -> (r: bool)
    ensures
        r == ed25519_verifies(key@, msg@, sig@),
{
    let public_key = ring::signature::UnparsedPublicKey::new(
        &ring::signature::ED25519,
        key.as_slice(),
    );
    public_key.verify(msg.as_slice(), sig.as_slice()).is_ok()
}

/// Relies on ring's digest over SHA-256: the thirty-two byte digest, a
/// function of the input alone.
#[verifier::external_body]
pub(crate) fn sha256(data: &Vec<u8>) -> (r: Vec<u8>)
    ensures
        r@ == sha256_of(data@),
        r@.len() == 32,
{
    ring::digest::digest(&ring::digest::SHA256, data.as_slice()).as_ref().to_vec()
}

/// Relies on ring's HKDF-SHA256 Salt::extract and Prk::expand with info
/// role plus "master key", filled to the sixteen-byte AES-128-GCM key
/// length: a function of shared secret, salt, and role.
#[verifier::external_body]
pub(crate) fn hkdf_master_key(z: &Vec<u8>, nonces: &Vec<u8>, role: &Vec<u8>) -> (r: Vec<u8>)
    ensures
        r@ == master_key_of(z@, nonces@, role@),
        r@.len() == AEAD_KEY_LEN,
{
    let salt = ring::hkdf::Salt::new(ring::hkdf::HKDF_SHA256, nonces.as_slice());
    let prk = salt.extract(z.as_slice());
    let info: [&[u8]; 2] = [role.as_slice(), b"master key"];
    let okm = prk.expand(&info, &ring::aead::AES_128_GCM).unwrap();
    let mut key = [0u8; 16];
    okm.fill(&mut key).unwrap();
    key.to_vec()
}

/// Relies on ring's LessSafeKey::seal_in_place_append_tag over
/// AES-128-GCM with empty additional data: ciphertext with the tag
/// appended, a function of key, nonce, and plaintext.
#[verifier::external_body]
pub(crate) fn aead_seal(key: &Vec<u8>, nonce: &Vec<u8>, plaintext: &Vec<u8>) -> (r: Result<
    Vec<u8>,
    CryptoError,
>)
    requires
        key@.len() == AEAD_KEY_LEN,
        nonce@.len() == AEAD_NONCE_LEN,
        plaintext@.len() <= MAX_SECURE_PAYLOAD_LEN,
    ensures
        r is Ok,
        r matches Ok(c) ==> c@ == gcm_seal_of(key@, nonce@, plaintext@) && c@.len() == plaintext@.len() + TAG_LEN,
{
    let unbound = ring::aead::UnboundKey::new(&ring::aead::AES_128_GCM, key.as_slice())
        .map_err(|_| CryptoError::Unspecified)?;
    let sealing = ring::aead::LessSafeKey::new(unbound);
    let n = ring::aead::Nonce::try_assume_unique_for_key(nonce.as_slice())
        .map_err(|_| CryptoError::Unspecified)?;
    let mut data = plaintext.clone();
    sealing.seal_in_place_append_tag(n, ring::aead::Aad::empty(), &mut data)
        .map_err(|_| CryptoError::Unspecified)?;
    Ok(data)
}

/// Opening recovers every sealed plaintext: whenever the payload is what
/// sealing some plaintext under this key and nonce produces, the result
/// is that plaintext.
pub open spec fn gcm_open_recovers(
    key: Seq<u8>,
    nonce: Seq<u8>,
    payload: Seq<u8>,
    r: Result<Vec<u8>, CryptoError>,
) -> bool {
    forall|p: Seq<u8>|
        payload == #[trigger] gcm_seal_of(key, nonce, p) ==> (r matches Ok(q) && q@ == p)
}

/// Relies on ring's LessSafeKey::open_in_place over AES-128-GCM with
/// empty additional data: opening succeeds exactly on what sealing under
/// the same key and nonce produces, and returns that plaintext.
#[verifier::external_body]
pub(crate) fn aead_open(key: &Vec<u8>, nonce: &Vec<u8>, payload: &Vec<u8>) -> (r: Result<
    Vec<u8>,
    CryptoError,
>)
    requires
        key@.len() == AEAD_KEY_LEN,
        nonce@.len() == AEAD_NONCE_LEN,
    ensures
        r matches Ok(p) ==> payload@ == gcm_seal_of(key@, nonce@, p@),
        gcm_open_recovers(key@, nonce@, payload@, r),
{
    let unbound = ring::aead::UnboundKey::new(&ring::aead::AES_128_GCM, key.as_slice())
        .map_err(|_| CryptoError::Unspecified)?;
    let opening = ring::aead::LessSafeKey::new(unbound);
    let n = ring::aead::Nonce::try_assume_unique_for_key(nonce.as_slice())
        .map_err(|_| CryptoError::Unspecified)?;
    let mut data = payload.clone();
    let out = opening.open_in_place(n, ring::aead::Aad::empty(), &mut data)
        .map_err(|_| CryptoError::Unspecified)?;
    Ok(out.to_vec())
}

/// The bytes the server signs: client nonce, server nonce, and the
/// server's X25519 public key, in that order.
pub open spec fn spec_signed_content(
    client_nonce: Seq<u8>,
    server_nonce: Seq<u8>,
    server_public_key: Seq<u8>,
) -> Seq<u8> {
    client_nonce + server_nonce + server_public_key
}

/// Builds the signed content from its three parts.
pub fn build_signed_content(
    client_nonce: &Vec<u8>,
    server_nonce: &Vec<u8>,
    server_public_key: &Vec<u8>,
) -> (r: Vec<u8>)
    requires
        client_nonce@.len() == NONCE_LEN,
        server_nonce@.len() == NONCE_LEN,
        server_public_key@.len() == X25519_PUBLIC_KEY_LEN,
    ensures
        r@ == spec_signed_content(client_nonce@, server_nonce@, server_public_key@),
        r@.len() == SIGNED_CONTENT_LEN,
{
    let mut content: Vec<u8> = Vec::new();
    append_bytes(&mut content, client_nonce);
    append_bytes(&mut content, server_nonce);
    append_bytes(&mut content, server_public_key);
    content
}

/// Checks the server hello signature over exactly the signed content and
/// returns the concatenated nonces on success.  The signature error comes
/// back exactly when Ed25519 verification rejects.
pub fn verify_server_hello(
    msg: &ServerHelloMessage,
    client_nonce: &Vec<u8>,
    server_sig_pub_key: &Vec<u8>,
) -> (r: Result<Vec<u8>, CryptoError>)
    requires
        msg.wf(),
        client_nonce@.len() == NONCE_LEN,
    ensures
        ed25519_verifies(
            server_sig_pub_key@,
            spec_signed_content(client_nonce@, msg.nonce@, msg.public_key_bytes@),
            msg.signature@,
        ) ==> (r matches Ok(nonces) && nonces@ == client_nonce@ + msg.nonce@),
        !ed25519_verifies(
            server_sig_pub_key@,
            spec_signed_content(client_nonce@, msg.nonce@, msg.public_key_bytes@),
            msg.signature@,
        ) ==> r == Err::<Vec<u8>, CryptoError>(CryptoError::BadServerHelloSignature),
{
    let content = build_signed_content(client_nonce, &msg.nonce, &msg.public_key_bytes);
    if !ed25519_verify(server_sig_pub_key, &content, &msg.signature) {
        return Err(CryptoError::BadServerHelloSignature);
    }
    let nonces = copy_bytes_range(&content, 0, 2 * NONCE_LEN);
    assert(nonces@ =~= client_nonce@ + msg.nonce@);
    Ok(nonces)
}

/// The AEAD nonce base: the first twelve bytes of SHA-256 over both hello
/// nonces.
pub open spec fn spec_nonce_base(nonces: Seq<u8>) -> Seq<u8> {
    sha256_of(nonces).take(AEAD_NONCE_LEN as int)
}

/// Derives the twelve-byte AEAD nonce base from the concatenated nonces.
pub fn generate_nonce_base(nonces: &Vec<u8>) -> (r: Vec<u8>)
    ensures
        r@ == spec_nonce_base(nonces@),
        r@.len() == AEAD_NONCE_LEN,
{
    let digest = sha256(nonces);
    let base = copy_bytes_range(&digest, 0, AEAD_NONCE_LEN);
    proof {
        assert(base@ =~= spec_nonce_base(nonces@));
    }
    base
}

} // verus!
