use hermit::nonce::NonceSequence;
use hermit::secrets::SessionSecrets;
use hermit::secrets::Side;

#[test]
fn test_generate_nonce() {
    assert_ne!(hermit::crypto::generate_nonce().unwrap(), vec![0u8; 16]);
}

#[test]
fn test_aead_key_len() {
    assert_eq!(hermit::AEAD_KEY_LEN, ring::aead::AES_128_GCM.key_len());
}

// One key type used throughout: 16 bytes for HKDF-Expand output length.
struct KeyLen;

impl ring::hkdf::KeyType for KeyLen {
    fn len(&self) -> usize {
        16
    }
}

// The key schedule computed directly through ring, outside the library.
fn expected_master_key(z: &[u8], nonces: &[u8], role: &[u8]) -> Vec<u8> {
    let salt = ring::hkdf::Salt::new(ring::hkdf::HKDF_SHA256, nonces);
    let prk = salt.extract(z);
    let info: [&[u8]; 2] = [role, b"master key"];
    let okm = prk.expand(&info, KeyLen).unwrap();
    let mut key = [0u8; 16];
    okm.fill(&mut key).unwrap();
    key.to_vec()
}

fn scenario_inputs() -> (Vec<u8>, Vec<u8>) {
    let z = vec![0xAAu8; 32];
    let mut nonces = vec![0x00u8; 16];
    nonces.extend(vec![0x01u8; 16]);
    (z, nonces)
}

#[test]
fn key_schedule_matches_hkdf() {
    let (z, nonces) = scenario_inputs();
    let secrets = SessionSecrets::derive(&z, &nonces, Side::Client);
    assert_eq!(secrets.send_key, expected_master_key(&z, &nonces, b"client"));
    assert_eq!(secrets.recv_key, expected_master_key(&z, &nonces, b"server"));
    assert_eq!(secrets.send_key.len(), 16);

    let digest = ring::digest::digest(&ring::digest::SHA256, &nonces);
    assert_eq!(secrets.seal_nonces.base, digest.as_ref()[..12].to_vec());
}

#[test]
fn directional_keys_match_across_sides() {
    let (z, nonces) = scenario_inputs();
    let client = SessionSecrets::derive(&z, &nonces, Side::Client);
    let server = SessionSecrets::derive(&z, &nonces, Side::Server);
    assert_eq!(client.send_key, server.recv_key);
    assert_eq!(client.recv_key, server.send_key);
    assert_eq!(client.seal_nonces.base, server.open_nonces.base);
}

#[test]
fn seal_open_round_trip() {
    let (z, nonces) = scenario_inputs();
    let mut client = SessionSecrets::derive(&z, &nonces, Side::Client);
    let mut server = SessionSecrets::derive(&z, &nonces, Side::Server);

    let plaintext = b"HELLO".to_vec();
    let sealed = client.seal(&plaintext).unwrap();
    assert_eq!(sealed.payload().len(), plaintext.len() + 16);
    let opened = server.open(&sealed).unwrap();
    assert_eq!(opened, plaintext);

    // The counters advanced in step; a second record still matches.
    let second = b"WORLD!".to_vec();
    let sealed2 = client.seal(&second).unwrap();
    let opened2 = server.open(&sealed2).unwrap();
    assert_eq!(opened2, second);
}

#[test]
fn tampering_any_bit_fails_open() {
    let (z, nonces) = scenario_inputs();
    let mut client = SessionSecrets::derive(&z, &nonces, Side::Client);
    let plaintext = b"HELLO".to_vec();
    let sealed = client.seal(&plaintext).unwrap();
    let payload = sealed.payload().clone();

    for byte in 0..payload.len() {
        for bit in 0..8 {
            let mut corrupted = payload.clone();
            corrupted[byte] ^= 1 << bit;
            let msg = hermit::message::Message::new(
                hermit::header::PlainMessageType::Secure,
                corrupted,
            );
            let mut server = SessionSecrets::derive(&z, &nonces, Side::Server);
            assert!(server.open(&msg).is_err());
        }
    }
}

#[test]
fn nonce_sequence_is_deterministic_and_distinct() {
    let base: Vec<u8> = (0u8..12u8).collect();
    let mut seq = NonceSequence::new(&base);
    let first = seq.advance().unwrap();
    let second = seq.advance().unwrap();
    assert_eq!(first, base);
    assert_ne!(first, second);
    assert_eq!(seq.counter, 2);

    // The counter lands in the low eight bytes, big-endian.
    let far = NonceSequence::xor(&base, 0x0102030405060708);
    let mut expected = base.clone();
    for (i, b) in [1u8, 2, 3, 4, 5, 6, 7, 8].iter().enumerate() {
        expected[4 + i] ^= *b;
    }
    assert_eq!(far, expected);
}

#[test]
fn nonce_base_is_sha256_prefix() {
    let nonces: Vec<u8> = (0u8..32u8).collect();
    let base = hermit::crypto::generate_nonce_base(&nonces);
    let digest = ring::digest::digest(&ring::digest::SHA256, &nonces);
    assert_eq!(base, digest.as_ref()[..12].to_vec());
    assert_eq!(base.len(), 12);
}

#[test]
fn signed_content_layout() {
    let client_nonce = vec![0x11u8; 16];
    let server_nonce = vec![0x22u8; 16];
    let server_pub = vec![0x33u8; 32];
    let content = hermit::crypto::build_signed_content(&client_nonce, &server_nonce, &server_pub);
    assert_eq!(content.len(), 64);
    assert_eq!(&content[..16], client_nonce.as_slice());
    assert_eq!(&content[16..32], server_nonce.as_slice());
    assert_eq!(&content[32..], server_pub.as_slice());
}

#[test]
fn sealed_record_opens_under_ring_directly() {
    let (z, nonces) = scenario_inputs();
    let mut client = SessionSecrets::derive(&z, &nonces, Side::Client);
    let plaintext = b"HELLO".to_vec();
    let sealed = client.seal(&plaintext).unwrap();

    // Rebuild the same key and nonce through ring alone and open there.
    let key_bytes = expected_master_key(&z, &nonces, b"client");
    let digest = ring::digest::digest(&ring::digest::SHA256, &nonces);
    let nonce_bytes: [u8; 12] = digest.as_ref()[..12].try_into().unwrap();

    let unbound = ring::aead::UnboundKey::new(&ring::aead::AES_128_GCM, &key_bytes).unwrap();
    let opening = ring::aead::LessSafeKey::new(unbound);
    let nonce = ring::aead::Nonce::assume_unique_for_key(nonce_bytes);
    let mut data = sealed.payload().clone();
    let opened = opening.open_in_place(nonce, ring::aead::Aad::empty(), &mut data).unwrap();
    assert_eq!(opened.to_vec(), plaintext);
}
