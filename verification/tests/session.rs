use hermit::client::Client;
use hermit::client::ServerSigPubKey;
use hermit::client::State;
use hermit::error::CryptoError;
use hermit::error::Error;
use hermit::handshake_msg::ClientHelloMessage;
use hermit::handshake_msg::DowngradeMessage;
use hermit::handshake_msg::ServerHelloMessage;
use hermit::secrets::SessionSecrets;
use hermit::secrets::Side;

// A test double for the server side, built directly on ring.
struct TestServer {
    key_pair: ring::signature::Ed25519KeyPair,
    pub_key: Vec<u8>,
}

fn test_server() -> TestServer {
    let rng = ring::rand::SystemRandom::new();
    let doc = ring::signature::Ed25519KeyPair::generate_pkcs8(&rng).unwrap();
    let key_pair = ring::signature::Ed25519KeyPair::from_pkcs8(doc.as_ref()).unwrap();
    let pub_key = ring::signature::KeyPair::public_key(&key_pair).as_ref().to_vec();
    TestServer { key_pair, pub_key }
}

// Answers a client hello the way the protocol asks the server to:
// fresh nonce and ephemeral key, a signature over both nonces and the
// server public key, and the server-side session secrets.
fn answer_hello(server: &TestServer, hello: &ClientHelloMessage) -> (ServerHelloMessage, SessionSecrets) {
    let rng = ring::rand::SystemRandom::new();
    let server_nonce = hermit::crypto::generate_nonce().unwrap();
    let private_key =
        ring::agreement::EphemeralPrivateKey::generate(&ring::agreement::X25519, &rng).unwrap();
    let public_key_bytes = private_key.compute_public_key().unwrap().as_ref().to_vec();

    let content =
        [hello.nonce.as_slice(), server_nonce.as_slice(), public_key_bytes.as_slice()].concat();
    let signature = server.key_pair.sign(&content).as_ref().to_vec();

    let peer = ring::agreement::UnparsedPublicKey::new(
        &ring::agreement::X25519,
        hello.public_key_bytes.clone(),
    );
    let z = ring::agreement::agree_ephemeral(private_key, &peer, |km| km.to_vec()).unwrap();

    let nonces = [hello.nonce.as_slice(), server_nonce.as_slice()].concat();
    let secrets = SessionSecrets::derive(&z, &nonces, Side::Server);

    (ServerHelloMessage { nonce: server_nonce, public_key_bytes, signature }, secrets)
}

#[test]
fn handshake_and_secure_exchange() {
    let server = test_server();
    let mut client = Client::new();

    let hello_frame = client.send_client_hello(ServerSigPubKey::new(server.pub_key.clone())).unwrap();
    let hello = ClientHelloMessage::try_from_message(&hello_frame).unwrap();
    assert!(matches!(client.state, State::Handshaking { .. }));

    let (server_hello, mut server_secrets) = answer_hello(&server, &hello);
    client.recv_server_hello(server_hello).unwrap();
    assert!(matches!(client.state, State::Secure { .. }));

    // Client seals; the server-side secrets open to the same bytes.
    let plaintext = b"HELLO".to_vec();
    let sealed = client.seal_secure(&plaintext).unwrap();
    let opened = server_secrets.open(&sealed).unwrap();
    assert_eq!(opened, plaintext);

    // Server seals; the client opens.
    let reply = b"WELCOME".to_vec();
    let from_server = server_secrets.seal(&reply).unwrap();
    let opened_by_client = client.open_secure(&from_server).unwrap();
    assert_eq!(opened_by_client, reply);
}

#[test]
fn bad_signature_returns_to_insecure() {
    let server = test_server();
    let mut client = Client::new();
    let hello_frame = client.send_client_hello(ServerSigPubKey::new(server.pub_key.clone())).unwrap();
    let hello = ClientHelloMessage::try_from_message(&hello_frame).unwrap();

    let (mut server_hello, _secrets) = answer_hello(&server, &hello);
    server_hello.signature[0] ^= 0x01;

    let err = client.recv_server_hello(server_hello).unwrap_err();
    assert!(matches!(err, Error::Crypto(CryptoError::BadServerHelloSignature)));
    assert!(matches!(client.state, State::Insecure));
}

#[test]
fn altered_signed_content_rejected() {
    let server = test_server();

    // Alter each field of the signed content in turn before verification.
    for field in 0..3 {
        let mut client = Client::new();
        let hello_frame =
            client.send_client_hello(ServerSigPubKey::new(server.pub_key.clone())).unwrap();
        let hello = ClientHelloMessage::try_from_message(&hello_frame).unwrap();
        let (mut server_hello, _secrets) = answer_hello(&server, &hello);
        match field {
            0 => server_hello.nonce[3] ^= 0x80,
            1 => server_hello.public_key_bytes[7] ^= 0x80,
            _ => server_hello.signature[63] ^= 0x80,
        }
        let err = client.recv_server_hello(server_hello).unwrap_err();
        assert!(matches!(err, Error::Crypto(CryptoError::BadServerHelloSignature)));
        assert!(matches!(client.state, State::Insecure));
    }
}

#[test]
fn tampered_record_closes_session() {
    let server = test_server();
    let mut client = Client::new();
    let hello_frame = client.send_client_hello(ServerSigPubKey::new(server.pub_key.clone())).unwrap();
    let hello = ClientHelloMessage::try_from_message(&hello_frame).unwrap();
    let (server_hello, mut server_secrets) = answer_hello(&server, &hello);
    client.recv_server_hello(server_hello).unwrap();

    let mut sealed = server_secrets.seal(&b"HELLO".to_vec()).unwrap();
    let tampered = sealed.payload_mut();
    tampered[2] ^= 0x40;

    let err = client.open_secure(&sealed).unwrap_err();
    assert!(matches!(err, Error::Crypto(_)));
    assert!(matches!(client.state, State::Closed));
}

#[test]
fn hello_in_wrong_state_is_rejected() {
    let server = test_server();
    let mut client = Client::new();
    let _ = client.send_client_hello(ServerSigPubKey::new(server.pub_key.clone())).unwrap();
    let err = client.send_client_hello(ServerSigPubKey::new(server.pub_key.clone())).unwrap_err();
    assert!(matches!(err, Error::IllegalState));
}

#[test]
fn downgrade_drops_secrets() {
    let server = test_server();
    let mut client = Client::new();
    let hello_frame = client.send_client_hello(ServerSigPubKey::new(server.pub_key.clone())).unwrap();
    let hello = ClientHelloMessage::try_from_message(&hello_frame).unwrap();
    let (server_hello, _secrets) = answer_hello(&server, &hello);
    client.recv_server_hello(server_hello).unwrap();

    let frame = client.send_downgrade().unwrap();
    assert_eq!(frame.encode(), vec![0x04, 0x01, 0x00, 0x00]);
    assert!(matches!(client.state, State::Insecure));

    // A downgrade outside the secure state is illegal.
    let err = client.recv_downgrade(DowngradeMessage {}).unwrap_err();
    assert!(matches!(err, Error::IllegalState));
}

#[test]
fn disconnect_frame_from_any_state() {
    let client = Client::new();
    let frame = client.send_disconnect();
    assert_eq!(frame.encode(), vec![0x03, 0x01, 0x00, 0x00]);
}
