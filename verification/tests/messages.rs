use hermit::handshake_msg::ClientHelloMessage;
use hermit::handshake_msg::DisconnectMessage;
use hermit::handshake_msg::DowngradeMessage;
use hermit::handshake_msg::ServerHelloMessage;
use hermit::header::MessageHeader;
use hermit::header::PlainMessageType;
use hermit::header::ProtocolVersion;
use hermit::len_limit_msg::AdjustLenLimitRequest;
use hermit::len_limit_msg::AdjustLenLimitResponse;
use hermit::len_limit_msg::AdjustMessageLengthRequest;
use hermit::message::Message;

#[test]
fn test_disconnect_message() {
    let msg = DisconnectMessage {};
    let msg_from = msg.into_message();
    let msg_back = DisconnectMessage::try_from_message(&msg_from).unwrap();
    assert_eq!(msg, msg_back);
}

#[test]
fn handshake_test_disconnect_message() {
    let msg = DisconnectMessage {};
    let msg_from = msg.into_message();
    let msg_back = DisconnectMessage::try_from_message(&msg_from).unwrap();
    assert_eq!(msg, msg_back);
}

#[test]
fn test_client_hello_message() {
    let nonce = hermit::crypto::generate_nonce().unwrap();
    let (_private_key, public_key_bytes) = hermit::crypto::generate_ephemeral_key_pair().unwrap();
    let test = ClientHelloMessage { nonce, public_key_bytes };
    let test_message = test.clone().into_message();
    let test_from_message = ClientHelloMessage::try_from_message(&test_message).unwrap();
    assert_eq!(test, test_from_message);
}

#[test]
fn test_server_hello_message() {
    let rng = ring::rand::SystemRandom::new();
    let doc = ring::signature::Ed25519KeyPair::generate_pkcs8(&rng).unwrap();
    let sig_key_pair = ring::signature::Ed25519KeyPair::from_pkcs8(doc.as_ref()).unwrap();

    let client_nonce = hermit::crypto::generate_nonce().unwrap();
    let nonce = hermit::crypto::generate_nonce().unwrap();
    let (_private_key, public_key_bytes) = hermit::crypto::generate_ephemeral_key_pair().unwrap();
    assert_eq!(public_key_bytes.len(), 32);
    let sig_content_bytes =
        [client_nonce.as_slice(), nonce.as_slice(), public_key_bytes.as_slice()].concat();

    let test = ServerHelloMessage {
        nonce,
        public_key_bytes,
        signature: sig_key_pair.sign(&sig_content_bytes).as_ref().to_vec(),
    };

    let test_message = test.clone().into_message();
    let test_from_message = ServerHelloMessage::try_from_message(&test_message).unwrap();
    assert_eq!(test, test_from_message);
}

#[test]
fn downgrade_message_round_trip() {
    let msg = DowngradeMessage {};
    let msg_from = msg.into_message();
    assert_eq!(msg_from.encode(), vec![0x04, 0x01, 0x00, 0x00]);
    let msg_back = DowngradeMessage::try_from_message(&msg_from).unwrap();
    assert_eq!(msg, msg_back);
}

#[test]
fn client_hello_frame_bytes() {
    let nonce: Vec<u8> = (0x00u8..0x10u8).collect();
    let public_key_bytes: Vec<u8> = (0x10u8..0x30u8).collect();
    let hello = ClientHelloMessage { nonce: nonce.clone(), public_key_bytes: public_key_bytes.clone() };
    let frame = hello.into_message().encode();

    let mut expected = vec![0x01u8, 0x01, 0x00, 0x30];
    expected.extend(0x00u8..0x30u8);
    assert_eq!(frame, expected);
    assert_eq!(frame.len(), 52);

    let parsed = Message::parse(&frame).unwrap();
    let back = ClientHelloMessage::try_from_message(&parsed).unwrap();
    assert_eq!(back.nonce, nonce);
    assert_eq!(back.public_key_bytes, public_key_bytes);
}

#[test]
fn disconnect_frame_bytes() {
    let frame = DisconnectMessage {}.into_message().encode();
    assert_eq!(frame, vec![0x03, 0x01, 0x00, 0x00]);
}

#[test]
fn header_encode_parse_round_trip() {
    let header = MessageHeader::new(PlainMessageType::ServerHello, ProtocolVersion::V0_1, 0x1234);
    let bytes = header.to_bytes();
    assert_eq!(bytes, vec![0x02, 0x01, 0x12, 0x34]);
    let head: [u8; 4] = [bytes[0], bytes[1], bytes[2], bytes[3]];
    let parsed = MessageHeader::try_from_bytes(&head).unwrap();
    assert_eq!(parsed, header);
}

#[test]
fn header_rejects_unknown_type_and_version() {
    assert!(matches!(
        MessageHeader::try_from_bytes(&[0x20, 0x01, 0x00, 0x00]),
        Err(hermit::error::InvalidMessageError::MessageType(0x20))
    ));
    assert!(matches!(
        MessageHeader::try_from_bytes(&[0x00, 0x02, 0x00, 0x00]),
        Err(hermit::error::InvalidMessageError::ProtocolVersion(0x02))
    ));
}

#[test]
fn frame_parse_rejects_length_mismatch() {
    let bytes = vec![0x03u8, 0x01, 0x00, 0x02, 0xAA];
    assert!(matches!(
        Message::parse(&bytes),
        Err(hermit::error::InvalidMessageError::PayloadLengthMismatch { expected: 2, actual: 1 })
    ));
}

#[test]
fn adjust_len_limit_request_frame_bytes() {
    let request = AdjustLenLimitRequest::try_from_usize(4096).unwrap();
    let frame = request.into_message().encode();
    assert_eq!(frame, vec![0x10, 0x01, 0x00, 0x02, 0x10, 0x00]);

    let parsed = Message::parse(&frame).unwrap();
    let back = AdjustLenLimitRequest::try_from_message(&parsed).unwrap();
    assert_eq!(back.to_usize(), 4096);
}

#[test]
fn adjust_len_limit_response_frame_bytes() {
    let response = AdjustLenLimitResponse::from_bool(true);
    let frame = response.into_message().encode();
    assert_eq!(frame, vec![0x11, 0x01, 0x00, 0x01, 0x01]);

    let parsed = Message::parse(&frame).unwrap();
    let back = AdjustLenLimitResponse::try_from_message(&parsed).unwrap();
    assert!(back.to_bool());

    let rejected = AdjustLenLimitResponse::from_bool(false).into_message().encode();
    assert_eq!(rejected, vec![0x11, 0x01, 0x00, 0x01, 0x00]);
}

#[test]
fn adjust_len_limit_request_rejects_out_of_range() {
    assert!(matches!(
        AdjustLenLimitRequest::try_from_usize(1022),
        Err(hermit::error::LenLimitAdjustmentError::InvalidLimit(1022))
    ));
    assert!(matches!(
        AdjustLenLimitRequest::try_from_usize(32768),
        Err(hermit::error::LenLimitAdjustmentError::InvalidLimit(32768))
    ));
    assert!(AdjustLenLimitRequest::try_from_usize(1023).is_ok());
    assert!(AdjustLenLimitRequest::try_from_usize(32767).is_ok());
}

#[test]
fn adjust_message_length_request_bounds() {
    assert!(AdjustMessageLengthRequest::try_new(1022).is_none());
    assert!(AdjustMessageLengthRequest::try_new(32768).is_none());
    let req = AdjustMessageLengthRequest::try_new(2048).unwrap();
    assert_eq!(req.length(), 2048);
}
