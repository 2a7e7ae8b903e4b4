use hermit::header::PlainMessageType;
use hermit::header::ProtocolVersion;
use hermit::message::Message;
use hermit::plain_message::PlainMessage;
use hermit::secure_message::SecureMessage;
use hermit::secure_message::SecureMessageType;

#[test]
fn plain_message_layout() {
    let msg = PlainMessage::new(5, PlainMessageType::ClientHello);
    assert_eq!(msg.0.len(), 9);
    assert_eq!(msg.0[0], 0x01);
    assert_eq!(msg.0[1], 0x01);
    assert_eq!(msg.length(), 5);
    assert_eq!(msg.plain_msg_type().unwrap(), PlainMessageType::ClientHello);
    assert_eq!(msg.version().unwrap(), ProtocolVersion::V0_1);
    assert_eq!(msg.payload(), vec![0u8; 5]);
}

#[test]
fn plain_message_raw_and_payload_mut() {
    let header: [u8; 4] = [0x00, 0x01, 0x00, 0x03];
    let mut msg = PlainMessage::raw(&header);
    assert_eq!(msg.0.len(), 7);
    assert_eq!(msg.length(), 3);
    msg.payload_mut(0, 0xAA);
    msg.payload_mut(2, 0xCC);
    assert_eq!(msg.payload(), vec![0xAA, 0x00, 0xCC]);
}

#[test]
fn secure_message_layout_and_accessors() {
    let mut record = SecureMessage::new(10, SecureMessageType::SendResourceRequest).unwrap();
    assert_eq!(record.0.len(), 8 + 10 + 16);
    assert_eq!(record.secure_msg_type().unwrap(), SecureMessageType::SendResourceRequest);
    assert_eq!(record.payload(), vec![0u8; 10]);
    assert_eq!(record.tag(), vec![0u8; 16]);

    record.payload_mut(0, 0x11);
    record.tag_mut(15, 0x22);
    assert_eq!(record.payload()[0], 0x11);
    assert_eq!(record.tag()[15], 0x22);
}

#[test]
fn secure_message_rejects_oversized_payload() {
    assert!(SecureMessage::new(70000, SecureMessageType::SendResourceResponse).is_err());
}

#[test]
fn secure_message_frame_round_trip() {
    let record = SecureMessage::new(10, SecureMessageType::ReceiveResourceRequest).unwrap();
    let bytes_before = record.0.clone();

    let frame = record.into_message();
    assert_eq!(frame.header().plain_msg_type(), PlainMessageType::Secure);
    assert_eq!(frame.header().length(), bytes_before.len() - 4);

    let back = SecureMessage::from_message(&frame).unwrap();
    assert_eq!(&back.0[4..], &bytes_before[4..]);
}

#[test]
fn secure_message_type_codes_round_trip() {
    let types = [
        SecureMessageType::SendResourceRequest,
        SecureMessageType::SendResourceResponse,
        SecureMessageType::ReceiveResourceRequest,
        SecureMessageType::ReceiveResourceResponse,
    ];
    for t in types {
        assert_eq!(SecureMessageType::try_from_u8(t.code()).unwrap(), t);
    }
    assert!(SecureMessageType::try_from_u8(0x09).is_err());
}

#[test]
fn message_accessors_follow_the_header() {
    let mut msg = Message::new(PlainMessageType::Downgrade, vec![]);
    assert_eq!(msg.msg_type(), PlainMessageType::Downgrade);
    assert_eq!(msg.version(), ProtocolVersion::V0_1);
    assert_eq!(msg.length(), 0);

    msg.payload_mut().push(0x7F);
    assert_eq!(msg.payload().len(), 1);
}

#[test]
fn message_raw_allocates_the_declared_payload() {
    let header: [u8; 4] = [0x02, 0x01, 0x00, 0x70];
    let msg = Message::raw(&header).unwrap();
    assert_eq!(msg.msg_type(), PlainMessageType::ServerHello);
    assert_eq!(msg.length(), 0x70);
    assert_eq!(msg.payload().len(), 0x70);
    assert!(Message::raw(&[0x55, 0x01, 0x00, 0x00]).is_err());
}
