use hermit::buffer::ReadBuffer;
use hermit::buffer::WriteBuffer;
use hermit::channel::clamp_len_limit;
use hermit::channel::recv_check;
use hermit::channel::send_check;
use hermit::channel::InnerSink;
use hermit::error::InvalidMessageError;
use hermit::header::MessageHeader;
use hermit::header::PlainMessageType;
use hermit::header::ProtocolVersion;
use hermit::message::Message;

fn frame_of_len(len: usize) -> Message {
    Message::new(PlainMessageType::Secure, vec![0u8; len])
}

#[test]
fn sink_back_pressure_bounds_buffered_bytes() {
    let limit: usize = 1023;
    let mut sink = InnerSink::new(2);
    assert!(sink.is_empty());

    // With multiplier two, two maximum-size frames fit before readiness drops.
    assert!(sink.ready(limit));
    sink.push(frame_of_len(limit), limit);
    assert!(sink.ready(limit));
    sink.push(frame_of_len(limit), limit);
    assert!(!sink.ready(limit));
    assert_eq!(sink.total_byte_len, 2 * limit);

    // Draining the head restores readiness.
    let head = sink.pop().unwrap();
    assert_eq!(head.length(), limit);
    assert!(sink.ready(limit));
    assert_eq!(sink.total_byte_len, limit);

    let second = sink.pop().unwrap();
    assert_eq!(second.length(), limit);
    assert!(sink.is_empty());
    assert!(sink.pop().is_none());
}

#[test]
fn sink_preserves_frame_order() {
    let limit: usize = 32767;
    let mut sink = InnerSink::new(4);
    sink.push(Message::new(PlainMessageType::Secure, vec![1u8; 1023]), limit);
    sink.push(Message::new(PlainMessageType::Secure, vec![2u8; 1024]), limit);
    sink.push(Message::new(PlainMessageType::Secure, vec![3u8; 1025]), limit);
    assert_eq!(sink.pop().unwrap().payload()[0], 1);
    assert_eq!(sink.pop().unwrap().payload()[0], 2);
    assert_eq!(sink.pop().unwrap().payload()[0], 3);
}

#[test]
fn send_check_enforces_range_limit_and_header() {
    let limit: usize = 2048;

    assert!(send_check(limit, &frame_of_len(1023)).is_ok());
    assert!(send_check(limit, &frame_of_len(2048)).is_ok());

    assert!(matches!(
        send_check(limit, &frame_of_len(100)),
        Err(InvalidMessageError::PayloadLengthOutOfRange { length: 100 })
    ));
    assert!(matches!(
        send_check(limit, &frame_of_len(2049)),
        Err(InvalidMessageError::PayloadLengthAboveLimit { length: 2049, limit: 2048 })
    ));

    let mut msg = frame_of_len(1500);
    msg.header_mut().length = 1400;
    assert!(matches!(
        send_check(limit, &msg),
        Err(InvalidMessageError::PayloadLengthMismatch { expected: 1400, actual: 1500 })
    ));
}

#[test]
fn send_check_follows_a_limit_change() {
    // Before the change a frame of the new size is rejected; after it,
    // admitted.
    let frame = frame_of_len(4096);
    assert!(send_check(1023, &frame).is_err());
    assert!(send_check(4096, &frame).is_ok());
}

#[test]
fn clamp_keeps_the_negotiable_range() {
    assert_eq!(clamp_len_limit(0), 1023);
    assert_eq!(clamp_len_limit(1023), 1023);
    assert_eq!(clamp_len_limit(5000), 5000);
    assert_eq!(clamp_len_limit(32767), 32767);
    assert_eq!(clamp_len_limit(100000), 32767);
}

#[test]
fn write_buffer_chunks_at_the_limit() {
    let limit: usize = 1023;
    let cap = limit - 16;
    let mut buffer = WriteBuffer::new();

    let source: Vec<u8> = (0..2000u32).map(|i| (i % 251) as u8).collect();
    let frames = buffer.write(&source, limit);
    assert_eq!(frames.len(), 1);
    assert_eq!(frames[0].len(), cap);
    assert_eq!(frames[0], source[..cap].to_vec());

    let tail = buffer.flush().unwrap();
    assert_eq!(tail, source[cap..].to_vec());
    assert!(buffer.flush().is_none());
}

#[test]
fn write_buffer_emits_exact_multiples_with_nothing_pending() {
    let limit: usize = 1023;
    let cap = limit - 16;
    let mut buffer = WriteBuffer::new();
    let source = vec![0x5Au8; cap * 2];
    let frames = buffer.write(&source, limit);
    assert_eq!(frames.len(), 2);
    assert!(buffer.flush().is_none());
}

#[test]
fn read_buffer_hands_out_bytes_in_order() {
    let mut buffer = ReadBuffer::new();
    assert!(buffer.is_empty());

    buffer.fill((0u8..100u8).collect());
    assert!(!buffer.is_empty());

    let first = buffer.read(30);
    assert_eq!(first, (0u8..30u8).collect::<Vec<u8>>());
    let rest = buffer.read(1000);
    assert_eq!(rest, (30u8..100u8).collect::<Vec<u8>>());
    assert!(buffer.is_empty());
    assert_eq!(buffer.read(10), Vec::<u8>::new());
}

#[test]
fn chunker_round_trip_through_buffers() {
    let limit: usize = 1023;
    let source: Vec<u8> = (0..3000u32).map(|i| (i % 256) as u8).collect();

    let mut writer = WriteBuffer::new();
    let mut chunks = writer.write(&source, limit);
    if let Some(tail) = writer.flush() {
        chunks.push(tail);
    }

    let mut reader = ReadBuffer::new();
    let mut reassembled: Vec<u8> = Vec::new();
    for chunk in chunks {
        reader.fill(chunk);
        while !reader.is_empty() {
            reassembled.extend(reader.read(7));
        }
    }
    assert_eq!(reassembled, source);
}

#[test]
fn recv_check_enforces_range_and_limit() {
    let header = |len: usize| MessageHeader::new(PlainMessageType::Secure, ProtocolVersion::V0_1, len);
    assert!(recv_check(2048, &header(1023)).is_ok());
    assert!(recv_check(2048, &header(2048)).is_ok());
    assert!(matches!(
        recv_check(2048, &header(48)),
        Err(InvalidMessageError::PayloadLengthOutOfRange { length: 48 })
    ));
    assert!(matches!(
        recv_check(2048, &header(2049)),
        Err(InvalidMessageError::PayloadLengthAboveLimit { length: 2049, limit: 2048 })
    ));
}
