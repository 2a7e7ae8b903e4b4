//! The fixed four-byte frame header: message type, protocol version, and
//! big-endian payload length, with byte-exact encoding and parsing.

use vstd::prelude::*;

use crate::error::InvalidMessageError;
use crate::MAX_PAYLOAD_LEN;
use crate::MSG_HEADER_LEN;

verus! {

/// Version of the plain frame protocol.
#[derive(Debug, Clone, Copy, PartialEq, Eq, Structural)]
pub enum ProtocolVersion {
    V0_1,
}

/// The type of a plain frame.
#[derive(Debug, Clone, Copy, PartialEq, Eq, Structural)]
pub enum PlainMessageType {
    Secure,
    ClientHello,
    ServerHello,
    Disconnect,
    Downgrade,
    AdjustLenLimitRequest,
    AdjustLenLimitResponse,
}

/// The wire code of a protocol version.
pub open spec fn spec_version_code(v: ProtocolVersion) -> u8 {
    match v {
        ProtocolVersion::V0_1 => 0x01,
    }
}

/// The protocol version a byte names, if any.
pub open spec fn spec_version_of(b: u8) -> Option<ProtocolVersion> {
    if b == 0x01 {
        Some(ProtocolVersion::V0_1)
    } else {
        None
    }
}

/// The wire code of a plain message type.
pub open spec fn spec_plain_msg_type_code(t: PlainMessageType) -> u8 {
    match t {
        PlainMessageType::Secure => 0x00,
        PlainMessageType::ClientHello => 0x01,
        PlainMessageType::ServerHello => 0x02,
        PlainMessageType::Disconnect => 0x03,
        PlainMessageType::Downgrade => 0x04,
        PlainMessageType::AdjustLenLimitRequest => 0x10,
        PlainMessageType::AdjustLenLimitResponse => 0x11,
    }
}

/// The plain message type a byte names, if any.
pub open spec fn spec_plain_msg_type_of(b: u8) -> Option<PlainMessageType> {
    if b == 0x00 {
        Some(PlainMessageType::Secure)
    } else if b == 0x01 {
        Some(PlainMessageType::ClientHello)
    } else if b == 0x02 {
        Some(PlainMessageType::ServerHello)
    } else if b == 0x03 {
        Some(PlainMessageType::Disconnect)
    } else if b == 0x04 {
        Some(PlainMessageType::Downgrade)
    } else if b == 0x10 {
        Some(PlainMessageType::AdjustLenLimitRequest)
    } else if b == 0x11 {
        Some(PlainMessageType::AdjustLenLimitResponse)
    } else {
        None
    }
}

impl ProtocolVersion {
    /// The wire code of this version.
    pub fn code(&self) -> (r: u8)
        ensures
            r == spec_version_code(*self),
    {
        match self {
            ProtocolVersion::V0_1 => 0x01,
        }
    }

    /// The version a byte names; the malformed-version error otherwise.
    pub fn try_from_u8(b: u8) -> (r: Result<ProtocolVersion, InvalidMessageError>)
        ensures
            match spec_version_of(b) {
                Some(v) => r matches Ok(got) && got == v,
                None => r matches Err(InvalidMessageError::ProtocolVersion(bad)) && bad == b,
            },
    {
        if b == 0x01 {
            Ok(ProtocolVersion::V0_1)
        } else {
            Err(InvalidMessageError::ProtocolVersion(b))
        }
    }
}

impl PlainMessageType {
    /// The wire code of this message type.
    pub fn code(&self) -> (r: u8)
        ensures
            r == spec_plain_msg_type_code(*self),
    {
        match self {
            PlainMessageType::Secure => 0x00,
            PlainMessageType::ClientHello => 0x01,
            PlainMessageType::ServerHello => 0x02,
            PlainMessageType::Disconnect => 0x03,
            PlainMessageType::Downgrade => 0x04,
            PlainMessageType::AdjustLenLimitRequest => 0x10,
            PlainMessageType::AdjustLenLimitResponse => 0x11,
        }
    }

    /// The message type a byte names; the unknown-type error otherwise.
    pub fn try_from_u8(b: u8) -> (r: Result<PlainMessageType, InvalidMessageError>)
        ensures
            match spec_plain_msg_type_of(b) {
                Some(t) => r matches Ok(got) && got == t,
                None => r matches Err(InvalidMessageError::MessageType(bad)) && bad == b,
            },
    {
        if b == 0x00 {
            Ok(PlainMessageType::Secure)
        } else if b == 0x01 {
            Ok(PlainMessageType::ClientHello)
        } else if b == 0x02 {
            Ok(PlainMessageType::ServerHello)
        } else if b == 0x03 {
            Ok(PlainMessageType::Disconnect)
        } else if b == 0x04 {
            Ok(PlainMessageType::Downgrade)
        } else if b == 0x10 {
            Ok(PlainMessageType::AdjustLenLimitRequest)
        } else if b == 0x11 {
            Ok(PlainMessageType::AdjustLenLimitResponse)
        } else {
            Err(InvalidMessageError::MessageType(b))
        }
    }
}

/// The parsed form of a frame header.
#[derive(Debug, Clone, Copy, PartialEq, Eq, Structural)]
pub struct MessageHeader {
    pub plain_msg_type: PlainMessageType,
    pub version: ProtocolVersion,
    pub length: usize,
}

/// The four header bytes of a well-formed header.
pub open spec fn spec_header_bytes(h: MessageHeader) -> Seq<u8> {
    seq![
        spec_plain_msg_type_code(h.plain_msg_type),
        spec_version_code(h.version),
        (h.length / 256) as u8,
        (h.length % 256) as u8,
    ]
}

/// What parsing four header bytes yields: the header, or the first
/// malformed field.  The length field is never malformed by itself.
pub open spec fn spec_parse_header(s: Seq<u8>) -> Result<MessageHeader, InvalidMessageError>
    recommends
        s.len() == MSG_HEADER_LEN,
{
    match spec_plain_msg_type_of(s[0]) {
        None => Err(InvalidMessageError::MessageType(s[0])),
        Some(t) => match spec_version_of(s[1]) {
            None => Err(InvalidMessageError::ProtocolVersion(s[1])),
            Some(v) => Ok(
                MessageHeader {
                    plain_msg_type: t,
                    version: v,
                    length: (s[2] * 256 + s[3]) as usize,
                },
            ),
        },
    }
}

impl MessageHeader {
    /// A header is well formed when its length fits the 16-bit field.
    pub open spec fn wf(self) -> bool {
        self.length <= MAX_PAYLOAD_LEN
    }

    /// Builds a header for the current protocol version.
    pub fn new(plain_msg_type: PlainMessageType, version: ProtocolVersion, length: usize) -> (r:
        MessageHeader)
        requires
            length <= MAX_PAYLOAD_LEN,
        ensures
            r == (MessageHeader { plain_msg_type, version, length }),
            r.wf(),
    {
        MessageHeader { plain_msg_type, version, length }
    }

    /// The type of the framed message.
    pub fn plain_msg_type(&self) -> (r: PlainMessageType)
        ensures
            r == self.plain_msg_type,
    {
        self.plain_msg_type
    }

    /// The protocol version of the frame.
    pub fn version(&self) -> (r: ProtocolVersion)
        ensures
            r == self.version,
    {
        self.version
    }

    /// The declared payload length.
    pub fn length(&self) -> (r: usize)
        ensures
            r == self.length,
    {
        self.length
    }

    /// Serializes the header to its four wire bytes.
    pub fn to_bytes(&self) -> (r: Vec<u8>)
        requires
            self.wf(),
        ensures
            r@ == spec_header_bytes(*self),
    {
        let mut out: Vec<u8> = Vec::new();
        out.push(self.plain_msg_type.code());
        out.push(self.version.code());
        assert(self.length / 256 < 256) by (nonlinear_arith)
            requires
                self.length <= MAX_PAYLOAD_LEN,
        ;
        out.push((self.length / 256) as u8);
        out.push((self.length % 256) as u8);
        assert(out@ =~= spec_header_bytes(*self));
        out
    }

    /// Parses four wire bytes into a header.
    pub fn try_from_bytes(bytes: &[u8; 4]) -> (r: Result<MessageHeader, InvalidMessageError>)
        ensures
            r == spec_parse_header(bytes@),
            r matches Ok(h) ==> h.wf(),
    {
        let t = PlainMessageType::try_from_u8(bytes[0])?;
        let v = ProtocolVersion::try_from_u8(bytes[1])?;
        let length: usize = (bytes[2] as usize) * 256 + (bytes[3] as usize);
        Ok(MessageHeader { plain_msg_type: t, version: v, length })
    }
}

/// Parsing inverts serialization: a well-formed header comes back intact
/// from its own four bytes.
pub proof fn lemma_header_round_trip(h: MessageHeader)
    requires
        h.wf(),
    ensures
        spec_parse_header(spec_header_bytes(h)) == Ok::<MessageHeader, InvalidMessageError>(h),
{
    let s = spec_header_bytes(h);
    assert(spec_plain_msg_type_of(s[0]) == Some(h.plain_msg_type));
    assert(spec_version_of(s[1]) == Some(h.version));
    assert(h.length == (h.length / 256) * 256 + h.length % 256) by (nonlinear_arith);
    assert(h.length / 256 < 256) by (nonlinear_arith)
        requires
            h.length <= MAX_PAYLOAD_LEN,
    ;
    assert((s[2] * 256 + s[3]) as usize == h.length);
}

} // verus!
