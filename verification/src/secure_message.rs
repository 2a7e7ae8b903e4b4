//! An application record before sealing and after opening: one buffer
//! with room for the outer header, a one-byte record type, the encoded
//! object, and the authentication tag, convertible to and from a plain
//! frame.

use vstd::prelude::*;

use crate::error::InvalidMessageError;
use crate::header::MessageHeader;
use crate::header::PlainMessageType;
use crate::header::ProtocolVersion;
use crate::message::Message;
use crate::MAX_SECURE_PAYLOAD_LEN;
use crate::MSG_HEADER_LEN;
use crate::TAG_LEN;

verus! {

/// The type of an application record.
#[derive(Debug, Clone, Copy, PartialEq, Eq, Structural)]
pub enum SecureMessageType {
    SendResourceRequest,
    SendResourceResponse,
    ReceiveResourceRequest,
    ReceiveResourceResponse,
}

/// The wire code of a record type.
pub open spec fn spec_secure_msg_type_code(t: SecureMessageType) -> u8 {
    match t {
        SecureMessageType::SendResourceRequest => 0x01,
        SecureMessageType::SendResourceResponse => 0x02,
        SecureMessageType::ReceiveResourceRequest => 0x03,
        SecureMessageType::ReceiveResourceResponse => 0x04,
    }
}

/// The record type a byte names, if any.
pub open spec fn spec_secure_msg_type_of(b: u8) -> Option<SecureMessageType> {
    if b == 0x01 {
        Some(SecureMessageType::SendResourceRequest)
    } else if b == 0x02 {
        Some(SecureMessageType::SendResourceResponse)
    } else if b == 0x03 {
        Some(SecureMessageType::ReceiveResourceRequest)
    } else if b == 0x04 {
        Some(SecureMessageType::ReceiveResourceResponse)
    } else {
        None
    }
}

impl SecureMessageType {
    /// The wire code of this record type.
    pub fn code(&self) -> (r: u8)
        ensures
            r == spec_secure_msg_type_code(*self),
    {
        match self {
            SecureMessageType::SendResourceRequest => 0x01,
            SecureMessageType::SendResourceResponse => 0x02,
            SecureMessageType::ReceiveResourceRequest => 0x03,
            SecureMessageType::ReceiveResourceResponse => 0x04,
        }
    }

    /// The record type a byte names; the unknown-type error otherwise.
    pub fn try_from_u8(b: u8) -> (r: Result<SecureMessageType, InvalidMessageError>)
        ensures
            match spec_secure_msg_type_of(b) {
                Some(t) => r matches Ok(got) && got == t,
                None => r matches Err(InvalidMessageError::MessageType(bad)) && bad == b,
            },
    {
        if b == 0x01 {
            Ok(SecureMessageType::SendResourceRequest)
        } else if b == 0x02 {
            Ok(SecureMessageType::SendResourceResponse)
        } else if b == 0x03 {
            Ok(SecureMessageType::ReceiveResourceRequest)
        } else if b == 0x04 {
            Ok(SecureMessageType::ReceiveResourceResponse)
        } else {
            Err(InvalidMessageError::MessageType(b))
        }
    }
}

/// An opaque handle a server gives out for a stored resource.
#[derive(Debug, Clone)]
pub struct ResourceId(pub Vec<u8>);

/// An application record: four reserved bytes for the outer header, the
/// record type byte, three reserved bytes, the object bytes, and room
/// for the tag.
pub struct SecureMessage(pub Vec<u8>);

impl SecureMessage {
    /// The buffer holds both headers, some payload, and the tag space.
    pub open spec fn wf(self) -> bool {
        &&& self.0@.len() >= 2 * MSG_HEADER_LEN + TAG_LEN
        &&& self.0@.len() <= MSG_HEADER_LEN + crate::MAX_PAYLOAD_LEN
    }

    /// The object bytes: between the two headers and the tag.
    pub open spec fn spec_payload(self) -> Seq<u8> {
        self.0@.subrange(2 * MSG_HEADER_LEN as int, self.0@.len() - TAG_LEN)
    }

    /// Allocates a zeroed record of the given object length; a length
    /// beyond what the outer frame can carry, record type and tag
    /// included, is rejected.
    pub fn new(length: usize, msg_type: SecureMessageType) -> (r: Result<
        SecureMessage,
        InvalidMessageError,
    >)
        ensures
            length > MAX_SECURE_PAYLOAD_LEN - MSG_HEADER_LEN ==> (r matches Err(
                InvalidMessageError::PayloadLengthMismatch { expected, actual },
            ) && expected == MAX_SECURE_PAYLOAD_LEN - MSG_HEADER_LEN && actual == length),
            length <= MAX_SECURE_PAYLOAD_LEN - MSG_HEADER_LEN ==> (r matches Ok(m) && m.wf()
                && m.0@.len() == 2 * MSG_HEADER_LEN + length + TAG_LEN && m.0@[MSG_HEADER_LEN as int]
                == spec_secure_msg_type_code(msg_type) && m.spec_payload() == Seq::new(
                length as nat,
                |i: int| 0u8,
            )),
    {
        if length > MAX_SECURE_PAYLOAD_LEN - MSG_HEADER_LEN {
            return Err(
                InvalidMessageError::PayloadLengthMismatch {
                    expected: MAX_SECURE_PAYLOAD_LEN - MSG_HEADER_LEN,
                    actual: length,
                },
            );
        }
        let total = 2 * MSG_HEADER_LEN + length + TAG_LEN;
        let mut bytes: Vec<u8> = Vec::new();
        let mut k: usize = 0;
        while k < total
            invariant
                k <= total,
                bytes@.len() == k,
                forall|i: int| 0 <= i < k ==> bytes@[i] == 0u8,
            decreases total - k,
        {
            bytes.push(0u8);
            k = k + 1;
        }
        bytes.set(MSG_HEADER_LEN, msg_type.code());
        let m = SecureMessage(bytes);
        proof {
            assert(m.spec_payload() =~= Seq::new(length as nat, |i: int| 0u8));
        }
        Ok(m)
    }

    /// A copy of the object bytes.
    pub fn payload(&self) -> (r: Vec<u8>)
        requires
            self.wf(),
        ensures
            r@ == self.spec_payload(),
    {
        crate::message::copy_bytes_range(&self.0, 2 * MSG_HEADER_LEN, self.0.len() - TAG_LEN)
    }

    /// Overwrites one object byte, addressed relative to the object.
    pub fn payload_mut(&mut self, index: usize, value: u8)
        requires
            old(self).wf(),
            index < old(self).0@.len() - TAG_LEN - 2 * MSG_HEADER_LEN,
        ensures
            final(self).wf(),
            final(self).0@ == old(self).0@.update(2 * MSG_HEADER_LEN + index, value),
    {
        self.0.set(2 * MSG_HEADER_LEN + index, value);
    }

    /// The record type its type byte names, if any.
    pub fn secure_msg_type(&self) -> (r: Result<SecureMessageType, InvalidMessageError>)
        requires
            self.wf(),
        ensures
            match spec_secure_msg_type_of(self.0@[MSG_HEADER_LEN as int]) {
                Some(t) => r matches Ok(got) && got == t,
                None => r matches Err(InvalidMessageError::MessageType(bad)) && bad == self.0@[
                    MSG_HEADER_LEN as int
                ],
            },
    {
        SecureMessageType::try_from_u8(self.0[MSG_HEADER_LEN])
    }

    /// A copy of the tag bytes at the end of the buffer.
    pub fn tag(&self) -> (r: Vec<u8>)
        requires
            self.wf(),
        ensures
            r@ == self.0@.skip(self.0@.len() - TAG_LEN),
    {
        let r = crate::message::copy_bytes_range(&self.0, self.0.len() - TAG_LEN, self.0.len());
        proof {
            assert(r@ =~= self.0@.skip(self.0@.len() - TAG_LEN));
        }
        r
    }

    /// Overwrites one tag byte, addressed relative to the tag.
    pub fn tag_mut(&mut self, index: usize, value: u8)
        requires
            old(self).wf(),
            index < TAG_LEN,
        ensures
            final(self).wf(),
            final(self).0@ == old(self).0@.update(old(self).0@.len() - TAG_LEN + index, value),
    {
        let base = self.0.len() - TAG_LEN;
        self.0.set(base + index, value);
    }

    /// Wraps this record as a plain frame of type secure: everything
    /// after the reserved outer header becomes the frame payload.
    pub fn into_message(self) -> (r: Message)
        requires
            self.wf(),
        ensures
            r.wf(),
            r.header.plain_msg_type == PlainMessageType::Secure,
            r.header.length == self.0@.len() - MSG_HEADER_LEN,
            r.payload@ == self.0@.skip(MSG_HEADER_LEN as int),
    {
        let payload = crate::message::copy_bytes_range(&self.0, MSG_HEADER_LEN, self.0.len());
        proof {
            assert(payload@ =~= self.0@.skip(MSG_HEADER_LEN as int));
        }
        Message {
            header: MessageHeader::new(
                PlainMessageType::Secure,
                ProtocolVersion::V0_1,
                payload.len(),
            ),
            payload,
        }
    }

    /// Reads a record back out of a plain frame: the frame payload after
    /// a reserved outer header.  The payload must hold at least the
    /// record type bytes and the tag.
    pub fn from_message(msg: &Message) -> (r: Result<SecureMessage, InvalidMessageError>)
        requires
            msg.wf(),
        ensures
            msg.payload@.len() < MSG_HEADER_LEN + TAG_LEN ==> (r matches Err(
                InvalidMessageError::PayloadLengthMismatch { expected, actual },
            ) && expected == MSG_HEADER_LEN + TAG_LEN && actual == msg.payload@.len()),
            msg.payload@.len() >= MSG_HEADER_LEN + TAG_LEN ==> (r matches Ok(m) && m.wf()
                && m.0@.len() == MSG_HEADER_LEN + msg.payload@.len() && m.0@.skip(
                MSG_HEADER_LEN as int,
            ) == msg.payload@),
    {
        if msg.payload.len() < MSG_HEADER_LEN + TAG_LEN {
            return Err(
                InvalidMessageError::PayloadLengthMismatch {
                    expected: MSG_HEADER_LEN + TAG_LEN,
                    actual: msg.payload.len(),
                },
            );
        }
        let mut bytes: Vec<u8> = Vec::new();
        bytes.push(0u8);
        bytes.push(0u8);
        bytes.push(0u8);
        bytes.push(0u8);
        crate::message::append_bytes(&mut bytes, &msg.payload);
        let m = SecureMessage(bytes);
        proof {
            assert(m.0@.skip(MSG_HEADER_LEN as int) =~= msg.payload@);
        }
        Ok(m)
    }
}

} // verus!
