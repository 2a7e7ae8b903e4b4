//! A plain frame in its raw byte form: header and payload in one buffer,
//! as the bytes stand on the wire.

use vstd::prelude::*;

use crate::error::InvalidMessageError;
use crate::header::spec_plain_msg_type_code;
use crate::header::spec_plain_msg_type_of;
use crate::header::spec_version_of;
use crate::header::PlainMessageType;
use crate::header::ProtocolVersion;
use crate::MSG_HEADER_LEN;

verus! {

/// A frame as one byte buffer: four header bytes, then the payload.
pub struct PlainMessage(pub Vec<u8>);

impl PlainMessage {
    /// The declared length of a raw frame buffer.
    pub open spec fn spec_length(self) -> int {
        self.0@[2] * 256 + self.0@[3]
    }

    /// The buffer holds the header and exactly the declared payload.
    pub open spec fn wf(self) -> bool {
        &&& self.0@.len() >= MSG_HEADER_LEN
        &&& self.0@.len() == MSG_HEADER_LEN + self.spec_length()
    }

    /// Builds a frame of the current protocol version with a zeroed
    /// payload of the given length.
    pub fn new(length: u16, plain_msg_type: PlainMessageType) -> (r: PlainMessage)
        ensures
            r.wf(),
            r.0@.len() == MSG_HEADER_LEN + length,
            r.0@[0] == spec_plain_msg_type_code(plain_msg_type),
            r.0@[1] == 0x01u8,
            r.0@[2] == length / 256,
            r.0@[3] == length % 256,
            forall|i: int| MSG_HEADER_LEN <= i < r.0@.len() ==> r.0@[i] == 0u8,
    {
        let mut bytes: Vec<u8> = Vec::new();
        bytes.push(plain_msg_type.code());
        bytes.push(0x01u8);
        bytes.push((length / 256) as u8);
        bytes.push((length % 256) as u8);
        let n = length as usize;
        let mut k: usize = 0;
        while k < n
            invariant
                k <= n,
                bytes@.len() == MSG_HEADER_LEN + k,
                bytes@[0] == spec_plain_msg_type_code(plain_msg_type),
                bytes@[1] == 0x01u8,
                bytes@[2] == length / 256,
                bytes@[3] == length % 256,
                forall|i: int| MSG_HEADER_LEN <= i < bytes@.len() ==> bytes@[i] == 0u8,
            decreases n - k,
        {
            bytes.push(0u8);
            k = k + 1;
        }
        proof {
            assert((length / 256) * 256 + length % 256 == length) by (nonlinear_arith);
        }
        PlainMessage(bytes)
    }

    /// Allocates a frame around received header bytes, its payload zeroed
    /// and ready to be filled from the wire.
    pub fn raw(header: &[u8; 4]) -> (r: PlainMessage)
        ensures
            r.wf(),
            r.0@.take(MSG_HEADER_LEN as int) == header@,
            r.0@.len() == MSG_HEADER_LEN + header@[2] * 256 + header@[3],
            forall|i: int| MSG_HEADER_LEN <= i < r.0@.len() ==> r.0@[i] == 0u8,
    {
        let mut bytes: Vec<u8> = Vec::new();
        bytes.push(header[0]);
        bytes.push(header[1]);
        bytes.push(header[2]);
        bytes.push(header[3]);
        let n: usize = (header[2] as usize) * 256 + (header[3] as usize);
        let mut k: usize = 0;
        while k < n
            invariant
                k <= n,
                bytes@.len() == MSG_HEADER_LEN + k,
                bytes@.take(MSG_HEADER_LEN as int) == header@,
                forall|i: int| MSG_HEADER_LEN <= i < bytes@.len() ==> bytes@[i] == 0u8,
            decreases n - k,
        {
            bytes.push(0u8);
            k = k + 1;
        }
        proof {
            assert(bytes@.take(MSG_HEADER_LEN as int) =~= header@);
        }
        PlainMessage(bytes)
    }

    /// A copy of the payload bytes.
    pub fn payload(&self) -> (r: Vec<u8>)
        requires
            self.wf(),
        ensures
            r@ == self.0@.skip(MSG_HEADER_LEN as int),
    {
        let r = crate::message::copy_bytes_range(&self.0, MSG_HEADER_LEN, self.0.len());
        proof {
            assert(r@ =~= self.0@.skip(MSG_HEADER_LEN as int));
        }
        r
    }

    /// Overwrites one payload byte, addressed relative to the payload.
    pub fn payload_mut(&mut self, index: usize, value: u8)
        requires
            old(self).wf(),
            index < old(self).spec_length(),
        ensures
            final(self).wf(),
            final(self).0@ == old(self).0@.update(MSG_HEADER_LEN + index, value),
    {
        self.0.set(MSG_HEADER_LEN + index, value);
    }

    /// The frame type its first byte names, if any.
    pub fn plain_msg_type(&self) -> (r: Result<PlainMessageType, InvalidMessageError>)
        requires
            self.wf(),
        ensures
            match spec_plain_msg_type_of(self.0@[0]) {
                Some(t) => r matches Ok(got) && got == t,
                None => r matches Err(InvalidMessageError::MessageType(bad)) && bad == self.0@[0],
            },
    {
        PlainMessageType::try_from_u8(self.0[0])
    }

    /// The protocol version its second byte names, if any.
    pub fn version(&self) -> (r: Result<ProtocolVersion, InvalidMessageError>)
        requires
            self.wf(),
        ensures
            match spec_version_of(self.0@[1]) {
                Some(v) => r matches Ok(got) && got == v,
                None => r matches Err(InvalidMessageError::ProtocolVersion(bad)) && bad == self.0@[1],
            },
    {
        ProtocolVersion::try_from_u8(self.0[1])
    }

    /// The declared payload length.
    pub fn length(&self) -> (r: usize)
        requires
            self.wf(),
        ensures
            r == self.spec_length(),
    {
        (self.0[2] as usize) * 256 + (self.0[3] as usize)
    }
}

} // verus!
