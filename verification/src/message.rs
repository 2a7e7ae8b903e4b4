//! A plain frame: a parsed header plus its payload bytes, with byte-exact
//! wire encoding and parsing.

use vstd::prelude::*;

use crate::error::InvalidMessageError;
use crate::header::spec_header_bytes;
use crate::header::spec_parse_header;
use crate::header::MessageHeader;
use crate::header::PlainMessageType;
use crate::header::ProtocolVersion;
use crate::MAX_PAYLOAD_LEN;
use crate::MSG_HEADER_LEN;

verus! {

/// A plain frame of the wire protocol.
#[derive(Debug)]
pub struct Message {
    pub header: MessageHeader,
    pub payload: Vec<u8>,
}

/// The wire bytes of a frame: four header bytes, then the payload.
pub open spec fn spec_encode(m: Message) -> Seq<u8> {
    spec_header_bytes(m.header) + m.payload@
}

/// What parsing a whole frame yields: its header and payload bytes, or
/// the first error.  The byte string must hold exactly the header and the
/// declared payload.
pub open spec fn spec_parse_frame(s: Seq<u8>) -> Result<
    (MessageHeader, Seq<u8>),
    InvalidMessageError,
> {
    if s.len() < MSG_HEADER_LEN {
        Err(
            InvalidMessageError::PayloadLengthMismatch {
                expected: MSG_HEADER_LEN,
                actual: s.len() as usize,
            },
        )
    } else {
        match spec_parse_header(s.take(MSG_HEADER_LEN as int)) {
            Err(e) => Err(e),
            Ok(h) => if s.len() - MSG_HEADER_LEN == h.length {
                Ok((h, s.skip(MSG_HEADER_LEN as int)))
            } else {
                Err(
                    InvalidMessageError::PayloadLengthMismatch {
                        expected: h.length,
                        actual: (s.len() - MSG_HEADER_LEN) as usize,
                    },
                )
            },
        }
    }
}

/// Appends all bytes of `src` to `dst`.
pub fn append_bytes(dst: &mut Vec<u8>, src: &Vec<u8>)
    ensures
        final(dst)@ == old(dst)@ + src@,
{
    let n = src.len();
    let mut k: usize = 0;
    while k < n
        invariant
            k <= n,
            n == src@.len(),
            dst@ == old(dst)@ + src@.take(k as int),
        decreases n - k,
    {
        dst.push(src[k]);
        assert(dst@ =~= old(dst)@ + src@.take(k + 1));
        k = k + 1;
    }
    assert(src@.take(n as int) =~= src@);
}

/// Copies the bytes of `src` between `start` and `end`.
pub fn copy_bytes_range(src: &Vec<u8>, start: usize, end: usize) -> (r: Vec<u8>)
    requires
        start <= end <= src@.len(),
    ensures
        r@ == src@.subrange(start as int, end as int),
{
    let mut out: Vec<u8> = Vec::new();
    let mut k: usize = start;
    while k < end
        invariant
            start <= k <= end <= src@.len(),
            out@ == src@.subrange(start as int, k as int),
        decreases end - k,
    {
        out.push(src[k]);
        assert(out@ =~= src@.subrange(start as int, k + 1));
        k = k + 1;
    }
    out
}

/// Compares two byte vectors for equality of their contents.
pub fn bytes_eq(a: &Vec<u8>, b: &Vec<u8>) -> (r: bool)
    ensures
        r <==> a@ == b@,
{
    if a.len() != b.len() {
        return false;
    }
    let n = a.len();
    let mut k: usize = 0;
    while k < n
        invariant
            k <= n,
            n == a@.len() == b@.len(),
            forall|i: int| 0 <= i < k ==> a@[i] == b@[i],
        decreases n - k,
    {
        if a[k] != b[k] {
            return false;
        }
        k = k + 1;
    }
    proof {
        assert(a@ =~= b@);
    }
    true
}

/// A vector of `n` zero bytes.
fn zero_vec(n: usize) -> (r: Vec<u8>)
    ensures
        r@.len() == n,
        forall|i: int| 0 <= i < n ==> r@[i] == 0u8,
{
    let mut out: Vec<u8> = Vec::new();
    let mut k: usize = 0;
    while k < n
        invariant
            k <= n,
            out@.len() == k,
            forall|i: int| 0 <= i < k ==> out@[i] == 0u8,
        decreases n - k,
    {
        out.push(0u8);
        k = k + 1;
    }
    out
}

impl Message {
    /// A frame is well formed when the header is and the declared length
    /// matches the payload.
    pub open spec fn wf(self) -> bool {
        &&& self.header.wf()
        &&& self.header.length == self.payload@.len()
    }

    /// Builds a frame of the current protocol version around a payload.
    pub fn new(plain_msg_type: PlainMessageType, payload: Vec<u8>) -> (r: Message)
        requires
            payload@.len() <= MAX_PAYLOAD_LEN,
        ensures
            r.wf(),
            r.header.plain_msg_type == plain_msg_type,
            r.header.version == ProtocolVersion::V0_1,
            r.header.length == payload@.len(),
            r.payload == payload,
    {
        let length = payload.len();
        Message {
            header: MessageHeader::new(plain_msg_type, ProtocolVersion::V0_1, length),
            payload,
        }
    }

    /// Parses a header and allocates a zeroed payload of the declared
    /// length, ready to be filled from the wire.
    pub fn raw(header: &[u8; 4]) -> (r: Result<Message, InvalidMessageError>)
        ensures
            match spec_parse_header(header@) {
                Ok(h) => r matches Ok(m) && m.header == h && m.wf() && m.payload@ == Seq::new(
                    h.length as nat,
                    |i: int| 0u8,
                ),
                Err(e) => r matches Err(got) && got == e,
            },
    {
        let h = MessageHeader::try_from_bytes(header)?;
        let payload = zero_vec(h.length());
        assert(payload@ =~= Seq::new(h.length as nat, |i: int| 0u8));
        Ok(Message { header: h, payload })
    }

    /// The parsed header of this frame.
    pub fn header(&self) -> (r: MessageHeader)
        ensures
            r == self.header,
    {
        self.header
    }

    /// Mutable access to the header.
    pub fn header_mut(&mut self) -> (r: &mut MessageHeader)
        ensures
            *r == old(self).header,
            *final(self) == (Message { header: *final(r), payload: old(self).payload }),
    {
        &mut self.header
    }

    /// The payload bytes.
    pub fn payload(&self) -> (r: &Vec<u8>)
        ensures
            r == &self.payload,
    {
        &self.payload
    }

    /// Mutable access to the payload bytes.
    pub fn payload_mut(&mut self) -> (r: &mut Vec<u8>)
        ensures
            *r == old(self).payload,
            *final(self) == (Message { header: old(self).header, payload: *final(r) }),
    {
        &mut self.payload
    }

    /// The type of this frame.
    pub fn msg_type(&self) -> (r: PlainMessageType)
        ensures
            r == self.header.plain_msg_type,
    {
        self.header.plain_msg_type
    }

    /// The protocol version of this frame.
    pub fn version(&self) -> (r: ProtocolVersion)
        ensures
            r == self.header.version,
    {
        self.header.version
    }

    /// The declared payload length.
    pub fn length(&self) -> (r: usize)
        ensures
            r == self.header.length,
    {
        self.header.length
    }

    /// Serializes the frame to its wire bytes.
    pub fn encode(&self) -> (r: Vec<u8>)
        requires
            self.wf(),
        ensures
            r@ == spec_encode(*self),
    {
        let mut out = self.header.to_bytes();
        let mut k: usize = 0;
        let n = self.payload.len();
        while k < n
            invariant
                k <= n,
                n == self.payload@.len(),
                out@ == spec_header_bytes(self.header) + self.payload@.take(k as int),
            decreases n - k,
        {
            out.push(self.payload[k]);
            assert(out@ =~= spec_header_bytes(self.header) + self.payload@.take(k + 1));
            k = k + 1;
        }
        assert(self.payload@.take(n as int) =~= self.payload@);
        out
    }

    /// Parses a whole frame from its wire bytes.
    pub fn parse(bytes: &Vec<u8>) -> (r: Result<Message, InvalidMessageError>)
        ensures
            match spec_parse_frame(bytes@) {
                Ok(hp) => r matches Ok(got) && got.header == hp.0 && got.payload@ == hp.1
                    && got.wf(),
                Err(e) => r matches Err(got) && got == e,
            },
    {
        if bytes.len() < 4 {
            return Err(
                InvalidMessageError::PayloadLengthMismatch { expected: 4, actual: bytes.len() },
            );
        }
        let head: [u8; 4] = [bytes[0], bytes[1], bytes[2], bytes[3]];
        assert(head@ =~= bytes@.take(4));
        let h = MessageHeader::try_from_bytes(&head)?;
        if bytes.len() - 4 != h.length() {
            return Err(
                InvalidMessageError::PayloadLengthMismatch {
                    expected: h.length(),
                    actual: bytes.len() - 4,
                },
            );
        }
        let mut payload: Vec<u8> = Vec::new();
        let mut k: usize = 4;
        let n = bytes.len();
        while k < n
            invariant
                4 <= k <= n,
                n == bytes@.len(),
                payload@ == bytes@.subrange(4, k as int),
            decreases n - k,
        {
            payload.push(bytes[k]);
            assert(payload@ =~= bytes@.subrange(4, k + 1));
            k = k + 1;
        }
        assert(payload@ =~= bytes@.skip(4));
        Ok(Message { header: h, payload })
    }
}

/// Parsing inverts encoding: a well-formed frame comes back intact from
/// its own wire bytes.
pub proof fn lemma_frame_round_trip(m: Message)
    requires
        m.wf(),
    ensures
        spec_parse_frame(spec_encode(m)) matches Ok(got) && got.0 == m.header
            && got.1 == m.payload@,
{
    let s = spec_encode(m);
    assert(s.take(MSG_HEADER_LEN as int) =~= spec_header_bytes(m.header));
    crate::header::lemma_header_round_trip(m.header);
    assert(s.skip(MSG_HEADER_LEN as int) =~= m.payload@);
}

} // verus!
