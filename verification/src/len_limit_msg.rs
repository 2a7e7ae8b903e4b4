//! The control messages of the length-limit negotiation: a request that
//! carries the proposed limit and a one-byte acceptance response.

use vstd::prelude::*;

use crate::error::InvalidMessageError;
use crate::error::LenLimitAdjustmentError;
use crate::header::PlainMessageType;
use crate::message::Message;
use crate::MAX_LEN_LIMIT;
use crate::MIN_LEN_LIMIT;

verus! {

/// A proposal to change the frame payload limit to a new value.
#[derive(Debug, Clone, Copy, PartialEq, Eq, Structural)]
pub struct AdjustLenLimitRequest {
    pub len_limit: u16,
}

/// The two-byte big-endian payload of a request frame.
pub open spec fn spec_request_payload(limit: u16) -> Seq<u8> {
    seq![(limit / 256) as u8, (limit % 256) as u8]
}

impl AdjustLenLimitRequest {
    /// Accepts a proposed limit only inside the negotiable range.
    pub fn try_from_usize(value: usize) -> (r: Result<
        AdjustLenLimitRequest,
        LenLimitAdjustmentError,
    >)
        ensures
            MIN_LEN_LIMIT <= value <= MAX_LEN_LIMIT ==> (r matches Ok(req) && req.len_limit
                == value),
            !(MIN_LEN_LIMIT <= value <= MAX_LEN_LIMIT) ==> r == Err::<
                AdjustLenLimitRequest,
                LenLimitAdjustmentError,
            >(LenLimitAdjustmentError::InvalidLimit(value)),
    {
        if value < MIN_LEN_LIMIT || value > MAX_LEN_LIMIT {
            Err(LenLimitAdjustmentError::InvalidLimit(value))
        } else {
            Ok(AdjustLenLimitRequest { len_limit: value as u16 })
        }
    }

    /// The proposed limit.
    pub fn to_usize(&self) -> (r: usize)
        ensures
            r == self.len_limit,
    {
        self.len_limit as usize
    }

    /// Serializes this request as a plain frame.
    pub fn into_message(self) -> (r: Message)
        ensures
            r.wf(),
            r.header.plain_msg_type == PlainMessageType::AdjustLenLimitRequest,
            r.header.length == 2,
            r.payload@ == spec_request_payload(self.len_limit),
    {
        let mut payload: Vec<u8> = Vec::new();
        payload.push((self.len_limit / 256) as u8);
        payload.push((self.len_limit % 256) as u8);
        assert(payload@ =~= spec_request_payload(self.len_limit));
        Message::new(PlainMessageType::AdjustLenLimitRequest, payload)
    }

    /// Recovers a request from a two-byte frame payload; any other length
    /// is the mismatch error.
    pub fn try_from_message(value: &Message) -> (r: Result<
        AdjustLenLimitRequest,
        InvalidMessageError,
    >)
        ensures
            value.payload@.len() == 2 ==> (r matches Ok(req) && req.len_limit == value.payload@[0]
                * 256 + value.payload@[1]),
            value.payload@.len() != 2 ==> (r matches Err(
                InvalidMessageError::PayloadLengthMismatch { expected, actual },
            ) && expected == 2 && actual == value.payload@.len()),
    {
        if value.payload.len() != 2 {
            return Err(
                InvalidMessageError::PayloadLengthMismatch {
                    expected: 2,
                    actual: value.payload.len(),
                },
            );
        }
        let limit: u16 = (value.payload[0] as u16) * 256 + (value.payload[1] as u16);
        Ok(AdjustLenLimitRequest { len_limit: limit })
    }
}

/// A serialized request parses back to the same limit.
pub proof fn lemma_request_round_trip(limit: u16)
    ensures
        spec_request_payload(limit)[0] * 256 + spec_request_payload(limit)[1] == limit,
{
    assert(limit / 256 < 256) by (nonlinear_arith);
    assert((limit / 256) * 256 + limit % 256 == limit) by (nonlinear_arith);
}

/// The answer to a limit proposal: accepted or rejected.
#[derive(Debug, Clone, Copy, PartialEq, Eq, Structural)]
pub struct AdjustLenLimitResponse {
    pub has_accepted: bool,
}

/// The one-byte payload of a response frame.
pub open spec fn spec_response_payload(accepted: bool) -> Seq<u8> {
    seq![if accepted { 1u8 } else { 0u8 }]
}

impl AdjustLenLimitResponse {
    /// Wraps a decision as a response.
    pub fn from_bool(value: bool) -> (r: AdjustLenLimitResponse)
        ensures
            r.has_accepted == value,
    {
        AdjustLenLimitResponse { has_accepted: value }
    }

    /// The carried decision.
    pub fn to_bool(&self) -> (r: bool)
        ensures
            r == self.has_accepted,
    {
        self.has_accepted
    }

    /// Serializes this response as a plain frame.
    pub fn into_message(self) -> (r: Message)
        ensures
            r.wf(),
            r.header.plain_msg_type == PlainMessageType::AdjustLenLimitResponse,
            r.header.length == 1,
            r.payload@ == spec_response_payload(self.has_accepted),
    {
        let mut payload: Vec<u8> = Vec::new();
        if self.has_accepted {
            payload.push(1u8);
        } else {
            payload.push(0u8);
        }
        assert(payload@ =~= spec_response_payload(self.has_accepted));
        Message::new(PlainMessageType::AdjustLenLimitResponse, payload)
    }

    /// Recovers a response from a one-byte frame payload; any nonzero byte
    /// counts as acceptance.  Any other length is the mismatch error.
    pub fn try_from_message(value: &Message) -> (r: Result<
        AdjustLenLimitResponse,
        InvalidMessageError,
    >)
        ensures
            value.payload@.len() == 1 ==> (r matches Ok(resp) && resp.has_accepted == (
            value.payload@[0] != 0)),
            value.payload@.len() != 1 ==> (r matches Err(
                InvalidMessageError::PayloadLengthMismatch { expected, actual },
            ) && expected == 1 && actual == value.payload@.len()),
    {
        if value.payload.len() != 1 {
            return Err(
                InvalidMessageError::PayloadLengthMismatch {
                    expected: 1,
                    actual: value.payload.len(),
                },
            );
        }
        Ok(AdjustLenLimitResponse { has_accepted: value.payload[0] != 0 })
    }
}

/// A serialized response parses back to the same decision.
pub proof fn lemma_response_round_trip(accepted: bool)
    ensures
        (spec_response_payload(accepted)[0] != 0) == accepted,
{
}

/// A limit proposal in its checked form, kept apart from the frame
/// conversion above: construction fails outside the negotiable range.
#[derive(Debug, Clone, Copy, PartialEq, Eq, Structural)]
pub struct AdjustMessageLengthRequest {
    pub length: u16,
}

impl AdjustMessageLengthRequest {
    /// Accepts a proposed length only inside the negotiable range.
    pub fn try_new(length: usize) -> (r: Option<AdjustMessageLengthRequest>)
        ensures
            MIN_LEN_LIMIT <= length <= MAX_LEN_LIMIT ==> (r matches Some(req) && req.length
                == length),
            !(MIN_LEN_LIMIT <= length <= MAX_LEN_LIMIT) ==> r is None,
    {
        if length < MIN_LEN_LIMIT || length > MAX_LEN_LIMIT {
            None
        } else {
            Some(AdjustMessageLengthRequest { length: length as u16 })
        }
    }

    /// The proposed length.
    pub fn length(&self) -> (r: usize)
        ensures
            r == self.length,
    {
        self.length as usize
    }
}

} // verus!
