//! The verified core of the plain frame channel: the outbound sink with
//! its byte budget and back-pressure predicate, the outbound sanity
//! check, and the clamping of the negotiated limit.  The asynchronous
//! draining of the queue onto the base channel lives outside the library
//! and goes through these operations.

use vstd::prelude::*;

use std::collections::VecDeque;

use crate::error::InvalidMessageError;
use crate::header::MessageHeader;
use crate::message::Message;
use crate::MAX_LEN_LIMIT;
use crate::MIN_LEN_LIMIT;

verus! {

/// The payload bytes held by a queue of frames.
pub open spec fn spec_queue_bytes(q: Seq<Message>) -> int
    decreases q.len(),
{
    if q.len() == 0 {
        0
    } else {
        q[0].header.length + spec_queue_bytes(q.skip(1))
    }
}

/// Appending a frame adds its payload length to the byte count.
proof fn lemma_queue_bytes_push(q: Seq<Message>, m: Message)
    ensures
        spec_queue_bytes(q.push(m)) == spec_queue_bytes(q) + m.header.length,
    decreases q.len(),
{
    if q.len() == 0 {
        assert(q.push(m).skip(1) =~= Seq::<Message>::empty());
        assert(q.push(m)[0] == m);
        assert(spec_queue_bytes(Seq::<Message>::empty()) == 0);
        assert(spec_queue_bytes(q) == 0);
        assert(spec_queue_bytes(q.push(m)) == m.header.length + spec_queue_bytes(
            q.push(m).skip(1),
        ));
    } else {
        assert(q.push(m).skip(1) =~= q.skip(1).push(m));
        lemma_queue_bytes_push(q.skip(1), m);
    }
}

/// The byte count is never negative.
proof fn lemma_queue_bytes_nonneg(q: Seq<Message>)
    ensures
        spec_queue_bytes(q) >= 0,
    decreases q.len(),
{
    if q.len() > 0 {
        lemma_queue_bytes_nonneg(q.skip(1));
    }
}

/// The bounded outbound queue.  A frame is accepted only while one more
/// maximum-size frame would keep the buffered payload bytes within
/// `limit_multiplier` times the current limit.
pub struct InnerSink {
    pub queue: VecDeque<Message>,
    pub limit_multiplier: usize,
    pub total_byte_len: usize,
}

impl InnerSink {
    /// The byte counter matches the queue, every queued frame is well
    /// formed, and the multiplier is positive and small enough that the
    /// budget arithmetic cannot overflow.
    pub open spec fn wf(self) -> bool {
        &&& self.total_byte_len == spec_queue_bytes(self.queue@)
        &&& forall|i: int| 0 <= i < self.queue@.len() ==> (#[trigger] self.queue@[i]).wf()
        &&& 1 <= self.limit_multiplier <= 1024
    }

    /// An empty sink with the given multiplier.
    pub fn new(limit_multiplier: usize) -> (r: InnerSink)
        requires
            1 <= limit_multiplier <= 1024,
        ensures
            r.wf(),
            r.queue@.len() == 0,
            r.total_byte_len == 0,
            r.limit_multiplier == limit_multiplier,
    {
        InnerSink { queue: VecDeque::new(), limit_multiplier, total_byte_len: 0 }
    }

    /// The back-pressure predicate: accepting one more maximum-size frame
    /// keeps the buffered bytes within the budget.
    pub open spec fn spec_ready(self, len_limit: usize) -> bool {
        self.total_byte_len + len_limit <= self.limit_multiplier * len_limit
    }

    /// Whether the sink accepts another frame under the current limit.
    pub fn ready(&self, len_limit: usize) -> (r: bool)
        requires
            self.wf(),
            len_limit <= MAX_LEN_LIMIT,
        ensures
            r == self.spec_ready(len_limit),
    {
        proof {
            lemma_queue_bytes_nonneg(self.queue@);
            assert(self.limit_multiplier * len_limit <= 1024 * 32767) by (nonlinear_arith)
                requires
                    self.limit_multiplier <= 1024,
                    len_limit <= 32767,
            ;
            assert(self.limit_multiplier * len_limit >= len_limit) by (nonlinear_arith)
                requires
                    self.limit_multiplier >= 1,
            ;
        }
        self.total_byte_len <= self.limit_multiplier * len_limit - len_limit
    }

    /// Whether any frame waits to be written.
    pub fn is_empty(&self) -> (r: bool)
        ensures
            r == (self.queue@.len() == 0),
    {
        self.queue.len() == 0
    }

    /// Enqueues a frame.  Under the readiness predicate the buffered
    /// bytes stay within the budget: with multiplier `N`, at most `N`
    /// maximum-size frames' worth of payload is ever buffered.
    pub fn push(&mut self, msg: Message, len_limit: usize)
        requires
            old(self).wf(),
            msg.wf(),
            old(self).spec_ready(len_limit),
            msg.header.length <= len_limit,
            len_limit <= MAX_LEN_LIMIT,
        ensures
            final(self).wf(),
            final(self).queue@ == old(self).queue@.push(msg),
            final(self).limit_multiplier == old(self).limit_multiplier,
            final(self).total_byte_len == old(self).total_byte_len + msg.header.length,
            final(self).total_byte_len <= final(self).limit_multiplier * len_limit,
    {
        proof {
            lemma_queue_bytes_nonneg(self.queue@);
            lemma_queue_bytes_push(self.queue@, msg);
            assert(self.limit_multiplier * len_limit <= 1024 * 32767) by (nonlinear_arith)
                requires
                    self.limit_multiplier <= 1024,
                    len_limit <= 32767,
            ;
        }
        self.total_byte_len = self.total_byte_len + msg.length();
        self.queue.push_back(msg);
    }

    /// Dequeues the frame at the head of the queue, the next to be
    /// written; the byte counter drops by its payload length.
    pub fn pop(&mut self) -> (r: Option<Message>)
        requires
            old(self).wf(),
        ensures
            final(self).wf(),
            final(self).limit_multiplier == old(self).limit_multiplier,
            old(self).queue@.len() == 0 ==> r is None && final(self).queue@ == old(self).queue@
                && final(self).total_byte_len == old(self).total_byte_len,
            old(self).queue@.len() > 0 ==> (r matches Some(m) && m == old(self).queue@[0]
                && final(self).queue@ == old(self).queue@.skip(1) && final(self).total_byte_len
                == old(self).total_byte_len - m.header.length),
    {
        proof {
            if self.queue@.len() > 0 {
                lemma_queue_bytes_nonneg(self.queue@.skip(1));
            }
        }
        match self.queue.pop_front() {
            None => None,
            Some(m) => {
                assert(self.queue@ =~= old(self).queue@.skip(1));
                self.total_byte_len = self.total_byte_len - m.length();
                Some(m)
            },
        }
    }
}

/// The outbound sanity check: a frame may be sent only when its payload
/// length lies in the negotiable range, does not exceed the current
/// limit, and matches what its header declares.  The first failed check
/// names the error.
pub open spec fn spec_send_check(len_limit: usize, msg: Message) -> Result<
    (),
    InvalidMessageError,
> {
    if !(MIN_LEN_LIMIT <= msg.payload@.len() <= MAX_LEN_LIMIT) {
        Err(InvalidMessageError::PayloadLengthOutOfRange { length: msg.payload@.len() as usize })
    } else if msg.payload@.len() > len_limit {
        Err(
            InvalidMessageError::PayloadLengthAboveLimit {
                length: msg.payload@.len() as usize,
                limit: len_limit,
            },
        )
    } else if msg.header.length != msg.payload@.len() {
        Err(
            InvalidMessageError::PayloadLengthMismatch {
                expected: msg.header.length,
                actual: msg.payload@.len() as usize,
            },
        )
    } else {
        Ok(())
    }
}

/// Checks a frame against the current limit before it may be sent.
pub fn send_check(len_limit: usize, msg: &Message) -> (r: Result<(), InvalidMessageError>)
    ensures
        r == spec_send_check(len_limit, *msg),
        r is Ok <==> MIN_LEN_LIMIT <= msg.payload@.len() <= MAX_LEN_LIMIT && msg.payload@.len()
            <= len_limit && msg.header.length == msg.payload@.len(),
{
    let len = msg.payload.len();
    if len < MIN_LEN_LIMIT || len > MAX_LEN_LIMIT {
        Err(InvalidMessageError::PayloadLengthOutOfRange { length: len })
    } else if len > len_limit {
        Err(InvalidMessageError::PayloadLengthAboveLimit { length: len, limit: len_limit })
    } else if msg.header.length() != len {
        Err(InvalidMessageError::PayloadLengthMismatch { expected: msg.header.length(), actual: len })
    } else {
        Ok(())
    }
}

/// The inbound validation: a parsed header is admitted only when its
/// declared length lies in the negotiable range and does not exceed the
/// current limit.  The first failed check names the error.
pub open spec fn spec_recv_check(len_limit: usize, header: MessageHeader) -> Result<
    (),
    InvalidMessageError,
> {
    if !(MIN_LEN_LIMIT <= header.length <= MAX_LEN_LIMIT) {
        Err(InvalidMessageError::PayloadLengthOutOfRange { length: header.length })
    } else if header.length > len_limit {
        Err(
            InvalidMessageError::PayloadLengthAboveLimit {
                length: header.length,
                limit: len_limit,
            },
        )
    } else {
        Ok(())
    }
}

/// Checks an inbound header against the current limit before its payload
/// is read.
pub fn recv_check(len_limit: usize, header: &MessageHeader) -> (r: Result<
    (),
    InvalidMessageError,
>)
    ensures
        r == spec_recv_check(len_limit, *header),
        r is Ok <==> MIN_LEN_LIMIT <= header.length <= MAX_LEN_LIMIT && header.length <= len_limit,
{
    let len = header.length();
    if len < MIN_LEN_LIMIT || len > MAX_LEN_LIMIT {
        Err(InvalidMessageError::PayloadLengthOutOfRange { length: len })
    } else if len > len_limit {
        Err(InvalidMessageError::PayloadLengthAboveLimit { length: len, limit: len_limit })
    } else {
        Ok(())
    }
}

/// Clamps a proposed limit into the negotiable range; the codec never
/// holds a limit outside it.
pub fn clamp_len_limit(len_limit: usize) -> (r: usize)
    ensures
        r == if len_limit < MIN_LEN_LIMIT {
            MIN_LEN_LIMIT
        } else if len_limit > MAX_LEN_LIMIT {
            MAX_LEN_LIMIT
        } else {
            len_limit
        },
        MIN_LEN_LIMIT <= r <= MAX_LEN_LIMIT,
{
    if len_limit < MIN_LEN_LIMIT {
        MIN_LEN_LIMIT
    } else if len_limit > MAX_LEN_LIMIT {
        MAX_LEN_LIMIT
    } else {
        len_limit
    }
}

/// After the limit is set to a value, the sanity check admits exactly the
/// frames whose payload is within both that value and the negotiable
/// range: a new accepted limit immediately governs what may be sent.
pub proof fn lemma_limit_governs_send(len_limit: usize, msg: Message)
    requires
        msg.wf(),
    ensures
        spec_send_check(len_limit, msg) is Ok <==> MIN_LEN_LIMIT <= msg.payload@.len()
            && msg.payload@.len() <= len_limit && msg.payload@.len() <= MAX_LEN_LIMIT,
{
}

} // verus!
