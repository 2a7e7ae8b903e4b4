//! The streaming chunker of the secure layer.  The write buffer gathers
//! application bytes and emits full plaintext chunks of the current
//! limit, tag space excluded; the read buffer hands out the bytes of one
//! opened record at a time.  No byte is lost or reordered: what goes in
//! is exactly what comes out, in order.

use vstd::prelude::*;

use crate::message::copy_bytes_range;
use crate::MIN_LEN_LIMIT;
use crate::TAG_LEN;

verus! {

/// The bytes of a sequence of chunks, in order.
pub open spec fn spec_concat_vecs(q: Seq<Vec<u8>>) -> Seq<u8>
    decreases q.len(),
{
    if q.len() == 0 {
        Seq::empty()
    } else {
        q[0]@ + spec_concat_vecs(q.skip(1))
    }
}

/// Appending a chunk appends its bytes.
proof fn lemma_concat_vecs_push(q: Seq<Vec<u8>>, v: Vec<u8>)
    ensures
        spec_concat_vecs(q.push(v)) == spec_concat_vecs(q) + v@,
    decreases q.len(),
{
    if q.len() == 0 {
        assert(q.push(v).skip(1) =~= Seq::<Vec<u8>>::empty());
        assert(q.push(v)[0] == v);
        assert(spec_concat_vecs(Seq::<Vec<u8>>::empty()) == Seq::<u8>::empty());
        assert(spec_concat_vecs(q) == Seq::<u8>::empty());
        assert(spec_concat_vecs(q.push(v)) == v@ + spec_concat_vecs(q.push(v).skip(1)));
        assert(spec_concat_vecs(q.push(v)) =~= spec_concat_vecs(q) + v@);
    } else {
        assert(q.push(v).skip(1) =~= q.skip(1).push(v));
        lemma_concat_vecs_push(q.skip(1), v);
        assert(spec_concat_vecs(q.push(v)) == q[0]@ + spec_concat_vecs(q.push(v).skip(1)));
        assert(spec_concat_vecs(q) == q[0]@ + spec_concat_vecs(q.skip(1)));
        assert(spec_concat_vecs(q.push(v)) =~= spec_concat_vecs(q) + v@);
    }
}

/// Buffered plaintext of one opened record, consumed front to back.
pub struct ReadBuffer {
    pub buffer: Vec<u8>,
    pub index: usize,
}

impl ReadBuffer {
    /// The cursor never passes the end.
    pub open spec fn wf(self) -> bool {
        self.index <= self.buffer@.len()
    }

    /// The bytes not yet handed out.
    pub open spec fn avail(self) -> Seq<u8> {
        self.buffer@.skip(self.index as int)
    }

    /// An empty buffer.
    pub fn new() -> (r: ReadBuffer)
        ensures
            r.wf(),
            r.avail() == Seq::<u8>::empty(),
    {
        let r = ReadBuffer { buffer: Vec::new(), index: 0 };
        proof {
            assert(r.avail() =~= Seq::<u8>::empty());
        }
        r
    }

    /// Whether every buffered byte has been handed out.
    pub fn is_empty(&self) -> (r: bool)
        requires
            self.wf(),
        ensures
            r == (self.avail().len() == 0),
    {
        self.index == self.buffer.len()
    }

    /// Loads the plaintext of the next record.  Only an exhausted buffer
    /// may be refilled: records are consumed one at a time, in order.
    pub fn fill(&mut self, source: Vec<u8>)
        requires
            old(self).wf(),
            old(self).avail().len() == 0,
        ensures
            final(self).wf(),
            final(self).avail() == source@,
    {
        self.buffer = source;
        self.index = 0;
        proof {
            assert(self.avail() =~= self.buffer@);
        }
    }

    /// Hands out up to `count` bytes: the next bytes of the record, in
    /// order, as many as are buffered.
    pub fn read(&mut self, count: usize) -> (r: Vec<u8>)
        requires
            old(self).wf(),
        ensures
            final(self).wf(),
            r@ == old(self).avail().take(
                if count <= old(self).avail().len() {
                    count as int
                } else {
                    old(self).avail().len() as int
                },
            ),
            final(self).avail() == old(self).avail().skip(r@.len() as int),
    {
        let avail_len = self.buffer.len() - self.index;
        let n = if count < avail_len {
            count
        } else {
            avail_len
        };
        let r = copy_bytes_range(&self.buffer, self.index, self.index + n);
        self.index = self.index + n;
        proof {
            assert(r@ =~= old(self).avail().take(n as int));
            assert(self.avail() =~= old(self).avail().skip(n as int));
        }
        r
    }
}

/// Pending outbound plaintext, not yet enough for a full record.
pub struct WriteBuffer {
    pub pending: Vec<u8>,
}

impl WriteBuffer {
    /// The pending bytes of a buffer under a given limit stay strictly
    /// below one full chunk.
    pub open spec fn fits(self, len_limit: usize) -> bool {
        self.pending@.len() < len_limit - TAG_LEN
    }

    /// An empty buffer.
    pub fn new() -> (r: WriteBuffer)
        ensures
            r.pending@ == Seq::<u8>::empty(),
    {
        let r = WriteBuffer { pending: Vec::new() };
        proof {
            assert(r.pending@ =~= Seq::<u8>::empty());
        }
        r
    }

    /// Buffers the source bytes, emitting a full plaintext chunk of
    /// `len_limit - TAG_LEN` bytes whenever one fills up.  The chunks
    /// plus what stays pending are exactly the old pending bytes followed
    /// by the source, in order.
    pub fn write(&mut self, source: &Vec<u8>, len_limit: usize) -> (frames: Vec<Vec<u8>>)
        requires
            MIN_LEN_LIMIT <= len_limit,
            old(self).fits(len_limit),
        ensures
            final(self).fits(len_limit),
            spec_concat_vecs(frames@) + final(self).pending@ == old(self).pending@ + source@,
            forall|i: int|
                0 <= i < frames@.len() ==> (#[trigger] frames@[i])@.len() == len_limit - TAG_LEN,
    {
        let cap = len_limit - TAG_LEN;
        let mut frames: Vec<Vec<u8>> = Vec::new();
        let n = source.len();
        let mut k: usize = 0;
        proof {
            assert(spec_concat_vecs(frames@) + self.pending@ =~= self.pending@ + source@.take(0));
        }
        while k < n
            invariant
                k <= n,
                n == source@.len(),
                cap == len_limit - TAG_LEN,
                MIN_LEN_LIMIT <= len_limit,
                self.pending@.len() < cap,
                spec_concat_vecs(frames@) + self.pending@ == old(self).pending@ + source@.take(
                    k as int,
                ),
                forall|i: int| 0 <= i < frames@.len() ==> (#[trigger] frames@[i])@.len() == cap,
            decreases n - k,
        {
            let ghost pend0 = self.pending@;
            self.pending.push(source[k]);
            proof {
                assert(self.pending@ == pend0.push(source@[k as int]));
                assert(source@.take(k + 1) =~= source@.take(k as int).push(source@[k as int]));
                assert(spec_concat_vecs(frames@) + self.pending@ =~= (spec_concat_vecs(frames@)
                    + pend0).push(source@[k as int]));
                assert(old(self).pending@ + source@.take(k + 1) =~= (old(self).pending@
                    + source@.take(k as int)).push(source@[k as int]));
                assert(spec_concat_vecs(frames@) + self.pending@ =~= old(self).pending@
                    + source@.take(k + 1));
            }
            k = k + 1;
            if self.pending.len() == cap {
                let ghost frames_before = frames@;
                let ghost pending_before = self.pending@;
                let mut full: Vec<u8> = Vec::new();
                core::mem::swap(&mut self.pending, &mut full);
                proof {
                    lemma_concat_vecs_push(frames_before, full);
                    assert(full@ == pending_before);
                    assert(self.pending@ =~= Seq::<u8>::empty());
                }
                frames.push(full);
                proof {
                    assert(frames@ == frames_before.push(full));
                    assert(spec_concat_vecs(frames@) == spec_concat_vecs(frames_before)
                        + pending_before);
                    assert(spec_concat_vecs(frames@) + self.pending@ =~= old(self).pending@
                        + source@.take(k as int));
                }
            }
        }
        proof {
            assert(source@.take(n as int) =~= source@);
        }
        frames
    }

    /// Emits what is pending as a final, shorter chunk; nothing stays
    /// behind.  An empty buffer emits nothing.
    pub fn flush(&mut self) -> (r: Option<Vec<u8>>)
        ensures
            final(self).pending@ == Seq::<u8>::empty(),
            old(self).pending@.len() > 0 ==> (r matches Some(chunk) && chunk@ == old(
                self,
            ).pending@),
            old(self).pending@.len() == 0 ==> r is None,
    {
        if self.pending.len() == 0 {
            proof {
                assert(self.pending@ =~= Seq::<u8>::empty());
            }
            None
        } else {
            let mut chunk: Vec<u8> = Vec::new();
            core::mem::swap(&mut self.pending, &mut chunk);
            proof {
                assert(self.pending@ =~= Seq::<u8>::empty());
            }
            Some(chunk)
        }
    }
}

} // verus!
