//! The deterministic AEAD nonce sequence: a twelve-byte base whose low
//! eight bytes are XORed with a big-endian counter, advanced once per
//! record.  Distinct counters give distinct nonces.

use vstd::prelude::*;

use crate::error::CryptoError;
use crate::AEAD_NONCE_LEN;

verus! {

/// Big-endian byte `j` of a 64-bit counter, for `j` up to seven.
pub open spec fn spec_counter_byte(c: u64, j: u64) -> u8
    recommends
        j < 8,
{
    ((c >> (((7 - j) * 8) as u64)) & 0xff) as u8
}

/// The nonce for counter `c` over a twelve-byte base: the first four
/// bytes unchanged, the counter XORed into the last eight.
pub open spec fn spec_nonce(base: Seq<u8>, c: u64) -> Seq<u8>
    recommends
        base.len() == AEAD_NONCE_LEN,
{
    Seq::new(
        AEAD_NONCE_LEN as nat,
        |i: int|
            if i < 4 {
                base[i]
            } else {
                base[i] ^ spec_counter_byte(c, (i - 4) as u64)
            },
    )
}

/// Equal big-endian bytes mean equal counters.
proof fn lemma_counter_bytes_injective(c1: u64, c2: u64)
    requires
        forall|j: u64| j < 8 ==> spec_counter_byte(c1, j) == spec_counter_byte(c2, j),
    ensures
        c1 == c2,
{
    assert(spec_counter_byte(c1, 0) == spec_counter_byte(c2, 0));
    assert(spec_counter_byte(c1, 1) == spec_counter_byte(c2, 1));
    assert(spec_counter_byte(c1, 2) == spec_counter_byte(c2, 2));
    assert(spec_counter_byte(c1, 3) == spec_counter_byte(c2, 3));
    assert(spec_counter_byte(c1, 4) == spec_counter_byte(c2, 4));
    assert(spec_counter_byte(c1, 5) == spec_counter_byte(c2, 5));
    assert(spec_counter_byte(c1, 6) == spec_counter_byte(c2, 6));
    assert(spec_counter_byte(c1, 7) == spec_counter_byte(c2, 7));
    assert(c1 == c2) by (bit_vector)
        requires
            ((c1 >> 56u64) & 0xff) as u8 == ((c2 >> 56u64) & 0xff) as u8,
            ((c1 >> 48u64) & 0xff) as u8 == ((c2 >> 48u64) & 0xff) as u8,
            ((c1 >> 40u64) & 0xff) as u8 == ((c2 >> 40u64) & 0xff) as u8,
            ((c1 >> 32u64) & 0xff) as u8 == ((c2 >> 32u64) & 0xff) as u8,
            ((c1 >> 24u64) & 0xff) as u8 == ((c2 >> 24u64) & 0xff) as u8,
            ((c1 >> 16u64) & 0xff) as u8 == ((c2 >> 16u64) & 0xff) as u8,
            ((c1 >> 8u64) & 0xff) as u8 == ((c2 >> 8u64) & 0xff) as u8,
            ((c1 >> 0u64) & 0xff) as u8 == ((c2 >> 0u64) & 0xff) as u8,
    ;
}

/// XOR with a common byte preserves distinctness.
proof fn lemma_xor_cancels(x: u8, a: u8, b: u8)
    requires
        x ^ a == x ^ b,
    ensures
        a == b,
{
    assert(a == b) by (bit_vector)
        requires
            x ^ a == x ^ b,
    ;
}

/// Distinct counters give distinct nonces over the same base: the nonce
/// sequence never repeats within the 64-bit counter space.
pub proof fn lemma_nonce_distinct(base: Seq<u8>, c1: u64, c2: u64)
    requires
        base.len() == AEAD_NONCE_LEN,
        c1 != c2,
    ensures
        spec_nonce(base, c1) != spec_nonce(base, c2),
{
    if spec_nonce(base, c1) == spec_nonce(base, c2) {
        assert forall|j: u64| j < 8 implies spec_counter_byte(c1, j) == spec_counter_byte(
            c2,
            j,
        ) by {
            let i = j + 4;
            assert(spec_nonce(base, c1)[i as int] == spec_nonce(base, c2)[i as int]);
            lemma_xor_cancels(
                base[i as int],
                spec_counter_byte(c1, j),
                spec_counter_byte(c2, j),
            );
        }
        lemma_counter_bytes_injective(c1, c2);
    }
}

/// The per-direction nonce generator: a fixed base and a counter that
/// starts at zero and advances once per sealed or opened record.
pub struct NonceSequence {
    pub base: Vec<u8>,
    pub counter: u64,
}

impl NonceSequence {
    /// The base must hold exactly twelve bytes.
    pub open spec fn wf(self) -> bool {
        self.base@.len() == AEAD_NONCE_LEN
    }

    /// Starts the sequence at counter zero over a copy of the base.
    pub fn new(base: &Vec<u8>) -> (r: NonceSequence)
        requires
            base@.len() == AEAD_NONCE_LEN,
        ensures
            r.wf(),
            r.base@ == base@,
            r.counter == 0,
    {
        let mut copy: Vec<u8> = Vec::new();
        crate::message::append_bytes(&mut copy, base);
        assert(copy@ =~= base@);
        NonceSequence { base: copy, counter: 0 }
    }

    /// The nonce for a given counter over this base.
    pub fn xor(base: &Vec<u8>, counter: u64) -> (r: Vec<u8>)
        requires
            base@.len() == AEAD_NONCE_LEN,
        ensures
            r@ == spec_nonce(base@, counter),
    {
        let mut nonce: Vec<u8> = Vec::new();
        let mut i: usize = 0;
        while i < 4
            invariant
                i <= 4,
                base@.len() == AEAD_NONCE_LEN,
                nonce@ == spec_nonce(base@, counter).take(i as int),
            decreases 4 - i,
        {
            nonce.push(base[i]);
            assert(nonce@ =~= spec_nonce(base@, counter).take(i + 1));
            i = i + 1;
        }
        let mut j: usize = 0;
        while j < 8
            invariant
                j <= 8,
                base@.len() == AEAD_NONCE_LEN,
                nonce@ == spec_nonce(base@, counter).take(4 + j as int),
            decreases 8 - j,
        {
            let sh: u64 = (7 - j as u64) * 8;
            let b: u8 = ((counter >> sh) & 0xff) as u8;
            assert(b == spec_counter_byte(counter, j as u64));
            nonce.push(base[4 + j] ^ b);
            assert(nonce@ =~= spec_nonce(base@, counter).take(4 + (j + 1)));
            j = j + 1;
        }
        assert(nonce@ =~= spec_nonce(base@, counter));
        nonce
    }

    /// Yields the next nonce and advances the counter.  The counter never
    /// wraps: a session is bounded by 2^64 records per direction.
    pub fn advance(&mut self) -> (r: Result<Vec<u8>, CryptoError>)
        requires
            old(self).wf(),
            old(self).counter < u64::MAX,
        ensures
            final(self).wf(),
            final(self).base@ == old(self).base@,
            final(self).counter == old(self).counter + 1,
            r matches Ok(nonce) && nonce@ == spec_nonce(old(self).base@, old(self).counter),
    {
        let nonce = Self::xor(&self.base, self.counter);
        self.counter = self.counter + 1;
        Ok(nonce)
    }
}

} // verus!
