//! A frequency histogram of byte values, accumulated from a stream in chunks.

use vstd::prelude::*;

verus! {

/// Number of occurrences of the byte value `v` in `s`.
pub open spec fn byte_count(s: Seq<u8>, v: u8) -> nat
    decreases s.len(),
{
    if s.len() == 0 {
        0
    } else {
        byte_count(s.drop_last(), v) + if s.last() == v {
            1nat
        } else {
            0nat
        }
    }
}

/// A byte value occurs at most as often as the stream is long.
pub proof fn lemma_byte_count_le_len(s: Seq<u8>, v: u8)
    ensures
        byte_count(s, v) <= s.len(),
    decreases s.len(),
{
    if s.len() > 0 {
        lemma_byte_count_le_len(s.drop_last(), v);
    }
}

/// Appending one byte raises its own counter by one and no other.
pub proof fn lemma_byte_count_push(s: Seq<u8>, b: u8, v: u8)
    ensures
        byte_count(s.push(b), v) == byte_count(s, v) + if b == v {
            1nat
        } else {
            0nat
        },
{
    assert(s.push(b).drop_last() =~= s);
}

/// Occurrences in a concatenation are the occurrences in the parts:
/// the histogram of a stream does not depend on how it is chunked.
pub proof fn lemma_byte_count_concat(s1: Seq<u8>, s2: Seq<u8>, v: u8)
    ensures
        byte_count(s1 + s2, v) == byte_count(s1, v) + byte_count(s2, v),
    decreases s2.len(),
{
    if s2.len() == 0 {
        assert(s1 + s2 =~= s1);
    } else {
        assert((s1 + s2).drop_last() =~= s1 + s2.drop_last());
        lemma_byte_count_concat(s1, s2.drop_last(), v);
    }
}

/// A frequency histogram over the 256 byte values, together with the running
/// total of bytes consumed. Its view is the sequence of bytes fed so far; the
/// well-formedness invariant ties every counter and the total to that view.
pub struct ByteHistogram {
    counts: Vec<u64>,
    total: u64,
    bytes: Ghost<Seq<u8>>,
}

impl ByteHistogram {
    /// The bytes consumed so far, in order.
    pub closed spec fn view(&self) -> Seq<u8> {
        self.bytes@
    }

    /// The counter of byte value `v`.
    pub closed spec fn spec_count(&self, v: u8) -> nat {
        self.counts@[v as int] as nat
    }

    /// The running total of bytes consumed.
    pub closed spec fn spec_total(&self) -> nat {
        self.total as nat
    }

    /// Every counter holds the number of occurrences of its byte value in the
    /// consumed bytes, and the total holds their length.
    pub closed spec fn wf(&self) -> bool {
        &&& self.counts@.len() == 256
        &&& self.total as nat == self.bytes@.len()
        &&& forall|v: u8| self.counts@[v as int] as nat == byte_count(self.bytes@, v)
    }

    /// A fresh histogram: nothing consumed, every counter zero.
    pub fn new() -> (r: ByteHistogram)
        ensures
            r.wf(),
            r@ == Seq::<u8>::empty(),
            r.spec_total() == 0,
            forall|v: u8| r.spec_count(v) == 0,
    {
        let mut counts: Vec<u64> = Vec::new();
        let mut i: usize = 0;
        while i < 256
            invariant
                i <= 256,
                counts@.len() == i,
                forall|j: int| 0 <= j < i ==> counts@[j] == 0u64,
            decreases 256 - i,
        {
            counts.push(0);
            i += 1;
        }
        let r = ByteHistogram { counts, total: 0, bytes: Ghost(Seq::empty()) };
        assert forall|v: u8| r.counts@[v as int] as nat == byte_count(r.bytes@, v) by {
            assert(byte_count(r.bytes@, v) == 0);
        }
        r
    }

    /// Tally one byte: its counter and the total each rise by one.
    pub fn add_byte(&mut self, b: u8)
        requires
            old(self).wf(),
            old(self)@.len() < u64::MAX,
        ensures
            final(self).wf(),
            final(self)@ == old(self)@.push(b),
    {
        proof {
            lemma_byte_count_le_len(self.bytes@, b);
        }
        let idx = b as usize;
        let c = self.counts[idx];
        self.counts[idx] = c + 1;
        self.total = self.total + 1;
        proof {
            let prior = self.bytes@;
            self.bytes@ = self.bytes@.push(b);
            assert forall|v: u8| self.counts@[v as int] as nat == byte_count(self.bytes@, v) by {
                lemma_byte_count_push(prior, b, v);
            }
        }
    }

    /// Tally a whole chunk of the stream, byte by byte.
    pub fn add_chunk(&mut self, chunk: &[u8])
        requires
            old(self).wf(),
            old(self)@.len() + chunk@.len() <= u64::MAX,
        ensures
            final(self).wf(),
            final(self)@ == old(self)@ + chunk@,
    {
        let n = chunk.len();
        let mut i: usize = 0;
        while i < n
            invariant
                self.wf(),
                i <= n,
                n == chunk@.len(),
                self@ == old(self)@ + chunk@.subrange(0, i as int),
                old(self)@.len() + chunk@.len() <= u64::MAX,
            decreases n - i,
        {
            let b = chunk[i];
            self.add_byte(b);
            proof {
                assert(old(self)@ + chunk@.subrange(0, i as int + 1) =~= (old(self)@
                    + chunk@.subrange(0, i as int)).push(chunk@[i as int]));
            }
            i += 1;
        }
        proof {
            assert(chunk@.subrange(0, n as int) =~= chunk@);
        }
    }

    /// Read the counter of byte value `v`.
    pub fn count(&self, v: u8) -> (r: u64)
        requires
            self.wf(),
        ensures
            r == self.spec_count(v),
            r as nat == byte_count(self@, v),
    {
        self.counts[v as usize]
    }

    /// Read the running total of bytes consumed.
    pub fn total(&self) -> (r: u64)
        requires
            self.wf(),
        ensures
            r == self.spec_total(),
            r as nat == self@.len(),
    {
        self.total
    }
}

/// Sum of the occurrence counts of the byte values below `n` in `s`.
pub open spec fn sum_byte_counts_below(s: Seq<u8>, n: int) -> nat
    decreases n,
{
    if n <= 0 {
        0
    } else {
        sum_byte_counts_below(s, n - 1) + byte_count(s, (n - 1) as u8)
    }
}

proof fn lemma_sum_byte_counts_empty(s: Seq<u8>, n: int)
    requires
        s.len() == 0,
    ensures
        sum_byte_counts_below(s, n) == 0,
    decreases n,
{
    if n > 0 {
        lemma_sum_byte_counts_empty(s, n - 1);
    }
}

proof fn lemma_sum_byte_counts_push(s: Seq<u8>, b: u8, n: int)
    requires
        n <= 256,
    ensures
        sum_byte_counts_below(s.push(b), n) == sum_byte_counts_below(s, n) + if (b as int) < n {
            1nat
        } else {
            0nat
        },
    decreases n,
{
    if n > 0 {
        lemma_sum_byte_counts_push(s, b, n - 1);
        lemma_byte_count_push(s, b, (n - 1) as u8);
    }
}

/// Summed over all 256 byte values, the occurrence counts make up the whole
/// stream: the sum equals its length.
pub proof fn lemma_sum_byte_counts_is_len(s: Seq<u8>)
    ensures
        sum_byte_counts_below(s, 256) == s.len(),
    decreases s.len(),
{
    if s.len() == 0 {
        lemma_sum_byte_counts_empty(s, 256);
    } else {
        let t = s.drop_last();
        lemma_sum_byte_counts_is_len(t);
        lemma_sum_byte_counts_push(t, s.last(), 256);
        assert(t.push(s.last()) =~= s);
    }
}

/// Sum of the counters of the byte values below `n` in the histogram.
pub open spec fn sum_counts_below(h: &ByteHistogram, n: int) -> nat
    decreases n,
{
    if n <= 0 {
        0
    } else {
        sum_counts_below(h, n - 1) + h.spec_count((n - 1) as u8)
    }
}

/// The 256 counters of a well-formed histogram sum to its running total.
pub proof fn lemma_total_is_sum_of_counts(h: &ByteHistogram)
    requires
        h.wf(),
    ensures
        h.spec_total() == sum_counts_below(h, 256),
{
    lemma_sum_counts_below_agrees(h, 256);
    lemma_sum_byte_counts_is_len(h@);
}

proof fn lemma_sum_counts_below_agrees(h: &ByteHistogram, n: int)
    requires
        h.wf(),
    ensures
        sum_counts_below(h, n) == sum_byte_counts_below(h@, n),
    decreases n,
{
    if n > 0 {
        lemma_sum_counts_below_agrees(h, n - 1);
    }
}

/// Two histograms that consumed the same bytes agree on every counter and on
/// the total, however differently those bytes were chunked on the way in.
pub proof fn lemma_order_independence(h1: &ByteHistogram, h2: &ByteHistogram)
    requires
        h1.wf(),
        h2.wf(),
        h1@ == h2@,
    ensures
        forall|v: u8| h1.spec_count(v) == h2.spec_count(v),
        h1.spec_total() == h2.spec_total(),
{
    assert forall|v: u8| h1.spec_count(v) == h2.spec_count(v) by {
        assert(h1.spec_count(v) == byte_count(h1.bytes@, v));
        assert(h2.spec_count(v) == byte_count(h2.bytes@, v));
    }
}

/// A histogram that consumed no bytes has total zero and every counter zero.
pub proof fn lemma_empty_histogram(h: &ByteHistogram)
    requires
        h.wf(),
        h@.len() == 0,
    ensures
        h.spec_total() == 0,
        forall|v: u8| h.spec_count(v) == 0,
{
    assert forall|v: u8| h.spec_count(v) == 0 by {
        assert(h.spec_count(v) == byte_count(h.bytes@, v));
        assert(byte_count(h.bytes@, v) == 0);
    }
}

} // verus!
