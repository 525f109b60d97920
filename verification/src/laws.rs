//! The library-wide laws, stated over the same spec functions the engine's
//! contracts use and proved once for every stream and configuration:
//! totality of the chunk tiling, size bounds, offset chaining, independence
//! from batching, and independence of boundaries from the hash toggle.

use vstd::prelude::*;

use crate::cdc::{cuts, last_cut, lemma_run_invariants, lemma_cuts_extend, CdcParams};
use crate::chunk::Chunk;
use crate::chunker::{chunk_ok, params_for, push_chunks_ok, span_start, Chunker};
use crate::config::ChunkConfig;

verus! {

/// The concatenation of the data of a chunk sequence, in emission order.
pub open spec fn concat_contents(chunks: Seq<Chunk>) -> Seq<u8>
    decreases chunks.len(),
{
    if chunks.len() == 0 {
        Seq::empty()
    } else {
        concat_contents(chunks.drop_last()) + chunks.last().contents()
    }
}

/// Consecutive subranges of a stream concatenate to the covering subrange.
proof fn lemma_subranges_concat(s: Seq<u8>, a: int, m: int, b: int)
    requires
        0 <= a <= m <= b <= s.len(),
    ensures
        s.subrange(a, m) + s.subrange(m, b) == s.subrange(a, b),
{
    assert(s.subrange(a, m) + s.subrange(m, b) =~= s.subrange(a, b));
}

/// The first `k` chunks of a fresh-stream push concatenate to the stream
/// prefix up to their `k`-th boundary.
proof fn lemma_concat_prefix(
    chunks: Seq<Chunk>,
    p: CdcParams,
    s: Seq<u8>,
    b0: int,
    hashing: bool,
    k: int,
)
    requires
        p.wf(),
        push_chunks_ok(chunks, p, Seq::<u8>::empty(), s, b0, hashing),
        0 <= k <= chunks.len(),
    ensures
        concat_contents(chunks.take(k)) == s.subrange(
            0,
            if k == 0 {
                0
            } else {
                cuts(p, s)[k - 1]
            },
        ),
    decreases k,
{
    crate::cdc::lemma_run_empty(p);
    lemma_run_invariants(p, s);
    if k == 0 {
        assert(concat_contents(chunks.take(0)) =~= s.subrange(0, 0));
    } else {
        lemma_concat_prefix(chunks, p, s, b0, hashing, k - 1);
        assert(chunks.take(k).drop_last() =~= chunks.take(k - 1));
        assert(chunks.take(k).last() == chunks[k - 1]);
        let prev = if k == 1 {
            0
        } else {
            cuts(p, s)[k - 2]
        };
        assert(chunk_ok(chunks[k - 1], s, span_start(cuts(p, s), k - 1), cuts(p, s)[k - 1], b0, hashing));
        assert(span_start(cuts(p, s), k - 1) == prev);
        lemma_subranges_concat(s, 0, prev, cuts(p, s)[k - 1]);
    }
}

/// Totality: after pushing a whole stream into a fresh chunker, the emitted
/// chunk data, concatenated in order and followed by the remaining pending
/// tail, is exactly the stream.
#[verifier::rlimit(100)]
pub proof fn lemma_push_totality(
    chunks: Seq<Chunk>,
    p: CdcParams,
    s: Seq<u8>,
    b0: int,
    hashing: bool,
)
    requires
        p.wf(),
        push_chunks_ok(chunks, p, Seq::<u8>::empty(), s, b0, hashing),
    ensures
        concat_contents(chunks) + s.skip(last_cut(p, s)) == s,
{
    crate::cdc::lemma_run_empty(p);
    lemma_run_invariants(p, s);
    let n = chunks.len() as int;
    lemma_concat_prefix(chunks, p, s, b0, hashing, n);
    assert(chunks.take(n) =~= chunks);
    assert(concat_contents(chunks) == s.subrange(0, last_cut(p, s)));
    assert(s.subrange(0, last_cut(p, s)) + s.skip(last_cut(p, s)) =~= s);
}

/// Size bounds: every chunk a push emits has a length within
/// `[min, max]`.
pub proof fn lemma_chunk_size_bounds(
    chunks: Seq<Chunk>,
    p: CdcParams,
    s0: Seq<u8>,
    s1: Seq<u8>,
    b0: int,
    hashing: bool,
)
    requires
        p.wf(),
        push_chunks_ok(chunks, p, s0, s1, b0, hashing),
        cuts(p, s1).take(cuts(p, s0).len() as int) == cuts(p, s0),
    ensures
        forall|j: int|
            0 <= j < chunks.len() ==> p.min <= #[trigger] chunks[j].contents().len() <= p.max,
{
    lemma_run_invariants(p, s1);
    let cs0 = cuts(p, s0);
    let cs1 = cuts(p, s1);
    assert forall|j: int| 0 <= j < chunks.len() implies p.min
        <= #[trigger] chunks[j].contents().len() <= p.max by {
        let k = cs0.len() as int + j;
        assert(chunk_ok(chunks[j], s1, span_start(cs1, k), cs1[k], b0, hashing));
        assert(p.min <= cs1[k] - (if k == 0 {
            0int
        } else {
            cs1[k - 1]
        }) <= p.max);
        assert(0 <= span_start(cs1, k) && cs1[k] <= s1.len());
    }
}

/// Offset chaining: on a fresh stream the first chunk sits at offset 0 and
/// each later chunk starts exactly where the previous one ended.
#[verifier::rlimit(100)]
pub proof fn lemma_offsets_chain(
    chunks: Seq<Chunk>,
    p: CdcParams,
    s: Seq<u8>,
    hashing: bool,
)
    requires
        p.wf(),
        s.len() <= u64::MAX,
        push_chunks_ok(chunks, p, Seq::<u8>::empty(), s, 0, hashing),
    ensures
        chunks.len() > 0 ==> chunks[0].offset == Some(0u64),
        forall|j: int|
            0 <= j < chunks.len() - 1 ==> #[trigger] chunks[j + 1].offset == Some(
                (chunks[j].start_spec() + chunks[j].contents().len()) as u64,
            ),
{
    crate::cdc::lemma_run_empty(p);
    lemma_run_invariants(p, s);
    let cs = cuts(p, s);
    assert forall|j: int| 0 <= j < chunks.len() - 1 implies #[trigger] chunks[j + 1].offset
        == Some((chunks[j].start_spec() + chunks[j].contents().len()) as u64) by {
        assert(chunk_ok(chunks[j], s, span_start(cs, j), cs[j], 0, hashing));
        assert(chunk_ok(chunks[j + 1], s, span_start(cs, j + 1), cs[j + 1], 0, hashing));
        assert(0 <= span_start(cs, j) && cs[j] <= s.len());
        assert(chunks[j].contents().len() == cs[j] - span_start(cs, j));
        assert(chunks[j].start_spec() == span_start(cs, j));
    }
}

/// Batching independence: the chunks of two consecutive pushes are exactly
/// the chunks of the one combined push, so any partition of a stream into
/// batches yields the same chunk sequence.
pub proof fn lemma_batching_independent(
    c1: Seq<Chunk>,
    c2: Seq<Chunk>,
    p: CdcParams,
    s0: Seq<u8>,
    t1: Seq<u8>,
    t2: Seq<u8>,
    b0: int,
    hashing: bool,
)
    requires
        p.wf(),
        push_chunks_ok(c1, p, s0, s0 + t1, b0, hashing),
        push_chunks_ok(c2, p, s0 + t1, (s0 + t1) + t2, b0, hashing),
    ensures
        push_chunks_ok(c1 + c2, p, s0, s0 + (t1 + t2), b0, hashing),
{
    let s1 = s0 + t1;
    let s2 = (s0 + t1) + t2;
    assert(s2 =~= s0 + (t1 + t2));
    lemma_cuts_extend(p, s0, t1);
    lemma_cuts_extend(p, s1, t2);
    lemma_run_invariants(p, s1);
    lemma_run_invariants(p, s2);
    let cs0 = cuts(p, s0);
    let cs1 = cuts(p, s1);
    let cs2 = cuts(p, s2);
    assert forall|j: int| 0 <= j < (c1 + c2).len() implies chunk_ok(
        #[trigger] (c1 + c2)[j],
        s2,
        span_start(cs2, cs0.len() + j),
        cs2[cs0.len() + j],
        b0,
        hashing,
    ) by {
        let k = cs0.len() as int + j;
        if j < c1.len() {
            assert((c1 + c2)[j] == c1[j]);
            assert(chunk_ok(c1[j], s1, span_start(cs1, k), cs1[k], b0, hashing));
            assert(cs2[k] == cs1.take(cs1.len() as int)[k]);
            assert(cs2[k] == cs1[k]);
            if k > 0 {
                assert(cs2[k - 1] == cs1[k - 1]);
            }
            assert(span_start(cs2, k) == span_start(cs1, k));
            assert(0 <= span_start(cs1, k) <= cs1[k] <= s1.len());
            assert(s1.subrange(span_start(cs1, k), cs1[k]) =~= s2.subrange(
                span_start(cs2, k),
                cs2[k],
            ));
        } else {
            let j2 = j - c1.len();
            assert((c1 + c2)[j] == c2[j2]);
            assert(chunk_ok(c2[j2], s2, span_start(cs2, cs1.len() + j2), cs2[cs1.len() + j2], b0, hashing));
            assert(cs1.len() + j2 == k);
        }
    }
}

/// Boundary independence from the hash toggle: two configurations that
/// differ at most in whether hashing is enabled induce the same boundary
/// parameters, hence identical boundaries and offsets on every stream.
pub proof fn lemma_hash_toggle_independent(c1: ChunkConfig, c2: ChunkConfig)
    requires
        c1.min_size == c2.min_size,
        c1.avg_size == c2.avg_size,
        c1.max_size == c2.max_size,
        c1.normalization_level == c2.normalization_level,
        c1.key == c2.key,
    ensures
        params_for(c1) == params_for(c2),
{
}

/// State determinism: two well-formed chunkers with the same configuration
/// and the same recorded stream agree on their offset, pending bytes and
/// kernel state. With the contract of `push`, equal streams therefore give
/// equal chunk sequences; in particular a chunker after `reset` behaves as a
/// freshly constructed one.
pub proof fn lemma_state_determined(a: &Chunker, b: &Chunker)
    requires
        a.wf(),
        b.wf(),
        a.config == b.config,
        a.stream@ == b.stream@,
        a.base@ == b.base@,
    ensures
        a.offset == b.offset,
        a.pending_view() == b.pending_view(),
        a.cdc.state() == b.cdc.state(),
{
}

/// Short streams are never cut: a stream shorter than `min` has no
/// boundary, so `push` buffers it whole and `finish` returns it as the one
/// terminal chunk.
pub proof fn lemma_no_cut_below_min(p: CdcParams, s: Seq<u8>)
    requires
        p.wf(),
        s.len() < p.min,
    ensures
        cuts(p, s) == Seq::<int>::empty(),
        last_cut(p, s) == 0,
{
    lemma_run_invariants(p, s);
    if cuts(p, s).len() > 0 {
        let i = 0int;
        assert(p.min <= cuts(p, s)[i] - (if i == 0 {
            0int
        } else {
            cuts(p, s)[i - 1]
        }) <= p.max);
        assert(cuts(p, s)[i] <= s.len());
        assert(false);
    }
    assert(cuts(p, s) =~= Seq::<int>::empty());
}

} // verus!
