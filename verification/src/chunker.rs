//! The streaming chunking engine.
//!
//! [`Chunker`] consumes byte batches of any size and emits complete chunks
//! as the FastCDC kernel finds boundaries. Its contracts tie every emitted
//! chunk to the [`cuts`](crate::cdc::cuts) of the whole stream fed so far,
//! so the chunk sequence provably depends on the stream and the
//! configuration alone, never on how the stream was split into batches.

use vstd::prelude::*;

use crate::bytebuf::{bytes_as_slice, bytes_from_vec, bytes_new, bytes_slice, bytes_view};
use crate::cdc::{cdc_run, cdc_step, cuts, last_cut, CdcParams, FastCdc};
use crate::cdc::{mask_l_for, mask_s_for};
use crate::chunk::{Chunk, ChunkHash};
use crate::config::{sizes_valid, ChunkConfig};
use crate::hash::{blake3_of, derive_gear_stream, gear_stream_of, Blake3Hasher};
use crate::tables::{gear_shifted_seq, gear_table_shifted};

verus! {

/// The 64-bit little-endian value at entry `i` of a byte stream: bytes
/// `8i..8i+8`, least significant first.
pub open spec fn le64_at(s: Seq<u8>, i: int) -> u64 {
    (s[8 * i] as u64) | ((s[8 * i + 1] as u64) << 8) | ((s[8 * i + 2] as u64) << 16) | ((s[8 * i
        + 3] as u64) << 24) | ((s[8 * i + 4] as u64) << 32) | ((s[8 * i + 5] as u64) << 40) | ((s[8
        * i + 6] as u64) << 48) | ((s[8 * i + 7] as u64) << 56)
}

/// The gear table a 32-byte key derives: 256 little-endian 64-bit values of
/// the keyed extendable output, each pre-shifted left by one.
pub open spec fn keyed_table_spec(key: Seq<u8>) -> Seq<u64> {
    Seq::new(256, |i: int| (le64_at(gear_stream_of(key), i) << 1) as u64)
}

/// Builds the derived gear table for a key.
fn keyed_gear_table(key: &[u8; 32]) -> (v: Vec<u64>)
    ensures
        v@ == keyed_table_spec(key@),
{
    let stream = derive_gear_stream(key);
    let mut v: Vec<u64> = Vec::with_capacity(256);
    let mut i: usize = 0;
    while i < 256
        invariant
            i <= 256,
            stream@ == gear_stream_of(key@),
            stream@.len() == 2048,
            v@.len() == i,
            forall|j: int| 0 <= j < i ==> v@[j] == keyed_table_spec(key@)[j],
        decreases 256 - i,
    {
        let b = 8 * i;
        let x: u64 = (stream[b] as u64) | ((stream[b + 1] as u64) << 8u64) | ((stream[b
            + 2] as u64) << 16u64) | ((stream[b + 3] as u64) << 24u64) | ((stream[b + 4] as u64)
            << 32u64) | ((stream[b + 5] as u64) << 40u64) | ((stream[b + 6] as u64) << 48u64) | ((
        stream[b + 7] as u64) << 56u64);
        v.push(x << 1u64);
        i += 1;
    }
    proof {
        assert(v@ =~= keyed_table_spec(key@));
    }
    v
}

/// The effective gear table of a configuration: the static table, or the
/// key-derived one in keyed mode.
pub open spec fn table_for(config: ChunkConfig) -> Seq<u64> {
    match config.key {
        None => gear_shifted_seq(),
        Some(k) => keyed_table_spec(k@),
    }
}

/// The kernel parameters a configuration induces. They depend on the sizes,
/// the normalization level and the key alone; in particular not on whether
/// hashing is enabled.
pub open spec fn params_for(config: ChunkConfig) -> CdcParams {
    CdcParams {
        min: config.min_size as nat,
        avg: config.avg_size as nat,
        max: config.max_size as nat,
        mask_s: mask_s_for(config.avg_size, config.normalization_level),
        mask_l: mask_l_for(config.avg_size, config.normalization_level),
        table: table_for(config),
    }
}

/// The start of the `j`-th chunk span given the boundary positions: the
/// previous boundary, or 0 for the first chunk.
pub open spec fn span_start(cs: Seq<int>, j: int) -> int {
    if j == 0 {
        0
    } else {
        cs[j - 1]
    }
}

/// What one emitted chunk must be: the exact subrange of the stream between
/// its two boundaries, its offset the stream position of its first byte, and
/// its hash the strong digest of its bytes exactly when hashing is on.
pub open spec fn chunk_ok(c: Chunk, s1: Seq<u8>, start: int, end: int, base: int, hashing: bool) -> bool {
    &&& c.contents() == s1.subrange(start, end)
    &&& c.offset == Some((base + start) as u64)
    &&& if hashing {
        c.hash matches Some(h) && h@ == blake3_of(s1.subrange(start, end))
    } else {
        c.hash is None
    }
}

/// What one `push` returns: exactly the chunks between the boundaries of the
/// old stream and those of the extended stream, each one correct per
/// [`chunk_ok`].
pub open spec fn push_chunks_ok(
    chunks: Seq<Chunk>,
    p: CdcParams,
    s0: Seq<u8>,
    s1: Seq<u8>,
    base: int,
    hashing: bool,
) -> bool {
    let cs0 = cuts(p, s0);
    let cs1 = cuts(p, s1);
    &&& chunks.len() == cs1.len() - cs0.len()
    &&& forall|j: int|
        0 <= j < chunks.len() ==> chunk_ok(
            #[trigger] chunks[j],
            s1,
            span_start(cs1, cs0.len() + j),
            cs1[cs0.len() + j],
            base,
            hashing,
        )
}

/// The chunk facts the push loop maintains after `i` bytes of the batch
/// `dv` have been processed on top of the previous stream `s0`.
pub open spec fn loop_chunks_ok(
    chunks: Seq<Chunk>,
    p: CdcParams,
    s0: Seq<u8>,
    dv: Seq<u8>,
    i: int,
    b0: int,
    hashing: bool,
) -> bool {
    let cs = cuts(p, s0 + dv.take(i));
    let k0 = cuts(p, s0).len() as int;
    &&& cs.len() >= k0
    &&& chunks.len() == cs.len() - k0
    &&& forall|j: int|
        0 <= j < chunks.len() ==> chunk_ok(
            #[trigger] chunks[j],
            s0 + dv,
            span_start(cs, k0 + j),
            cs[k0 + j],
            b0,
            hashing,
        )
}

/// A byte without a boundary leaves the emitted chunks as they are.
proof fn lemma_loop_chunks_nocut(
    chunks: Seq<Chunk>,
    p: CdcParams,
    s0: Seq<u8>,
    dv: Seq<u8>,
    i: int,
    b0: int,
    hashing: bool,
)
    requires
        0 <= i < dv.len(),
        loop_chunks_ok(chunks, p, s0, dv, i, b0, hashing),
        !cdc_step(p, cdc_run(p, s0 + dv.take(i)), dv[i]).1,
    ensures
        loop_chunks_ok(chunks, p, s0, dv, i + 1, b0, hashing),
{
    let s_pre = s0 + dv.take(i);
    crate::cdc::lemma_run_snoc(p, s_pre, dv[i]);
    assert(s_pre.push(dv[i]) =~= s0 + dv.take(i + 1));
    assert(cuts(p, s0 + dv.take(i + 1)) == cuts(p, s_pre));
}

/// A byte with a boundary appends exactly one correct chunk.
proof fn lemma_loop_chunks_cut(
    chunks: Seq<Chunk>,
    c: Chunk,
    p: CdcParams,
    s0: Seq<u8>,
    dv: Seq<u8>,
    i: int,
    b0: int,
    hashing: bool,
)
    requires
        0 <= i < dv.len(),
        loop_chunks_ok(chunks, p, s0, dv, i, b0, hashing),
        cdc_step(p, cdc_run(p, s0 + dv.take(i)), dv[i]).1,
        chunk_ok(c, s0 + dv, last_cut(p, s0 + dv.take(i)), s0.len() + i + 1, b0, hashing),
    ensures
        loop_chunks_ok(chunks.push(c), p, s0, dv, i + 1, b0, hashing),
{
    let s_pre = s0 + dv.take(i);
    crate::cdc::lemma_run_snoc(p, s_pre, dv[i]);
    assert(s_pre.push(dv[i]) =~= s0 + dv.take(i + 1));
    let cs_pre = cuts(p, s_pre);
    let cs_new = cuts(p, s0 + dv.take(i + 1));
    let k0 = cuts(p, s0).len() as int;
    assert(cs_new == cs_pre.push(s0.len() + i + 1));
    assert(span_start(cs_new, k0 + chunks.len() as int) == last_cut(p, s_pre));
    assert forall|j: int| 0 <= j < chunks.push(c).len() implies chunk_ok(
        #[trigger] chunks.push(c)[j],
        s0 + dv,
        span_start(cs_new, k0 + j),
        cs_new[k0 + j],
        b0,
        hashing,
    ) by {
        if j < chunks.len() {
            assert(chunk_ok(chunks[j], s0 + dv, span_start(cs_pre, k0 + j), cs_pre[k0 + j], b0, hashing));
            assert(cs_new[k0 + j] == cs_pre[k0 + j]);
            assert(span_start(cs_new, k0 + j) == span_start(cs_pre, k0 + j));
        } else {
            assert(chunks.push(c)[j] == c);
        }
    }
}

/// When the whole batch is processed, the loop facts are exactly the `push`
/// contract's chunk facts.
proof fn lemma_loop_chunks_done(
    chunks: Seq<Chunk>,
    p: CdcParams,
    s0: Seq<u8>,
    dv: Seq<u8>,
    b0: int,
    hashing: bool,
)
    requires
        loop_chunks_ok(chunks, p, s0, dv, dv.len() as int, b0, hashing),
    ensures
        push_chunks_ok(chunks, p, s0, s0 + dv, b0, hashing),
{
    assert(dv.take(dv.len() as int) =~= dv);
}

/// Extending the unfinished tail by one byte: when the tail of the
/// processed prefix is `pend` followed by the batch bytes since the last
/// boundary, the tail one byte later appends that byte, and equals the
/// corresponding subrange of the full stream.
proof fn lemma_tail_extend(s0: Seq<u8>, dv: Seq<u8>, i: int, ncs: int, pend: Seq<u8>, start: int)
    requires
        0 <= i < dv.len(),
        0 <= ncs <= i,
        0 <= start <= s0.len() + i,
        pend + dv.subrange(ncs, i) == (s0 + dv.take(i)).skip(start),
    ensures
        pend.len() + (i - ncs) == s0.len() + i - start,
        pend + dv.subrange(ncs, i + 1) == (s0 + dv.take(i + 1)).skip(start),
        pend + dv.subrange(ncs, i + 1) == (s0 + dv).subrange(start, s0.len() + i + 1),
{
    let s_pre = s0 + dv.take(i);
    let s_post = s0 + dv.take(i + 1);
    let tail = pend + dv.subrange(ncs, i);
    let rhs = pend + dv.subrange(ncs, i + 1);
    assert(dv.subrange(ncs, i + 1) =~= dv.subrange(ncs, i) + seq![dv[i]]);
    assert(rhs =~= tail.push(dv[i]));
    assert(s_post =~= s_pre.push(dv[i]));
    assert(s_post.skip(start) =~= s_pre.skip(start).push(dv[i]));
    assert(rhs == s_post.skip(start));
    assert((s0 + dv).subrange(start, s0.len() + i + 1) =~= s_post.skip(start));
}

/// Everything one boundary byte changes: the new boundary is appended, the
/// kernel state returns to fresh, and the finished chunk is the pending
/// carry plus the batch bytes since the previous boundary.
proof fn lemma_cut_bookkeeping(p: CdcParams, s0: Seq<u8>, dv: Seq<u8>, i: int, ncs: int, pend: Seq<u8>)
    requires
        p.wf(),
        0 <= i < dv.len(),
        0 <= ncs <= i,
        cdc_step(p, cdc_run(p, s0 + dv.take(i)), dv[i]).1,
        pend + dv.subrange(ncs, i) == (s0 + dv.take(i)).skip(last_cut(p, s0 + dv.take(i))),
    ensures
        ({
            let s_pre = s0 + dv.take(i);
            let s_post = s0 + dv.take(i + 1);
            let start = last_cut(p, s_pre);
            let end = s0.len() + i + 1;
            &&& cuts(p, s_post) == cuts(p, s_pre).push(end as int)
            &&& last_cut(p, s_post) == end
            &&& cdc_run(p, s_post) == cdc_step(p, cdc_run(p, s_pre), dv[i]).0
            &&& end - start == pend.len() + (i + 1 - ncs)
            &&& p.min <= end - start <= p.max
            &&& 0 <= start <= s_pre.len()
            &&& (s0 + dv).subrange(start, end as int) == pend + dv.subrange(ncs, i + 1)
            &&& s_post.skip(end as int) == Seq::<u8>::empty()
        }),
{
    let s_pre = s0 + dv.take(i);
    let s_post = s0 + dv.take(i + 1);
    let start = last_cut(p, s_pre);
    let end = s0.len() + i + 1;
    crate::cdc::lemma_run_tail_facts(p, s_pre);
    crate::cdc::lemma_run_snoc(p, s_pre, dv[i]);
    assert(s_pre.push(dv[i]) =~= s_post);
    lemma_tail_extend(s0, dv, i, ncs, pend, start);
    assert(s_post.skip(end as int) =~= Seq::<u8>::empty());
}

/// Everything a non-boundary byte changes: the boundaries stay, the byte
/// joins the unfinished tail.
#[verifier::rlimit(60)]
proof fn lemma_nocut_bookkeeping(p: CdcParams, s0: Seq<u8>, dv: Seq<u8>, i: int, ncs: int, pend: Seq<u8>)
    requires
        p.wf(),
        0 <= i < dv.len(),
        0 <= ncs <= i,
        !cdc_step(p, cdc_run(p, s0 + dv.take(i)), dv[i]).1,
        pend + dv.subrange(ncs, i) == (s0 + dv.take(i)).skip(last_cut(p, s0 + dv.take(i))),
    ensures
        ({
            let s_pre = s0 + dv.take(i);
            let s_post = s0 + dv.take(i + 1);
            &&& cuts(p, s_post) == cuts(p, s_pre)
            &&& last_cut(p, s_post) == last_cut(p, s_pre)
            &&& cdc_run(p, s_post) == cdc_step(p, cdc_run(p, s_pre), dv[i]).0
            &&& pend + dv.subrange(ncs, i + 1) == s_post.skip(last_cut(p, s_post))
        }),
{
    let s_pre = s0 + dv.take(i);
    let s_post = s0 + dv.take(i + 1);
    crate::cdc::lemma_run_tail_facts(p, s_pre);
    crate::cdc::lemma_run_snoc(p, s_pre, dv[i]);
    assert(s_pre.push(dv[i]) =~= s_post);
    lemma_tail_extend(s0, dv, i, ncs, pend, last_cut(p, s_pre));
}

/// A streaming content-defined chunker.
///
/// Bytes go in through [`Chunker::push`] in batches of any size; complete
/// chunks come out as boundaries are found, and the unboundaried tail is
/// carried as `pending`. [`Chunker::finish`] drains the tail as the terminal
/// chunk. The ghost `stream` records the bytes fed since creation, the last
/// `reset`, or the last `finish`; `base` is the stream offset where that
/// recording began.
pub struct Chunker {
    /// The boundary-detection kernel.
    pub cdc: FastCdc,
    /// Bytes after the last boundary, waiting for more input; never empty
    /// when present.
    pub pending: Option<bytes::Bytes>,
    /// The stream position of the next chunk to be emitted.
    pub offset: u64,
    /// The configuration this chunker was built with.
    pub config: ChunkConfig,
    /// The bytes fed since creation, the last reset, or the last finish.
    pub stream: Ghost<Seq<u8>>,
    /// The stream position where `stream` begins.
    pub base: Ghost<int>,
}

impl Chunker {
    /// The bytes of the pending carry.
    pub open spec fn pending_view(&self) -> Seq<u8> {
        match self.pending {
            None => Seq::<u8>::empty(),
            Some(b) => bytes_view(b),
        }
    }

    /// The engine invariant: the configuration is valid, the kernel runs
    /// under the parameters the configuration induces, its state is exactly
    /// the state after the recorded stream, the pending carry is the tail of
    /// the stream after its last boundary, and `offset` points at that
    /// boundary.
    pub open spec fn wf(&self) -> bool {
        let p = params_for(self.config);
        &&& sizes_valid(self.config.min_size, self.config.avg_size, self.config.max_size)
        &&& self.cdc.wf()
        &&& self.cdc.params() == p
        &&& self.cdc.state() == cdc_run(p, self.stream@)
        &&& self.base@ >= 0
        &&& self.base@ + self.stream@.len() <= u64::MAX
        &&& self.offset as int == self.base@ + last_cut(p, self.stream@)
        &&& self.pending_view() == self.stream@.skip(last_cut(p, self.stream@))
        &&& (self.pending is Some ==> self.pending_view().len() > 0)
    }

    /// Creates a chunker for a validated configuration.
    pub fn new(config: ChunkConfig) -> (r: Chunker)
        requires
            sizes_valid(config.min_size, config.avg_size, config.max_size),
        ensures
            r.wf(),
            r.config == config,
            r.stream@ == Seq::<u8>::empty(),
            r.base@ == 0,
            r.offset == 0,
            r.pending is None,
    {
        let table: Vec<u64> = match &config.key {
            None => gear_table_shifted(),
            Some(k) => keyed_gear_table(k),
        };
        let cdc = FastCdc::with_level(
            config.min_size,
            config.avg_size,
            config.max_size,
            config.normalization_level,
            table,
        );
        proof {
            crate::cdc::lemma_run_empty(params_for(config));
            assert(Seq::<u8>::empty().skip(0) =~= Seq::<u8>::empty());
        }
        Chunker {
            cdc,
            pending: None,
            offset: 0,
            config,
            stream: Ghost(Seq::empty()),
            base: Ghost(0),
        }
    }

    /// Feeds one batch of bytes and returns the complete chunks it finishes,
    /// together with a snapshot of the pending carry. The carry is
    /// informational: it must not be fed back.
    ///
    /// The returned chunks are exactly the spans between the boundaries that
    /// the batch completes, so the cumulative output is a function of the
    /// whole stream and the configuration alone.
    #[verifier::rlimit(100)]
    pub fn push(&mut self, data: bytes::Bytes) -> (r: (Vec<Chunk>, bytes::Bytes))
        requires
            old(self).wf(),
            old(self).base@ + old(self).stream@.len() + bytes_view(data).len() <= u64::MAX,
        ensures
            final (self).wf(),
            final (self).config == old(self).config,
            final (self).base@ == old(self).base@,
            final (self).stream@ == old(self).stream@ + bytes_view(data),
            push_chunks_ok(
                r.0@,
                params_for(old(self).config),
                old(self).stream@,
                old(self).stream@ + bytes_view(data),
                old(self).base@,
                old(self).config.hash_config.enabled,
            ),
            bytes_view(r.1) == final (self).pending_view(),
            final (self).pending_view() == (old(self).stream@ + bytes_view(data)).skip(
                last_cut(params_for(old(self).config), old(self).stream@ + bytes_view(data)),
            ),
            bytes_view(data).len() == 0 ==> r.0@.len() == 0 && final (self).offset == old(
                self,
            ).offset && final (self).pending_view() == old(self).pending_view(),
    {
        let ghost s0 = self.stream@;
        let ghost dv = bytes_view(data);
        let ghost p = params_for(self.config);
        let ghost b0 = self.base@;
        let ghost c0 = self.config;
        let ghost op0 = self.pending;

        let slice = bytes_as_slice(&data);
        let n = slice.len();
        let mut chunks: Vec<Chunk> = Vec::new();
        let mut new_chunk_start: usize = 0;
        let mut i: usize = 0;

        proof {
            crate::cdc::lemma_run_tail_facts(p, s0);
            assert(s0 + dv.take(0) =~= s0);
        }

        while i < n
            invariant
                i <= n,
                n == dv.len(),
                slice@ == dv,
                dv == bytes_view(data),
                new_chunk_start <= i,
                self.config == c0,
                self.base@ == b0,
                self.stream@ == s0 + dv.take(i as int),
                self.cdc.wf(),
                self.cdc.params() == p,
                p == params_for(c0),
                p.wf(),
                sizes_valid(c0.min_size, c0.avg_size, c0.max_size),
                b0 >= 0,
                b0 + s0.len() + dv.len() <= u64::MAX,
                self.cdc.state() == cdc_run(p, self.stream@),
                self.offset as int == b0 + last_cut(p, self.stream@),
                loop_chunks_ok(chunks@, p, s0, dv, i as int, b0, c0.hash_config.enabled),
                chunks@.len() > 0 ==> self.pending is None,
                self.pending is Some ==> chunks@.len() == 0 && new_chunk_start == 0
                    && self.pending == op0 && self.pending_view().len() > 0,
                self.pending is None ==> last_cut(p, self.stream@) == s0.len() + new_chunk_start,
                self.pending_view() + dv.subrange(new_chunk_start as int, i as int)
                    == self.stream@.skip(last_cut(p, self.stream@)),
            decreases n - i,
        {
            let ghost s_pre = self.stream@;
            let ghost pend = self.pending_view();
            let byte = slice[i];
            let cut = self.cdc.update(byte);
            if cut {
                let ghost s_post = s0 + dv.take(i + 1);
                let ghost start = last_cut(p, s_pre);
                let ghost end = s0.len() as int + i + 1;
                proof {
                    lemma_cut_bookkeeping(p, s0, dv, i as int, new_chunk_start as int, pend);
                }

                let pend_len: usize = match &self.pending {
                    Some(b) => bytes_as_slice(b).len(),
                    None => 0,
                };
                let chunk_len: usize = pend_len + (i + 1 - new_chunk_start);

                let chunk_data: bytes::Bytes = match &self.pending {
                    Some(pend_buf) => {
                        let mut combined: Vec<u8> = Vec::new();
                        combined.extend_from_slice(bytes_as_slice(pend_buf));
                        combined.extend_from_slice(&slice[new_chunk_start..i + 1]);
                        bytes_from_vec(combined)
                    },
                    None => bytes_slice(&data, new_chunk_start, i + 1),
                };
                proof {
                    assert(bytes_view(chunk_data) =~= pend + dv.subrange(
                        new_chunk_start as int,
                        i + 1,
                    ));
                }

                let hash: Option<ChunkHash> = if self.config.hash_config.enabled {
                    Some(Blake3Hasher::hash(bytes_as_slice(&chunk_data)))
                } else {
                    None
                };

                let chunk_offset = self.offset;
                let chunk = Chunk { data: chunk_data, offset: Some(chunk_offset), hash };
                proof {
                    assert(chunk_ok(chunk, s0 + dv, start, end, b0, c0.hash_config.enabled));
                    lemma_loop_chunks_cut(
                        chunks@,
                        chunk,
                        p,
                        s0,
                        dv,
                        i as int,
                        b0,
                        c0.hash_config.enabled,
                    );
                }
                chunks.push(chunk);
                self.offset = self.offset + chunk_len as u64;
                new_chunk_start = i + 1;
                self.pending = None;
                proof {
                    self.stream@ = s_post;
                    assert(self.pending_view() + dv.subrange(new_chunk_start as int, i + 1)
                        =~= Seq::<u8>::empty());
                }
            } else {
                proof {
                    lemma_nocut_bookkeeping(p, s0, dv, i as int, new_chunk_start as int, pend);
                    lemma_loop_chunks_nocut(
                        chunks@,
                        p,
                        s0,
                        dv,
                        i as int,
                        b0,
                        c0.hash_config.enabled,
                    );
                    self.stream@ = s0 + dv.take(i + 1);
                }
            }
            i += 1;
        }

        proof {
            assert(dv.take(n as int) =~= dv);
            assert(self.stream@ == s0 + dv);
            lemma_loop_chunks_done(chunks@, p, s0, dv, b0, c0.hash_config.enabled);
            crate::cdc::lemma_run_tail_facts(p, self.stream@);
        }

        if new_chunk_start < n {
            let remaining = bytes_slice(&data, new_chunk_start, n);
            let new_pending: bytes::Bytes = match &self.pending {
                None => remaining,
                Some(pend) => {
                    let mut combined: Vec<u8> = Vec::new();
                    combined.extend_from_slice(bytes_as_slice(pend));
                    combined.extend_from_slice(bytes_as_slice(&remaining));
                    bytes_from_vec(combined)
                },
            };
            proof {
                assert(bytes_view(new_pending) =~= self.pending_view() + dv.subrange(
                    new_chunk_start as int,
                    n as int,
                ));
            }
            self.pending = Some(new_pending);
        }

        proof {
            assert(self.pending_view() =~= self.stream@.skip(last_cut(p, self.stream@)));
        }

        let leftover: bytes::Bytes = match &self.pending {
            Some(b) => b.clone(),
            None => bytes_new(),
        };

        proof {
            if dv.len() == 0 {
                assert(s0 + dv =~= s0);
                assert(op0.is_some() ==> self.pending == op0);
            }
        }

        (chunks, leftover)
    }

    /// Ends the stream: drains the pending carry as the terminal chunk, or
    /// returns nothing when no bytes are pending. Afterwards the kernel is
    /// fresh and nothing is pending; `offset` stays at the end of the
    /// consumed stream until `reset` clears it.
    #[verifier::rlimit(50)]
    pub fn finish(&mut self) -> (r: Option<Chunk>)
        requires
            old(self).wf(),
        ensures
            final (self).wf(),
            final (self).config == old(self).config,
            r is Some <==> old(self).pending_view().len() > 0,
            r matches Some(c) ==> {
                &&& c.contents() == old(self).pending_view()
                &&& c.offset == Some(old(self).offset)
                &&& 1 <= c.contents().len() < old(self).config.max_size
                &&& if old(self).config.hash_config.enabled {
                    c.hash matches Some(h) && h@ == blake3_of(old(self).pending_view())
                } else {
                    c.hash is None
                }
                &&& final (self).offset == old(self).offset + c.contents().len()
            },
            r is None ==> final (self).offset == old(self).offset,
            final (self).pending is None,
            final (self).stream@ == Seq::<u8>::empty(),
            final (self).base@ == final (self).offset as int,
    {
        proof {
            crate::cdc::lemma_run_tail_facts(params_for(self.config), self.stream@);
        }
        match &self.pending {
            None => {
                proof {
                    crate::cdc::lemma_run_empty(params_for(self.config));
                    self.stream@ = Seq::empty();
                    self.base@ = self.offset as int;
                    assert(Seq::<u8>::empty().skip(0) =~= Seq::<u8>::empty());
                }
                None
            },
            Some(b) => {
                let pend = b.clone();
                let len = bytes_as_slice(&pend).len();
                let hash: Option<ChunkHash> = if self.config.hash_config.enabled {
                    Some(Blake3Hasher::hash(bytes_as_slice(&pend)))
                } else {
                    None
                };
                let chunk = Chunk { data: pend, offset: Some(self.offset), hash };
                self.pending = None;
                self.offset = self.offset + len as u64;
                self.cdc.reset();
                proof {
                    crate::cdc::lemma_run_empty(params_for(self.config));
                    self.stream@ = Seq::empty();
                    self.base@ = self.offset as int;
                    assert(Seq::<u8>::empty().skip(0) =~= Seq::<u8>::empty());
                }
                Some(chunk)
            },
        }
    }

    /// Returns the chunker to the state of a freshly constructed one: no
    /// pending bytes, offset zero, fresh kernel state.
    pub fn reset(&mut self)
        requires
            old(self).wf(),
        ensures
            final (self).wf(),
            final (self).config == old(self).config,
            final (self).offset == 0,
            final (self).pending is None,
            final (self).stream@ == Seq::<u8>::empty(),
            final (self).base@ == 0,
    {
        self.cdc.reset();
        self.pending = None;
        self.offset = 0;
        proof {
            crate::cdc::lemma_run_empty(params_for(self.config));
            self.stream@ = Seq::empty();
            self.base@ = 0;
            assert(Seq::<u8>::empty().skip(0) =~= Seq::<u8>::empty());
        }
    }

    /// Chunks a whole in-memory buffer in one call, without touching this
    /// chunker's own stream state.
    ///
    /// Returns the complete chunks at the buffer's boundaries followed by
    /// the terminal chunk holding the tail after the last boundary, if any
    /// bytes remain there.
    pub fn chunk_bytes(&self, data: bytes::Bytes) -> (r: Vec<Chunk>)
        requires
            self.wf(),
            bytes_view(data).len() <= u64::MAX,
        ensures
            ({
                let p = params_for(self.config);
                let dv = bytes_view(data);
                let cs = cuts(p, dv);
                let hashing = self.config.hash_config.enabled;
                let tail_len = dv.len() - last_cut(p, dv);
                &&& r@.len() == cs.len() + (if tail_len > 0 {
                    1int
                } else {
                    0
                })
                &&& forall|j: int|
                    0 <= j < cs.len() ==> chunk_ok(#[trigger] r@[j], dv, span_start(cs, j), cs[j], 0, hashing)
                &&& tail_len > 0 ==> chunk_ok(
                    r@[cs.len() as int],
                    dv,
                    last_cut(p, dv),
                    dv.len() as int,
                    0,
                    hashing,
                )
            }),
    {
        let ghost p = params_for(self.config);
        let ghost dv = bytes_view(data);
        let mut engine = Chunker::new(self.config);
        let (mut chunks, _leftover) = engine.push(data);
        proof {
            assert(Seq::<u8>::empty() + dv =~= dv);
            crate::cdc::lemma_run_empty(p);
            crate::cdc::lemma_run_tail_facts(p, dv);
        }
        match engine.finish() {
            None => {
            },
            Some(tail) => {
                proof {
                    assert(dv.skip(last_cut(p, dv)) =~= dv.subrange(last_cut(p, dv), dv.len() as int));
                }
                chunks.push(tail);
            },
        }
        chunks
    }

    /// Returns the stream position of the next chunk to be emitted.
    pub fn offset(&self) -> (r: u64)
        ensures
            r == self.offset,
    {
        self.offset
    }

    /// Returns the number of bytes waiting for more input.
    pub fn pending_len(&self) -> (r: usize)
        ensures
            r == self.pending_view().len(),
    {
        match &self.pending {
            Some(b) => bytes_as_slice(b).len(),
            None => 0,
        }
    }

    /// Returns the configuration this chunker was built with.
    pub fn config(&self) -> (r: &ChunkConfig)
        ensures
            *r == self.config,
    {
        &self.config
    }
}

impl Default for Chunker {
    /// A chunker with the default configuration.
    fn default() -> (r: Self)
        ensures
            r.wf(),
            r.config == (ChunkConfig {
                min_size: crate::config::DEFAULT_MIN_CHUNK_SIZE,
                avg_size: crate::config::DEFAULT_AVG_CHUNK_SIZE,
                max_size: crate::config::DEFAULT_MAX_CHUNK_SIZE,
                normalization_level: crate::config::DEFAULT_NORMALIZATION_LEVEL,
                hash_config: crate::config::HashConfig { enabled: true },
                key: None,
            }),
            r.offset == 0,
            r.pending is None,
            r.stream@ == Seq::<u8>::empty(),
            r.base@ == 0,
    {
        proof {
            crate::config::lemma_default_sizes_valid();
        }
        Chunker::new(ChunkConfig::default())
    }
}

} // verus!
