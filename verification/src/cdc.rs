//! The FastCDC rolling-hash kernel: a per-byte state machine that signals
//! content-defined chunk boundaries.
//!
//! The ghost types [`CdcParams`] and [`CdcState`] together with the spec
//! functions [`cdc_step`], [`cdc_run`] and [`cuts`] form the mathematical
//! model of boundary detection; every contract of the executable kernel and
//! of the streaming engine is stated against them. [`cuts`] gives the exact
//! boundary positions of a whole stream, so two runs over the same bytes are
//! provably cut in the same places however the bytes arrive.

use vstd::prelude::*;
use vstd::std_specs::bits::u64_trailing_zeros;
use vstd::wrapping::u64_specs;

use crate::tables::{gear_shifted_seq, gear_table_shifted, mask_at, mask_at_spec};

verus! {

/// The parameters boundary detection runs under: the size bounds, the two
/// normalized masks, and the (pre-shifted) gear table.
pub ghost struct CdcParams {
    /// Minimum chunk size: no boundary before this many bytes.
    pub min: nat,
    /// Average/target chunk size: where the mask switches from strict to loose.
    pub avg: nat,
    /// Maximum chunk size: a boundary is forced at this many bytes.
    pub max: nat,
    /// The strict mask, used while the current chunk is shorter than `avg`.
    pub mask_s: u64,
    /// The loose mask, used from `avg` bytes on.
    pub mask_l: u64,
    /// The effective pre-shifted gear table, 256 entries.
    pub table: Seq<u64>,
}

impl CdcParams {
    /// The well-formedness every kernel maintains.
    pub open spec fn wf(self) -> bool {
        &&& 1 <= self.min
        &&& self.min <= self.max
        &&& self.table.len() == 256
    }
}

/// The mutable state of boundary detection: the rolling hash and the number
/// of bytes seen since the last boundary.
pub ghost struct CdcState {
    /// Current rolling hash value.
    pub hash: u64,
    /// Bytes processed since the last boundary.
    pub count: nat,
}

/// The state of a kernel that has seen no byte since its last boundary.
pub open spec fn fresh_state() -> CdcState {
    CdcState { hash: 0u64, count: 0 }
}

/// One byte of the FastCDC state machine: add the gear value to the hash,
/// then signal a boundary if the minimum size is reached and either the
/// maximum size forces a cut or the masked hash is zero. On a boundary the
/// state returns to fresh.
pub open spec fn cdc_step(p: CdcParams, st: CdcState, byte: u8) -> (CdcState, bool) {
    let h = u64_specs::wrapping_add(st.hash, p.table[byte as int]);
    let c = st.count + 1;
    if c < p.min {
        (CdcState { hash: h, count: c }, false)
    } else if c >= p.max {
        (fresh_state(), true)
    } else if h & (if c < p.avg {
        p.mask_s
    } else {
        p.mask_l
    }) == 0 {
        (fresh_state(), true)
    } else {
        (CdcState { hash: h, count: c }, false)
    }
}

/// The kernel state after processing the whole of `s` from a fresh state.
#[verifier::opaque]
pub open spec fn cdc_run(p: CdcParams, s: Seq<u8>) -> CdcState
    decreases s.len(),
{
    if s.len() == 0 {
        fresh_state()
    } else {
        cdc_step(p, cdc_run(p, s.drop_last()), s.last()).0
    }
}

/// The boundary positions of `s`: position `i` is in the sequence exactly
/// when the state machine signals a boundary on byte `s[i - 1]`. Positions
/// are 1-based byte counts from the start of the stream and increase
/// strictly.
#[verifier::opaque]
pub open spec fn cuts(p: CdcParams, s: Seq<u8>) -> Seq<int>
    decreases s.len(),
{
    if s.len() == 0 {
        Seq::empty()
    } else if cdc_step(p, cdc_run(p, s.drop_last()), s.last()).1 {
        cuts(p, s.drop_last()).push(s.len() as int)
    } else {
        cuts(p, s.drop_last())
    }
}

/// The position of the last boundary of `s`, or 0 when `s` has none.
pub open spec fn last_cut(p: CdcParams, s: Seq<u8>) -> int {
    if cuts(p, s).len() == 0 {
        0
    } else {
        cuts(p, s).last()
    }
}

/// Appending one byte steps the run by one and either appends one boundary
/// position or none.
pub proof fn lemma_run_snoc(p: CdcParams, s: Seq<u8>, byte: u8)
    ensures
        cdc_run(p, s.push(byte)) == cdc_step(p, cdc_run(p, s), byte).0,
        cuts(p, s.push(byte)) == if cdc_step(p, cdc_run(p, s), byte).1 {
            cuts(p, s).push(s.len() as int + 1)
        } else {
            cuts(p, s)
        },
{
    reveal(cdc_run);
    reveal(cuts);
    assert(s.push(byte).drop_last() =~= s);
    assert(s.push(byte).last() == byte);
}

/// An empty stream leaves the kernel fresh and has no boundary.
pub proof fn lemma_run_empty(p: CdcParams)
    ensures
        cdc_run(p, Seq::<u8>::empty()) == fresh_state(),
        cuts(p, Seq::<u8>::empty()) == Seq::<int>::empty(),
        last_cut(p, Seq::<u8>::empty()) == 0,
{
    reveal(cdc_run);
    reveal(cuts);
}

/// The standing facts about a run: every boundary position is in range and
/// they increase strictly; the byte counter equals the distance from the
/// last boundary and stays below `max`; a counter of zero comes with a hash
/// of zero; and the distance between consecutive boundaries lies in
/// `[min, max]`.
pub proof fn lemma_run_invariants(p: CdcParams, s: Seq<u8>)
    requires
        p.wf(),
    ensures
        forall|i: int| 0 <= i < cuts(p, s).len() ==> 0 < #[trigger] cuts(p, s)[i] <= s.len(),
        forall|i: int, j: int|
            0 <= i < j < cuts(p, s).len() ==> #[trigger] cuts(p, s)[i] < #[trigger] cuts(p, s)[j],
        0 <= last_cut(p, s) <= s.len(),
        cdc_run(p, s).count == s.len() - last_cut(p, s),
        cdc_run(p, s).count < p.max,
        cdc_run(p, s).count == 0 ==> cdc_run(p, s).hash == 0,
        forall|i: int|
            0 <= i < cuts(p, s).len() ==> p.min <= #[trigger] cuts(p, s)[i] - (if i == 0 {
                0
            } else {
                cuts(p, s)[i - 1]
            }) <= p.max,
    decreases s.len(),
{
    reveal(cdc_run);
    reveal(cuts);
    if s.len() == 0 {
    } else {
        let s0 = s.drop_last();
        lemma_run_invariants(p, s0);
        let st0 = cdc_run(p, s0);
        let (st1, cut) = cdc_step(p, st0, s.last());
        if cut {
            assert(cuts(p, s) == cuts(p, s0).push(s.len() as int));
            assert(st0.count + 1 >= p.min);
            assert(s.len() - last_cut(p, s0) == st0.count + 1);
        } else {
            assert(cuts(p, s) == cuts(p, s0));
        }
    }
}

/// The scalar facts of a run, without the quantified ones: the byte counter
/// equals the distance from the last boundary and stays below `max`, and a
/// counter of zero comes with a hash of zero.
pub proof fn lemma_run_tail_facts(p: CdcParams, s: Seq<u8>)
    requires
        p.wf(),
    ensures
        0 <= last_cut(p, s) <= s.len(),
        cdc_run(p, s).count == s.len() - last_cut(p, s),
        cdc_run(p, s).count < p.max,
        cdc_run(p, s).count == 0 ==> cdc_run(p, s).hash == 0,
{
    lemma_run_invariants(p, s);
}

/// Boundary positions are stable under extension: the cuts of `s` are
/// exactly the first cuts of `s + t`. This is what makes chunking
/// independent of how a stream is split into batches.
pub proof fn lemma_cuts_extend(p: CdcParams, s: Seq<u8>, t: Seq<u8>)
    ensures
        cuts(p, s + t).len() >= cuts(p, s).len(),
        cuts(p, s + t).take(cuts(p, s).len() as int) == cuts(p, s),
        forall|i: int|
            cuts(p, s).len() <= i < cuts(p, s + t).len() ==> #[trigger] cuts(p, s + t)[i]
                > s.len(),
    decreases t.len(),
{
    reveal(cdc_run);
    reveal(cuts);
    if t.len() == 0 {
        assert(s + t =~= s);
        assert(cuts(p, s).take(cuts(p, s).len() as int) =~= cuts(p, s));
    } else {
        let t0 = t.drop_last();
        lemma_cuts_extend(p, s, t0);
        assert((s + t).drop_last() =~= s + t0);
        let st0 = cdc_run(p, (s + t).drop_last());
        if cdc_step(p, st0, (s + t).last()).1 {
            assert(cuts(p, s + t) == cuts(p, s + t0).push((s + t).len() as int));
            assert(cuts(p, s + t).take(cuts(p, s).len() as int) =~= cuts(p, s + t0).take(
                cuts(p, s).len() as int,
            ));
        } else {
            assert(cuts(p, s + t) == cuts(p, s + t0));
        }
    }
}

/// The state after processing `s` from state `st`, boundaries resetting the
/// state as usual.
pub open spec fn run_from(p: CdcParams, st: CdcState, s: Seq<u8>) -> CdcState
    decreases s.len(),
{
    if s.len() == 0 {
        st
    } else {
        run_from(p, cdc_step(p, st, s[0]).0, s.drop_first())
    }
}

/// The number of bytes consumed up to and including the first boundary when
/// processing `s` from state `st`, if a boundary occurs at all.
pub open spec fn first_cut_from(p: CdcParams, st: CdcState, s: Seq<u8>) -> Option<int>
    decreases s.len(),
{
    if s.len() == 0 {
        None
    } else if cdc_step(p, st, s[0]).1 {
        Some(1int)
    } else {
        match first_cut_from(p, cdc_step(p, st, s[0]).0, s.drop_first()) {
            None => None,
            Some(j) => Some(j + 1),
        }
    }
}

/// FastCDC rolling-hash kernel.
///
/// Holds the configuration-derived masks, the effective gear table, and the
/// per-stream rolling state. [`FastCdc::update`] consumes one byte and
/// reports whether a chunk boundary falls right after it; the reported
/// boundaries are exactly those of the [`cuts`] model.
#[derive(Debug, Clone)]
pub struct FastCdc {
    /// Current rolling hash value.
    pub hash: u64,
    /// Minimum chunk size.
    pub min_size: usize,
    /// Average/target chunk size.
    pub avg_size: usize,
    /// Maximum chunk size.
    pub max_size: usize,
    /// Bytes processed since the last boundary.
    pub bytes_since_boundary: usize,
    /// The strict mask, used while the chunk is shorter than `avg_size`.
    pub mask_s: u64,
    /// The loose mask, used from `avg_size` bytes on.
    pub mask_l: u64,
    /// The effective pre-shifted gear table, 256 entries.
    pub table: Vec<u64>,
}

/// The normalization level actually used for an average size: the requested
/// level, lowered to the bit width of `avg` so that the lower mask index
/// cannot underflow.
pub open spec fn level_clamped(avg_size: usize, level: u8) -> u32 {
    let bits = u64_trailing_zeros(avg_size as u64);
    if level as u32 <= bits {
        level as u32
    } else {
        bits
    }
}

/// The strict mask a kernel derives from `avg_size` and the level.
pub open spec fn mask_s_for(avg_size: usize, level: u8) -> u64 {
    mask_at_spec((u64_trailing_zeros(avg_size as u64) + level_clamped(avg_size, level)) as nat)
}

/// The loose mask a kernel derives from `avg_size` and the level.
pub open spec fn mask_l_for(avg_size: usize, level: u8) -> u64 {
    mask_at_spec((u64_trailing_zeros(avg_size as u64) - level_clamped(avg_size, level)) as nat)
}

impl FastCdc {
    /// The model parameters of this kernel.
    pub open spec fn params(&self) -> CdcParams {
        CdcParams {
            min: self.min_size as nat,
            avg: self.avg_size as nat,
            max: self.max_size as nat,
            mask_s: self.mask_s,
            mask_l: self.mask_l,
            table: self.table@,
        }
    }

    /// The model state of this kernel.
    pub open spec fn state(&self) -> CdcState {
        CdcState { hash: self.hash, count: self.bytes_since_boundary as nat }
    }

    /// Well-formedness: valid parameters and a byte counter strictly below
    /// the maximum chunk size.
    pub open spec fn wf(&self) -> bool {
        &&& self.params().wf()
        &&& (self.bytes_since_boundary as int) < self.max_size as int
    }

    /// Creates a kernel with a chosen normalization level and gear table.
    ///
    /// The masks are `mask_at(bits + level)` (strict) and
    /// `mask_at(bits - level)` (loose) for `bits = log2(avg_size)`, with the
    /// level clamped to `bits`.
    pub fn with_level(
        min_size: usize,
        avg_size: usize,
        max_size: usize,
        level: u8,
        table: Vec<u64>,
    ) -> (r: FastCdc)
        requires
            1 <= min_size,
            min_size <= max_size,
            table@.len() == 256,
        ensures
            r.wf(),
            r.min_size == min_size,
            r.avg_size == avg_size,
            r.max_size == max_size,
            r.mask_s == mask_s_for(avg_size, level),
            r.mask_l == mask_l_for(avg_size, level),
            r.table@ == table@,
            r.state() == fresh_state(),
    {
        let avg_bits: u32 = (avg_size as u64).trailing_zeros();
        proof {
            vstd::std_specs::bits::axiom_u64_trailing_zeros(avg_size as u64);
        }
        let lvl: u32 = if (level as u32) <= avg_bits {
            level as u32
        } else {
            avg_bits
        };
        let mask_s = mask_at((avg_bits + lvl) as usize);
        let mask_l = mask_at((avg_bits - lvl) as usize);
        FastCdc {
            hash: 0,
            min_size,
            avg_size,
            max_size,
            bytes_since_boundary: 0,
            mask_s,
            mask_l,
            table,
        }
    }

    /// Creates a kernel with the standard gear table and normalization
    /// level 1, the kernel's default when no level is chosen.
    pub fn new(min_size: usize, avg_size: usize, max_size: usize) -> (r: FastCdc)
        requires
            1 <= min_size,
            min_size <= max_size,
        ensures
            r.wf(),
            r.min_size == min_size,
            r.avg_size == avg_size,
            r.max_size == max_size,
            r.mask_s == mask_s_for(avg_size, 1),
            r.mask_l == mask_l_for(avg_size, 1),
            r.table@ == gear_shifted_seq(),
            r.state() == fresh_state(),
    {
        FastCdc::with_level(min_size, avg_size, max_size, 1, gear_table_shifted())
    }

    /// Resets the rolling state for a new stream; masks and table stay.
    pub fn reset(&mut self)
        ensures
            final (self).state() == fresh_state(),
            final (self).params() == old(self).params(),
            old(self).wf() ==> final (self).wf(),
            *final (self) == (FastCdc { hash: 0, bytes_since_boundary: 0, ..*old(self) }),
    {
        self.hash = 0;
        self.bytes_since_boundary = 0;
    }

    /// Processes one byte and reports whether a boundary falls right after
    /// it; exactly the [`cdc_step`] transition.
    pub fn update(&mut self, byte: u8) -> (cut: bool)
        requires
            old(self).wf(),
        ensures
            final (self).wf(),
            final (self).params() == old(self).params(),
            final (self).state() == cdc_step(old(self).params(), old(self).state(), byte).0,
            cut == cdc_step(old(self).params(), old(self).state(), byte).1,
    {
        self.bytes_since_boundary = self.bytes_since_boundary + 1;

        let gear = self.table[byte as usize];
        self.hash = self.hash.wrapping_add(gear);

        if self.bytes_since_boundary < self.min_size {
            return false;
        }

        if self.bytes_since_boundary >= self.max_size {
            self.bytes_since_boundary = 0;
            self.hash = 0;
            return true;
        }

        let mask = if self.bytes_since_boundary < self.avg_size {
            self.mask_s
        } else {
            self.mask_l
        };

        if self.hash & mask == 0 {
            self.bytes_since_boundary = 0;
            self.hash = 0;
            true
        } else {
            false
        }
    }

    /// Scans a buffer byte by byte and returns the position just after the
    /// first boundary, or `None` when the whole buffer passes without one.
    pub fn find_boundary(&mut self, data: &[u8]) -> (r: Option<usize>)
        requires
            old(self).wf(),
        ensures
            final (self).wf(),
            final (self).params() == old(self).params(),
            r is Some <==> first_cut_from(old(self).params(), old(self).state(), data@) is Some,
            r matches Some(k) ==> Some(k as int) == first_cut_from(
                old(self).params(),
                old(self).state(),
                data@,
            ) && 1 <= k <= data@.len() && final (self).state() == fresh_state(),
            r is None ==> final (self).state() == run_from(
                old(self).params(),
                old(self).state(),
                data@,
            ),
    {
        let ghost p = old(self).params();
        let ghost st0 = old(self).state();
        proof {
            assert(data@.skip(0) =~= data@);
        }
        let n = data.len();
        let mut i: usize = 0;
        while i < n
            invariant
                i <= n,
                n == data@.len(),
                p == old(self).params(),
                st0 == old(self).state(),
                self.cdc_wf_params(p),
                ({
                    let rest = first_cut_from(p, self.state(), data@.skip(i as int));
                    &&& (rest is None ==> first_cut_from(p, st0, data@) is None)
                    &&& (rest matches Some(j) ==> first_cut_from(p, st0, data@) == Some(j + i))
                }),
                run_from(p, self.state(), data@.skip(i as int)) == run_from(p, st0, data@),
            decreases n - i,
        {
            let ghost st_pre = self.state();
            let byte = data[i];
            let cut = self.update(byte);
            proof {
                let rest = data@.skip(i as int);
                assert(rest[0] == byte);
                assert(rest.drop_first() =~= data@.skip(i as int + 1));
            }
            if cut {
                return Some(i + 1);
            }
            i += 1;
        }
        proof {
            assert(data@.skip(n as int) =~= Seq::<u8>::empty());
        }
        None
    }

    /// Well-formedness together with fixed parameters, as one predicate for
    /// loop invariants.
    pub open spec fn cdc_wf_params(&self, p: CdcParams) -> bool {
        &&& self.wf()
        &&& self.params() == p
    }

    /// Returns the number of bytes since the last boundary.
    pub fn bytes_since_boundary(&self) -> (r: usize)
        ensures
            r == self.bytes_since_boundary,
    {
        self.bytes_since_boundary
    }

    /// Returns the current rolling hash value.
    pub fn hash(&self) -> (r: u64)
        ensures
            r == self.hash,
    {
        self.hash
    }

    /// Returns the minimum chunk size.
    pub fn min_size(&self) -> (r: usize)
        ensures
            r == self.min_size,
    {
        self.min_size
    }

    /// Returns the average/target chunk size.
    pub fn avg_size(&self) -> (r: usize)
        ensures
            r == self.avg_size,
    {
        self.avg_size
    }

    /// Returns the maximum chunk size.
    pub fn max_size(&self) -> (r: usize)
        ensures
            r == self.max_size,
    {
        self.max_size
    }
}

impl Default for FastCdc {
    /// A kernel with the default size bounds.
    fn default() -> (r: Self)
        ensures
            r.wf(),
            r.min_size == crate::config::DEFAULT_MIN_CHUNK_SIZE,
            r.avg_size == crate::config::DEFAULT_AVG_CHUNK_SIZE,
            r.max_size == crate::config::DEFAULT_MAX_CHUNK_SIZE,
            r.state() == fresh_state(),
    {
        FastCdc::new(
            crate::config::DEFAULT_MIN_CHUNK_SIZE,
            crate::config::DEFAULT_AVG_CHUNK_SIZE,
            crate::config::DEFAULT_MAX_CHUNK_SIZE,
        )
    }
}

} // verus!
