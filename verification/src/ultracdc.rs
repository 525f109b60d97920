//! The UltraCDC boundary-detection algorithm.
//!
//! UltraCDC slides an 8-byte window over the input and cuts where the
//! window's accumulated Hamming distance to the pattern `0xAA` matches a
//! mask, with a forced cut after a long run of identical windows (low
//! entropy). It is an alternative cut-point finder, independent of the
//! streaming FastCDC engine.

use vstd::prelude::*;

verus! {

/// Hamming distance of each byte value to `0xAA`.
pub const HAMMING_DISTANCE_TO_0XAA: [u8; 256] = [
    4, 5, 3, 4, 5, 6, 4, 5, 3, 4, 2, 3, 4, 5, 3, 4, 5, 6, 4, 5, 6, 7, 5, 6, 4, 5, 3, 4, 5, 6, 4, 5,
    3, 4, 2, 3, 4, 5, 3, 4, 2, 3, 1, 2, 3, 4, 2, 3, 4, 5, 3, 4, 5, 6, 4, 5, 3, 4, 2, 3, 4, 5, 3, 4,
    5, 6, 4, 5, 6, 7, 5, 6, 4, 5, 3, 4, 5, 6, 4, 5, 6, 7, 5, 6, 7, 8, 6, 7, 5, 6, 4, 5, 6, 7, 5, 6,
    4, 5, 3, 4, 5, 6, 4, 5, 3, 4, 2, 3, 4, 5, 3, 4, 5, 6, 4, 5, 6, 7, 5, 6, 4, 5, 3, 4, 5, 6, 4, 5,
    3, 4, 2, 3, 4, 5, 3, 4, 2, 3, 1, 2, 3, 4, 2, 3, 4, 5, 3, 4, 5, 6, 4, 5, 3, 4, 2, 3, 4, 5, 3, 4,
    2, 3, 1, 2, 3, 4, 2, 3, 1, 2, 0, 1, 2, 3, 1, 2, 3, 4, 2, 3, 4, 5, 3, 4, 2, 3, 1, 2, 3, 4, 2, 3,
    1, 2, 0, 1, 2, 3, 1, 2, 3, 4, 2, 3, 4, 5, 3, 4, 2, 3, 1, 2, 3, 4, 2, 3, 4, 5, 3, 4, 5, 6, 4, 5,
    3, 4, 2, 3, 4, 5, 3, 4, 5, 6, 4, 5, 6, 7, 5, 6, 4, 5, 3, 4, 5, 6, 4, 5, 3, 4, 2, 3, 4, 5, 3, 4,
];

/// Strict mask, used before the target size.
pub const MASK_S: u64 = 0x2F;

/// Loose mask, used from the target size on.
pub const MASK_L: u64 = 0x2C;

/// Number of consecutive identical windows that force a low-entropy cut.
pub const LOW_ENTROPY_THRESHOLD: usize = 64;

/// The constraints UltraCDC options must satisfy: all sizes within
/// `[64, 1 GiB]` and `min < normal < max`.
pub open spec fn options_valid(min_size: usize, normal_size: usize, max_size: usize) -> bool {
    &&& 64 <= normal_size <= 1073741824
    &&& 64 <= min_size <= 1073741824
    &&& min_size < normal_size
    &&& 64 <= max_size <= 1073741824
    &&& max_size > normal_size
}

/// The Hamming distance the sliding window gains when one byte enters and
/// one leaves.
pub open spec fn dist_delta(data: Seq<u8>, enter: int, leave: int) -> int {
    HAMMING_DISTANCE_TO_0XAA[data[enter] as int] - HAMMING_DISTANCE_TO_0XAA[data[leave] as int]
}

/// One 8-byte stride of the scan, byte by byte from position `i + j`: the
/// cut point where the masked distance reaches zero, if it does within the
/// stride, together with the distance after the stride.
pub open spec fn ucdc_stride(data: Seq<u8>, i: int, j: int, dist: int, mask: u64) -> (
    Option<int>,
    int,
)
    decreases 8 - j,
{
    if j >= 8 {
        (None, dist)
    } else if (dist as u64) & mask == 0 {
        (Some(i + j), dist)
    } else {
        ucdc_stride(data, i, j + 1, dist + dist_delta(data, i + j, i + j - 8), mask)
    }
}

/// The scan over `data[..n2]` in strides of 8, from stride start `i`: a
/// stride whose window repeats the initial window counts toward the
/// low-entropy cut; any other stride looks for a masked-distance cut. When
/// no cut is found, the scan ends at `n2`.
pub open spec fn ucdc_scan(
    data: Seq<u8>,
    n2: int,
    normal2: int,
    min_size: int,
    i: int,
    dist: int,
    lec: int,
) -> int
    decreases n2 - i,
{
    if i + 8 > n2 {
        n2
    } else if data.subrange(i, i + 8) == data.subrange(min_size, min_size + 8) {
        if lec + 1 >= LOW_ENTROPY_THRESHOLD {
            i + 8
        } else {
            ucdc_scan(data, n2, normal2, min_size, i + 8, dist, lec + 1)
        }
    } else {
        let mask = if i >= normal2 {
            MASK_L
        } else {
            MASK_S
        };
        let step = ucdc_stride(data, i, 0, dist, mask);
        match step.0 {
            Some(c) => c,
            None => ucdc_scan(data, n2, normal2, min_size, i + 8, step.1, 0),
        }
    }
}

/// The Hamming distance of the initial window `data[min_size..min_size+8]`
/// to the all-`0xAA` pattern.
pub open spec fn init_dist(data: Seq<u8>, min_size: int) -> int {
    HAMMING_DISTANCE_TO_0XAA[data[min_size] as int] + HAMMING_DISTANCE_TO_0XAA[data[min_size
        + 1] as int] + HAMMING_DISTANCE_TO_0XAA[data[min_size + 2] as int]
        + HAMMING_DISTANCE_TO_0XAA[data[min_size + 3] as int] + HAMMING_DISTANCE_TO_0XAA[data[min_size
        + 4] as int] + HAMMING_DISTANCE_TO_0XAA[data[min_size + 5] as int]
        + HAMMING_DISTANCE_TO_0XAA[data[min_size + 6] as int] + HAMMING_DISTANCE_TO_0XAA[data[min_size
        + 7] as int]
}

/// The cut point the finder returns for `data[..n]` under the given sizes.
pub open spec fn find_cut_spec(
    min_size: int,
    normal_size: int,
    max_size: int,
    data: Seq<u8>,
    n: int,
) -> int {
    if n <= min_size {
        n
    } else {
        let n2 = if n < max_size {
            n
        } else {
            max_size
        };
        if n2 < min_size + 8 {
            n2
        } else {
            let normal2 = if n2 <= normal_size {
                n2
            } else {
                normal_size
            };
            ucdc_scan(data, n2, normal2, min_size, min_size + 8, init_dist(data, min_size), 0)
        }
    }
}

/// The successive cut positions of a whole buffer: each is found by the cut
/// finder on the remainder after the previous one, limited to `max_size`
/// bytes at a time, until the buffer is exhausted.
pub open spec fn stream_cuts(
    min_size: int,
    normal_size: int,
    max_size: int,
    data: Seq<u8>,
    offset: int,
) -> Seq<int>
    decreases data.len() - offset,
{
    if offset < 0 || offset >= data.len() {
        Seq::empty()
    } else {
        let rem = data.skip(offset);
        let n = if rem.len() < max_size {
            rem.len() as int
        } else {
            max_size
        };
        let cut = find_cut_spec(min_size, normal_size, max_size, rem, n);
        if cut < 1 || cut > rem.len() {
            Seq::empty()
        } else {
            seq![offset + cut] + stream_cuts(min_size, normal_size, max_size, data, offset + cut)
        }
    }
}

/// UltraCDC size options.
#[derive(Debug, Clone, Copy)]
pub struct Options {
    /// Minimum chunk size; no cut point before it.
    pub min_size: usize,
    /// Target chunk size; where the mask loosens.
    pub normal_size: usize,
    /// Maximum chunk size; cut points never exceed it.
    pub max_size: usize,
}

/// The ways UltraCDC options can be rejected.
#[derive(Debug)]
pub enum UltraCdcError {
    /// `normal_size` is outside `[64, 1 GiB]`.
    InvalidNormalSize,
    /// `min_size` is outside `[64, 1 GiB]` or not below `normal_size`.
    InvalidMinSize,
    /// `max_size` is outside `[64, 1 GiB]` or not above `normal_size`.
    InvalidMaxSize,
}

impl Options {
    /// Creates validated options.
    pub fn new(min_size: usize, normal_size: usize, max_size: usize) -> (r: Result<
        Options,
        UltraCdcError,
    >)
        ensures
            r is Ok <==> options_valid(min_size, normal_size, max_size),
            r matches Ok(o) ==> o == (Options { min_size, normal_size, max_size }),
    {
        let opts = Options { min_size, normal_size, max_size };
        match opts.validate() {
            Ok(_) => Ok(opts),
            Err(e) => Err(e),
        }
    }

    /// Checks the options, reporting the first field that is out of range.
    pub fn validate(&self) -> (r: Result<(), UltraCdcError>)
        ensures
            r is Ok <==> options_valid(self.min_size, self.normal_size, self.max_size),
            r matches Err(e) ==> match e {
                UltraCdcError::InvalidNormalSize => !(64 <= self.normal_size <= 1073741824),
                UltraCdcError::InvalidMinSize => 64 <= self.normal_size <= 1073741824 && !(64
                    <= self.min_size <= 1073741824 && self.min_size < self.normal_size),
                UltraCdcError::InvalidMaxSize => !(64 <= self.max_size <= 1073741824
                    && self.max_size > self.normal_size),
            },
    {
        if self.normal_size < 64 || self.normal_size > 1073741824 {
            return Err(UltraCdcError::InvalidNormalSize);
        }
        if self.min_size < 64 || self.min_size > 1073741824 || self.min_size >= self.normal_size {
            return Err(UltraCdcError::InvalidMinSize);
        }
        if self.max_size < 64 || self.max_size > 1073741824 || self.max_size <= self.normal_size {
            return Err(UltraCdcError::InvalidMaxSize);
        }
        Ok(())
    }
}

impl Default for Options {
    /// 2 KiB minimum, 10 KiB target, 64 KiB maximum.
    fn default() -> (r: Self)
        ensures
            r == (Options { min_size: 2048, normal_size: 10240, max_size: 65536 }),
    {
        Options { min_size: 2048, normal_size: 10240, max_size: 65536 }
    }
}

/// The UltraCDC cut-point finder.
#[derive(Debug)]
pub struct UltraCDC {
    /// The validated size options.
    pub options: Options,
}

/// Whether the two 8-byte windows of `data` at `x` and `y` hold the same
/// bytes.
fn windows_equal(data: &[u8], x: usize, y: usize) -> (r: bool)
    requires
        x + 8 <= data@.len(),
        y + 8 <= data@.len(),
    ensures
        r == (data@.subrange(x as int, x as int + 8) == data@.subrange(y as int, y as int + 8)),
{
    let r = data[x] == data[y] && data[x + 1] == data[y + 1] && data[x + 2] == data[y + 2]
        && data[x + 3] == data[y + 3] && data[x + 4] == data[y + 4] && data[x + 5] == data[y + 5]
        && data[x + 6] == data[y + 6] && data[x + 7] == data[y + 7];
    proof {
        let sx = data@.subrange(x as int, x as int + 8);
        let sy = data@.subrange(y as int, y as int + 8);
        if r {
            assert(sx =~= sy);
        } else if sx == sy {
            assert(sx[0] == sy[0] && sx[1] == sy[1] && sx[2] == sy[2] && sx[3] == sy[3] && sx[4]
                == sy[4] && sx[5] == sy[5] && sx[6] == sy[6] && sx[7] == sy[7]);
            assert(false);
        }
    }
    r
}

impl UltraCDC {
    /// The invariant: the options are valid.
    pub open spec fn wf(&self) -> bool {
        options_valid(self.options.min_size, self.options.normal_size, self.options.max_size)
    }

    /// Creates a cut-point finder with the default options.
    pub fn new() -> (r: Self)
        ensures
            r.wf(),
            r.options == (Options { min_size: 2048, normal_size: 10240, max_size: 65536 }),
    {
        UltraCDC { options: Options::default() }
    }

    /// Creates a cut-point finder with the given options, rejecting invalid
    /// ones.
    pub fn with_options(options: Options) -> (r: Result<Self, UltraCdcError>)
        ensures
            r is Ok <==> options_valid(options.min_size, options.normal_size, options.max_size),
            r matches Ok(u) ==> u.options == options && u.wf(),
    {
        match options.validate() {
            Ok(_) => Ok(UltraCDC { options }),
            Err(e) => Err(e),
        }
    }

    /// Finds a cut point in `data[..n]`.
    ///
    /// Returns `n` itself when no content-defined cut is found within the
    /// first `min(n, max_size)` bytes; otherwise the cut lies strictly
    /// beyond `min_size` and never beyond `max_size`. Inputs no longer than
    /// `min_size` are taken whole.
    pub fn find_cut_point(&self, data: &[u8], n: usize) -> (r: usize)
        requires
            self.wf(),
            n <= data@.len(),
        ensures
            r == find_cut_spec(
                self.options.min_size as int,
                self.options.normal_size as int,
                self.options.max_size as int,
                data@,
                n as int,
            ),
            r <= n,
            n <= self.options.min_size ==> r == n,
            n > self.options.min_size ==> self.options.min_size < r <= self.options.max_size,
    {
        let min_size = self.options.min_size;
        let max_size = self.options.max_size;
        let ghost goal = find_cut_spec(
            self.options.min_size as int,
            self.options.normal_size as int,
            self.options.max_size as int,
            data@,
            n as int,
        );

        if n <= min_size {
            return n;
        }

        let n2: usize = if n < max_size {
            n
        } else {
            max_size
        };
        if n2 < min_size + 8 {
            return n2;
        }

        let normal2: usize = if n2 <= self.options.normal_size {
            n2
        } else {
            self.options.normal_size
        };

        let dist0: i64 = HAMMING_DISTANCE_TO_0XAA[data[min_size] as usize] as i64
            + HAMMING_DISTANCE_TO_0XAA[data[min_size + 1] as usize] as i64
            + HAMMING_DISTANCE_TO_0XAA[data[min_size + 2] as usize] as i64
            + HAMMING_DISTANCE_TO_0XAA[data[min_size + 3] as usize] as i64
            + HAMMING_DISTANCE_TO_0XAA[data[min_size + 4] as usize] as i64
            + HAMMING_DISTANCE_TO_0XAA[data[min_size + 5] as usize] as i64
            + HAMMING_DISTANCE_TO_0XAA[data[min_size + 6] as usize] as i64
            + HAMMING_DISTANCE_TO_0XAA[data[min_size + 7] as usize] as i64;
        let mut dist: i64 = dist0;

        let mut low_entropy_count: usize = 0;
        let mut i: usize = min_size + 8;

        proof {
            assert(dist as int == init_dist(data@, min_size as int));
        }

        while i + 8 <= n2
            invariant
                min_size == self.options.min_size,
                max_size == self.options.max_size,
                n <= data@.len(),
                n > min_size,
                min_size + 8 <= i,
                i <= n2,
                min_size + 8 <= n2 <= data@.len(),
                n2 <= n,
                n2 <= max_size,
                min_size < n2,
                max_size <= 1073741824,
                n2 as int == (if (n as int) < max_size as int {
                    n as int
                } else {
                    max_size as int
                }),
                normal2 as int == (if n2 as int <= self.options.normal_size as int {
                    n2 as int
                } else {
                    self.options.normal_size as int
                }),
                goal == find_cut_spec(
                    self.options.min_size as int,
                    self.options.normal_size as int,
                    self.options.max_size as int,
                    data@,
                    n as int,
                ),
                ucdc_scan(
                    data@,
                    n2 as int,
                    normal2 as int,
                    min_size as int,
                    i as int,
                    dist as int,
                    low_entropy_count as int,
                ) == goal,
                -255 * (i as int) <= dist <= 2040 + 255 * (i as int),
                low_entropy_count < LOW_ENTROPY_THRESHOLD,
            decreases n2 - i,
        {
            if windows_equal(data, i, min_size) {
                low_entropy_count += 1;
                if low_entropy_count >= LOW_ENTROPY_THRESHOLD {
                    return i + 8;
                }
                i += 8;
            } else {
                low_entropy_count = 0;
                let mask: u64 = if i >= normal2 {
                    MASK_L
                } else {
                    MASK_S
                };
                let ghost dist_entry = dist as int;
                proof {
                    assert(ucdc_scan(
                        data@,
                        n2 as int,
                        normal2 as int,
                        min_size as int,
                        i as int,
                        dist_entry,
                        0,
                    ) == goal);
                }
                let mut j: usize = 0;
                while j < 8
                    invariant
                        j <= 8,
                        min_size == self.options.min_size,
                        max_size == self.options.max_size,
                        n > min_size,
                        n2 <= n,
                        n2 <= max_size,
                        min_size + 8 <= i,
                        i + 8 <= n2 <= data@.len(),
                        mask == (if i as int >= normal2 as int {
                            MASK_L
                        } else {
                            MASK_S
                        }),
                        goal == find_cut_spec(
                            self.options.min_size as int,
                            self.options.normal_size as int,
                            self.options.max_size as int,
                            data@,
                            n as int,
                        ),
                        ({
                            let step = ucdc_stride(data@, i as int, 0, dist_entry, mask);
                            &&& (step.0 matches Some(c) ==> goal == c)
                            &&& (step.0 is None ==> goal == ucdc_scan(
                                data@,
                                n2 as int,
                                normal2 as int,
                                min_size as int,
                                i as int + 8,
                                step.1,
                                0,
                            ))
                        }),
                        ucdc_stride(data@, i as int, j as int, dist as int, mask) == ucdc_stride(
                            data@,
                            i as int,
                            0,
                            dist_entry,
                            mask,
                        ),
                        -255 * (i as int) - 255 * (j as int) <= dist <= 2040 + 255 * (i as int)
                            + 255 * (j as int),
                        n2 <= 1073741824,
                    decreases 8 - j,
                {
                    let masked = (#[verifier::truncate] (dist as u64)) & mask;
                    if masked == 0 {
                        proof {
                            assert((dist as u64) == ((dist as int) as u64));
                            assert(ucdc_stride(data@, i as int, j as int, dist as int, mask).0
                                == Some(i as int + j as int));
                        }
                        return i + j;
                    }
                    let out_b = data[i + j - 8];
                    let in_b = data[i + j];
                    dist = dist + HAMMING_DISTANCE_TO_0XAA[in_b as usize] as i64
                        - HAMMING_DISTANCE_TO_0XAA[out_b as usize] as i64;
                    j += 1;
                }
                i += 8;
            }
        }

        n2
    }

    /// Splits a whole buffer into consecutive cut points.
    ///
    /// The returned positions increase strictly, tile the buffer exactly
    /// (the last one is `data.len()`), and consecutive positions are never
    /// more than `max_size` apart; every piece but the last is longer than
    /// `min_size`.
    pub fn chunk_stream(&self, data: &[u8]) -> (r: Vec<usize>)
        requires
            self.wf(),
        ensures
            r@.map_values(|b: usize| b as int) == stream_cuts(
                self.options.min_size as int,
                self.options.normal_size as int,
                self.options.max_size as int,
                data@,
                0,
            ),
            data@.len() == 0 ==> r@.len() == 0,
            data@.len() > 0 ==> r@.len() > 0 && r@.last() == data@.len(),
            forall|i: int| 0 <= i < r@.len() ==> 0 < #[trigger] r@[i] <= data@.len(),
            forall|i: int| 0 < i < r@.len() ==> r@[i - 1] < #[trigger] r@[i],
            forall|i: int|
                0 <= i < r@.len() ==> #[trigger] r@[i] - (if i == 0 {
                    0
                } else {
                    r@[i - 1]
                }) <= self.options.max_size,
            forall|i: int|
                0 <= i < r@.len() - 1 ==> #[trigger] r@[i] - (if i == 0 {
                    0
                } else {
                    r@[i - 1]
                }) > self.options.min_size,
    {
        let mut boundaries: Vec<usize> = Vec::new();
        let mut offset: usize = 0;
        let len = data.len();

        while offset < len
            invariant
                self.wf(),
                offset <= len,
                len == data@.len(),
                offset == 0 ==> boundaries@.len() == 0,
                offset > 0 ==> boundaries@.len() > 0 && boundaries@.last() == offset,
                forall|i: int| 0 <= i < boundaries@.len() ==> 0 < #[trigger] boundaries@[i] <= offset,
                forall|i: int|
                    0 < i < boundaries@.len() ==> boundaries@[i - 1] < #[trigger] boundaries@[i],
                forall|i: int|
                    0 <= i < boundaries@.len() ==> #[trigger] boundaries@[i] - (if i == 0 {
                        0
                    } else {
                        boundaries@[i - 1]
                    }) <= self.options.max_size,
                forall|i: int|
                    0 <= i < boundaries@.len() ==> offset < len ==> #[trigger] boundaries@[i] - (
                    if i == 0 {
                        0
                    } else {
                        boundaries@[i - 1]
                    }) > self.options.min_size,
                forall|i: int|
                    0 <= i < boundaries@.len() - 1 ==> #[trigger] boundaries@[i] - (if i == 0 {
                        0
                    } else {
                        boundaries@[i - 1]
                    }) > self.options.min_size,
                stream_cuts(
                    self.options.min_size as int,
                    self.options.normal_size as int,
                    self.options.max_size as int,
                    data@,
                    0,
                ) == boundaries@.map_values(|b: usize| b as int) + stream_cuts(
                    self.options.min_size as int,
                    self.options.normal_size as int,
                    self.options.max_size as int,
                    data@,
                    offset as int,
                ),
            decreases len - offset,
        {
            let remaining = &data[offset..len];
            let rem_len = len - offset;
            let n: usize = if rem_len < self.options.max_size {
                rem_len
            } else {
                self.options.max_size
            };
            proof {
                assert(remaining@ =~= data@.skip(offset as int));
            }
            let cut = self.find_cut_point(remaining, n);
            proof {
                assert(cut >= 1);
                assert(cut < rem_len ==> cut > self.options.min_size);
            }
            offset = offset + cut;
            let ghost before = boundaries@;
            boundaries.push(offset);
            proof {
                assert(boundaries@.map_values(|b: usize| b as int) =~= before.map_values(
                    |b: usize| b as int,
                ) + seq![offset as int]);
            }
        }
        proof {
            assert(boundaries@.map_values(|b: usize| b as int) + Seq::<int>::empty()
                =~= boundaries@.map_values(|b: usize| b as int));
        }
        boundaries
    }
}

impl Default for UltraCDC {
    /// A cut-point finder with the default options.
    fn default() -> (r: Self)
        ensures
            r.wf(),
            r.options == (Options { min_size: 2048, normal_size: 10240, max_size: 65536 }),
    {
        UltraCDC::new()
    }
}

} // verus!
