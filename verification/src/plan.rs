//! Frame schedule and frequency-bin layout of the short-time spectral
//! separation: the window and hop sizes, the mapping from a cutoff
//! frequency to a spectrum bin, and the starting positions of the
//! overlapping analysis frames.

use vstd::prelude::*;
use vstd::arithmetic::div_mod::{
    lemma_div_is_ordered, lemma_fundamental_div_mod, lemma_fundamental_div_mod_converse_div,
    lemma_mod_bound,
};
use vstd::arithmetic::mul::lemma_mul_inequality;

verus! {

/// Length of one analysis window, in samples.
pub const WINDOW_SIZE: usize = 2048;

/// Step between consecutive frame starts: half a window, for 50% overlap.
pub const HOP: usize = 1024;

/// Length of the non-redundant half-spectrum of one windowed frame.
pub const SPECTRUM_LEN: usize = WINDOW_SIZE / 2 + 1;

/// Number of analysis frames that the frame loop visits for a signal of
/// the given length: one frame per hop boundary before the end of the
/// signal, the trailing frames zero-padded rather than dropped.
pub open spec fn spec_num_frames(len: int) -> int {
    (len + HOP - 1) / (HOP as int)
}

/// For a non-empty signal the frame count is one more than the index of
/// the last hop boundary strictly before the end of the signal.
proof fn lemma_num_frames_split(len: int)
    requires
        len > 0,
    ensures
        spec_num_frames(len) == (len - 1) / (HOP as int) + 1,
{
    let h = HOP as int;
    let a = len - 1;
    lemma_fundamental_div_mod(a, h);
    lemma_mod_bound(a, h);
    lemma_fundamental_div_mod_converse_div(a + h, h, a / h + 1, a % h);
}

/// The last frame of the schedule starts inside the signal: the loop
/// never steps past the last hop boundary needed to cover it.
pub proof fn lemma_last_frame_starts_inside(len: int)
    requires
        len > 0,
    ensures
        (spec_num_frames(len) - 1) * (HOP as int) <= len - 1,
{
    let h = HOP as int;
    let a = len - 1;
    lemma_num_frames_split(len);
    lemma_fundamental_div_mod(a, h);
    lemma_mod_bound(a, h);
    assert((spec_num_frames(len) - 1) * h == (a / h) * h);
}

/// Every sample index of the signal lies inside at least one analysis
/// frame: the one starting at the last hop boundary at or before it.
pub proof fn lemma_frames_cover_signal(len: int, j: int)
    requires
        0 <= j < len,
    ensures
        exists|k: int|
            0 <= k < spec_num_frames(len) && #[trigger] (k * (HOP as int)) <= j < k * (HOP as int)
                + (WINDOW_SIZE as int),
{
    let h = HOP as int;
    let k = j / h;
    lemma_fundamental_div_mod(j, h);
    lemma_mod_bound(j, h);
    lemma_div_is_ordered(j, len - 1, h);
    lemma_num_frames_split(len);
    assert(0 <= k < spec_num_frames(len) && k * h <= j < k * h + (WINDOW_SIZE as int));
}

/// How many frames the loop visits for a signal of the given length.
pub fn num_frames(len: usize) -> (n: usize)
    ensures
        n == spec_num_frames(len as int),
{
    if len == 0 {
        0
    } else {
        let q: usize = (len - 1) / HOP;
        proof {
            lemma_num_frames_split(len as int);
            lemma_div_is_ordered(0, (len - 1) as int, HOP as int);
            lemma_div_is_ordered((len - 1) as int, usize::MAX - 1, HOP as int);
        }
        q + 1
    }
}

/// The starting index of each analysis frame, in loop order: one start
/// per hop from zero, each strictly inside the signal.
pub fn frame_starts(len: usize) -> (v: Vec<usize>)
    ensures
        v@.len() == spec_num_frames(len as int),
        forall|k: int| 0 <= k < v@.len() ==> v@[k] == k * (HOP as int),
        forall|k: int| 0 <= k < v@.len() ==> v@[k] < len,
{
    let n = num_frames(len);
    proof {
        if len > 0 {
            lemma_last_frame_starts_inside(len as int);
        }
    }
    let mut v: Vec<usize> = Vec::new();
    let mut start: usize = 0;
    let mut k: usize = 0;
    while k < n
        invariant
            k <= n,
            n == spec_num_frames(len as int),
            v@.len() == k,
            k < n ==> start == k * (HOP as int),
            len > 0 ==> (n - 1) * (HOP as int) <= len - 1,
            forall|j: int| 0 <= j < k ==> v@[j] == j * (HOP as int),
            forall|j: int| 0 <= j < k ==> v@[j] < len,
        decreases n - k,
    {
        proof {
            lemma_mul_inequality(k as int, n as int - 1, HOP as int);
        }
        v.push(start);
        k = k + 1;
        if k < n {
            proof {
                lemma_mul_inequality(k as int, n as int - 1, HOP as int);
            }
            start = start + HOP;
        }
    }
    v
}

/// How many leading positions of the frame starting at `chunk_start`
/// fall inside the signal; the remaining positions of the window are
/// zero-padded.
pub fn frame_sample_count(chunk_start: usize, len: usize) -> (n: usize)
    requires
        chunk_start < len,
    ensures
        n == (if len - chunk_start < WINDOW_SIZE {
            len - chunk_start
        } else {
            WINDOW_SIZE as int
        }),
        0 < n <= WINDOW_SIZE,
        chunk_start + n <= len,
{
    let remaining = len - chunk_start;
    if remaining < WINDOW_SIZE {
        remaining
    } else {
        WINDOW_SIZE
    }
}

/// Maps a cutoff frequency in hertz to the index of the first spectrum
/// bin at or above it: the cutoff divided by the width of one bin,
/// rounded down.
pub fn cutoff_to_bin(cutoff_hz: u32, sample_rate: u32) -> (bin: u64)
    requires
        sample_rate > 0,
    ensures
        bin == (cutoff_hz as int) * (WINDOW_SIZE as int) / (sample_rate as int),
{
    proof {
        lemma_mul_inequality(cutoff_hz as int, u32::MAX as int, WINDOW_SIZE as int);
    }
    (cutoff_hz as u64) * (WINDOW_SIZE as u64) / (sample_rate as u64)
}

/// Everything the frame loop of one separation run decides in advance:
/// the length of the signal, the cutoff bins of the band masks, and how
/// many overlapping frames the loop visits.
pub struct SeparationPlan {
    pub signal_len: usize,
    pub low_bin: u64,
    pub high_bin: u64,
    pub num_frames: usize,
}

impl SeparationPlan {
    /// The frame count of a well-formed plan matches its signal length.
    pub open spec fn wf(self) -> bool {
        self.num_frames == spec_num_frames(self.signal_len as int)
    }

    /// Lays out one separation run: maps both cutoffs to bins and fixes
    /// the frame schedule for a signal of the given length.
    pub fn new(signal_len: usize, low_cutoff_hz: u32, high_cutoff_hz: u32, sample_rate: u32) -> (p:
        SeparationPlan)
        requires
            sample_rate > 0,
        ensures
            p.signal_len == signal_len,
            p.low_bin == (low_cutoff_hz as int) * (WINDOW_SIZE as int) / (sample_rate as int),
            p.high_bin == (high_cutoff_hz as int) * (WINDOW_SIZE as int) / (sample_rate as int),
            p.num_frames == spec_num_frames(signal_len as int),
            p.wf(),
    {
        SeparationPlan {
            signal_len,
            low_bin: cutoff_to_bin(low_cutoff_hz, sample_rate),
            high_bin: cutoff_to_bin(high_cutoff_hz, sample_rate),
            num_frames: num_frames(signal_len),
        }
    }
}

} // verus!
