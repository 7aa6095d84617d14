//! Per-bin band masking of a half-spectrum. The low band keeps every
//! bin at or below the high cutoff bin, the high band keeps every bin
//! at or above the low cutoff bin, so the bins between the two cutoffs
//! stay, unchanged, in both outputs. A masked-out bin is replaced by
//! the caller's zero element.

use vstd::prelude::*;

verus! {

/// The low-band spectrum: every bin above `high_bin` replaced by `zero`.
pub open spec fn low_masked<T>(s: Seq<T>, high_bin: int, zero: T) -> Seq<T> {
    Seq::new(s.len(), |i: int| if i <= high_bin { s[i] } else { zero })
}

/// The high-band spectrum: every bin below `low_bin` replaced by `zero`.
pub open spec fn high_masked<T>(s: Seq<T>, low_bin: int, zero: T) -> Seq<T> {
    Seq::new(s.len(), |i: int| if i >= low_bin { s[i] } else { zero })
}

/// Splits one spectrum into independent low-band and high-band copies
/// by hard bin masking.
pub fn mask_spectra<T: Copy>(spectrum: &Vec<T>, low_bin: u64, high_bin: u64, zero: T) -> (r: (
    Vec<T>,
    Vec<T>,
))
    ensures
        r.0@ == low_masked(spectrum@, high_bin as int, zero),
        r.1@ == high_masked(spectrum@, low_bin as int, zero),
{
    let n = spectrum.len();
    let mut low: Vec<T> = Vec::new();
    let mut high: Vec<T> = Vec::new();
    let mut i: usize = 0;
    while i < n
        invariant
            i <= n,
            n == spectrum@.len(),
            low@.len() == i,
            high@.len() == i,
            forall|j: int|
                0 <= j < i ==> low@[j] == (if j <= high_bin as int {
                    spectrum@[j]
                } else {
                    zero
                }),
            forall|j: int|
                0 <= j < i ==> high@[j] == (if j >= low_bin as int {
                    spectrum@[j]
                } else {
                    zero
                }),
        decreases n - i,
    {
        let v = spectrum[i];
        if (i as u64) <= high_bin {
            low.push(v);
        } else {
            low.push(zero);
        }
        if (i as u64) >= low_bin {
            high.push(v);
        } else {
            high.push(zero);
        }
        i = i + 1;
    }
    proof {
        assert(low@ =~= low_masked(spectrum@, high_bin as int, zero));
        assert(high@ =~= high_masked(spectrum@, low_bin as int, zero));
    }
    (low, high)
}

/// Length invariant of the masking stage: both masked spectra have
/// exactly the length of the spectrum they were derived from.
pub proof fn lemma_mask_preserves_length<T>(s: Seq<T>, low_bin: int, high_bin: int, zero: T)
    ensures
        low_masked(s, high_bin, zero).len() == s.len(),
        high_masked(s, low_bin, zero).len() == s.len(),
{
}

/// Pass-band duplication: a bin between the two cutoff bins is kept,
/// unchanged, in both the low-band and the high-band spectrum.
pub proof fn lemma_pass_band_duplication<T>(s: Seq<T>, low_bin: int, high_bin: int, zero: T, i: int)
    requires
        0 <= i < s.len(),
        low_bin <= i <= high_bin,
    ensures
        low_masked(s, high_bin, zero)[i] == s[i],
        high_masked(s, low_bin, zero)[i] == s[i],
{
}

/// Stop-band rejection: below the low cutoff bin the high band holds
/// only the zero element; above the high cutoff bin the low band does.
pub proof fn lemma_stop_band_rejection<T>(s: Seq<T>, low_bin: int, high_bin: int, zero: T, i: int)
    requires
        0 <= i < s.len(),
    ensures
        i < low_bin ==> high_masked(s, low_bin, zero)[i] == zero,
        i > high_bin ==> low_masked(s, high_bin, zero)[i] == zero,
{
}

/// A spectrum whose whole energy lies inside the pass band comes
/// through both masks unchanged.
pub proof fn lemma_pass_band_only_identity<T>(s: Seq<T>, low_bin: int, high_bin: int, zero: T)
    requires
        forall|i: int| 0 <= i < s.len() && (i < low_bin || i > high_bin) ==> s[i] == zero,
    ensures
        low_masked(s, high_bin, zero) == s,
        high_masked(s, low_bin, zero) == s,
{
    assert(low_masked(s, high_bin, zero) =~= s);
    assert(high_masked(s, low_bin, zero) =~= s);
}

/// Silence preservation at the masking stage: an all-zero spectrum
/// yields all-zero low-band and high-band spectra.
pub proof fn lemma_silence_masking<T>(s: Seq<T>, low_bin: int, high_bin: int, zero: T)
    requires
        forall|i: int| 0 <= i < s.len() ==> s[i] == zero,
    ensures
        low_masked(s, high_bin, zero) == s,
        high_masked(s, low_bin, zero) == s,
{
    lemma_pass_band_only_identity(s, low_bin, high_bin, zero);
}

} // verus!
