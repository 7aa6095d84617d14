use band_split::mask::mask_spectra;
use num_complex::Complex;

#[test]
fn masking_splits_bins_at_the_cutoffs() {
    let spectrum: Vec<i32> = vec![10, 11, 12, 13, 14, 15];
    let (low, high) = mask_spectra(&spectrum, 2, 3, 0);
    assert_eq!(low, vec![10, 11, 12, 13, 0, 0]);
    assert_eq!(high, vec![0, 0, 12, 13, 14, 15]);
}

#[test]
fn pass_band_bins_are_duplicated() {
    let spectrum: Vec<i32> = vec![1, 2, 3, 4, 5];
    let (low, high) = mask_spectra(&spectrum, 1, 3, 0);
    let mut i: usize = 1;
    while i <= 3 {
        assert_eq!(low[i], spectrum[i]);
        assert_eq!(high[i], spectrum[i]);
        i += 1;
    }
}

#[test]
fn masking_complex_spectra_zeroes_rejected_bins() {
    let spectrum: Vec<Complex<f32>> =
        (0..6).map(|i| Complex::new(i as f32 + 1.0, -1.0)).collect();
    let zero = Complex::new(0.0f32, 0.0f32);
    let (low, high) = mask_spectra(&spectrum, 2, 3, zero);
    assert_eq!(low.len(), 6);
    assert_eq!(high.len(), 6);
    let mut i: usize = 0;
    while i < 6 {
        if i <= 3 {
            assert_eq!(low[i], spectrum[i]);
        } else {
            assert_eq!(low[i], zero);
        }
        if i >= 2 {
            assert_eq!(high[i], spectrum[i]);
        } else {
            assert_eq!(high[i], zero);
        }
        i += 1;
    }
}

#[test]
fn pass_band_only_spectrum_is_unchanged() {
    // every bin lies inside [low_bin, high_bin]: both masks are the identity
    let spectrum: Vec<i32> = vec![7, 8, 9, 10];
    let (low, high) = mask_spectra(&spectrum, 0, 9, 0);
    assert_eq!(low, spectrum);
    assert_eq!(high, spectrum);
}

#[test]
fn all_zero_spectrum_stays_zero() {
    let spectrum: Vec<i32> = vec![0; 8];
    let (low, high) = mask_spectra(&spectrum, 3, 5, 0);
    assert_eq!(low, spectrum);
    assert_eq!(high, spectrum);
}

#[test]
fn cutoff_bins_past_the_spectrum_degrade_to_a_no_op() {
    // low_bin == 0 keeps every bin in the high band; a huge high_bin
    // keeps every bin in the low band
    let spectrum: Vec<i32> = vec![4, 5, 6];
    let (low, high) = mask_spectra(&spectrum, 0, 1000, 0);
    assert_eq!(low, spectrum);
    assert_eq!(high, spectrum);
}
