//! The audio processor: fixed output format parameters shared by the
//! decoding, separation and encoding stages.

use vstd::prelude::*;
use crate::plan::{SeparationPlan, spec_num_frames, WINDOW_SIZE};

verus! {

/// Carries the output format parameters (sample rate and channel count)
/// that the separation pipeline is built around.
pub struct AudioProcessor {
    pub sample_rate: u32,
    pub channels: u32,
}

impl AudioProcessor {
    /// A processor with the fixed default format: 44.1 kHz, stereo.
    pub fn new() -> (p: AudioProcessor)
        ensures
            p.sample_rate == 44100,
            p.channels == 2,
    {
        AudioProcessor { sample_rate: 44100, channels: 2 }
    }

    /// Lays out one separation run of this processor: the cutoff bins
    /// of the band masks and the overlap-add frame schedule for a
    /// signal of the given length, at this processor's sample rate.
    pub fn separation_plan(
        &self,
        signal_len: usize,
        low_cutoff_hz: u32,
        high_cutoff_hz: u32,
    ) -> (p: SeparationPlan)
        requires
            self.sample_rate > 0,
        ensures
            p.signal_len == signal_len,
            p.low_bin == (low_cutoff_hz as int) * (WINDOW_SIZE as int) / (self.sample_rate as int),
            p.high_bin == (high_cutoff_hz as int) * (WINDOW_SIZE as int) / (
            self.sample_rate as int),
            p.num_frames == spec_num_frames(signal_len as int),
            p.wf(),
    {
        SeparationPlan::new(signal_len, low_cutoff_hz, high_cutoff_hz, self.sample_rate)
    }
}

} // verus!
