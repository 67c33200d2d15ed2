//! Fixed dimensions of the Whisper front end.
use vstd::prelude::*;

verus! {

/// Sampling rate that every input is brought to, in Hz.
pub const SAMPLE_RATE: u32 = 16000;

/// Number of samples in the 30 s analysis window at `SAMPLE_RATE`.
pub const N_SAMPLES: usize = 480000;

/// Length of one analysis frame, in samples.
pub const N_FFT: usize = 400;

/// Distance between the starts of consecutive frames, in samples.
pub const HOP_LENGTH: usize = 160;

/// Number of frames kept for the model.
pub const N_FRAMES: usize = 3000;

/// Number of mel bands.
pub const N_MELS: usize = 80;

/// Number of one-sided spectrum bins of a frame: `N_FFT / 2 + 1`.
pub const N_FREQ_BINS: usize = 201;

} // verus!
