use vstd::prelude::*;

verus! {

/// A point in time in a piece of audio, counted in samples
/// (individual audio frames).
#[derive(Debug, Clone, Copy, PartialEq, Eq, Structural)]
pub enum PlaybackPosition {
    /// The time in samples.
    Samples(i64),
}

impl PlaybackPosition {
    /// The position as a number of samples.
    pub open spec fn samples(self) -> i64 {
        match self {
            PlaybackPosition::Samples(samples) => samples,
        }
    }

    /// Converts the position to a sample index at the given sample rate.
    pub fn into_samples(self, sample_rate: u32) -> (samples: i64)
        ensures
            samples == self.samples(),
    {
        match self {
            PlaybackPosition::Samples(samples) => samples,
        }
    }
}

} // verus!
