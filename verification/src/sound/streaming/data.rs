use vstd::prelude::*;

use std::time::Duration;

use crate::sound::time::{duration_from_parts, duration_of_frames, frames_duration, frames_nanos};
use crate::sound::{EndPosition, Region};

use super::decoder::Decoder;

verus! {

/// A streaming sound that is not playing yet: a decoder and the portion
/// of its audio to play.
pub struct StreamingSoundData<D> {
    /// The decoder of the audio.
    pub decoder: D,
    /// The portion of the sound this data represents. The decoder keeps the
    /// whole audio; `num_frames` and `duration` behave as if only this
    /// portion existed.
    pub slice: Option<(usize, usize)>,
}

/// How long `num_frames` frames last at `sample_rate` frames per second,
/// rounded to the nearest nanosecond; zero at a sample rate of zero.
pub open spec fn streamed_duration(num_frames: usize, sample_rate: u32) -> Duration {
    if sample_rate > 0 {
        frames_duration(num_frames as nat, sample_rate as nat)
    } else {
        duration_from_parts(0, 0)
    }
}

/// Returns how long `num_frames` frames last at `sample_rate` frames per
/// second, rounded to the nearest nanosecond; zero at a sample rate of zero.
pub fn streamed_duration_of(num_frames: usize, sample_rate: u32) -> (duration: Duration)
    ensures
        duration == streamed_duration(num_frames, sample_rate),
{
    if sample_rate > 0 {
        duration_of_frames(num_frames, sample_rate)
    } else {
        let duration = duration_of_frames(0, 1);
        assert(frames_nanos(0, 1) == 0) by (nonlinear_arith);
        assert(frames_duration(0, 1) == duration_from_parts(0, 0));
        duration
    }
}

/// The number of frames played of audio with `num_frames` frames: those of
/// `slice` when there is one.
pub open spec fn frames_played(slice: Option<(usize, usize)>, num_frames: usize) -> usize {
    match slice {
        Some((start, end)) => (end - start) as usize,
        None => num_frames,
    }
}

/// Whether the positions of `region` are valid frame indices.
pub open spec fn region_in_range(region: Option<Region>) -> bool {
    match region {
        Some(region) => {
            &&& 0 <= region.start.samples() <= usize::MAX
            &&& region.end matches EndPosition::Custom(end) ==> 0 <= end.samples() <= usize::MAX
        },
        None => true,
    }
}

impl<D> StreamingSoundData<D> {
    /// Creates a [`StreamingSoundData`] for a [`Decoder`], covering its whole audio.
    #[must_use]
    pub fn from_decoder(decoder: D) -> (data: Self)
        ensures
            data.decoder == decoder,
            data.slice is None,
    {
        Self { decoder, slice: None }
    }

    /// Returns the number of frames: that of the slice when there is one,
    /// otherwise the number the decoder reports.
    #[must_use]
    pub fn num_frames<F>(&self) -> (n: usize) where D: Decoder<F>
        requires
            self.slice matches Some((start, end)) ==> start <= end,
        ensures
            self.slice matches Some((start, end)) ==> n == end - start,
            self.slice is None ==> n == self.decoder.spec_num_frames(),
    {
        if let Some((start, end)) = self.slice {
            end - start
        } else {
            self.decoder.num_frames()
        }
    }

    /// Returns the duration of the audio (of the slice, when there is one)
    /// at the sample rate the decoder reports, rounded to the nearest
    /// nanosecond. A decoder that reports a sample rate of zero gives a
    /// zero duration.
    #[must_use]
    pub fn duration<F>(&self) -> (duration: Duration) where D: Decoder<F>
        requires
            self.slice matches Some((start, end)) ==> start <= end,
        ensures
            duration == streamed_duration(
                frames_played(self.slice, self.decoder.spec_num_frames()),
                self.decoder.spec_sample_rate(),
            ),
    {
        let num_frames = self.num_frames();
        let sample_rate = self.decoder.sample_rate();
        streamed_duration_of(num_frames, sample_rate)
    }

    /// Sets the portion of the audio this data represents: `None` for the
    /// whole audio, or a region whose end may be the end of the audio (as
    /// the decoder reports it).
    #[must_use]
    pub fn slice<F>(self, region: Option<Region>) -> (data: Self) where D: Decoder<F>
        requires
            region_in_range(region),
        ensures
            data.decoder == self.decoder,
            region is None ==> data.slice is None,
            region matches Some(region) ==> data.slice matches Some((start, end)) && start
                == region.start.samples() && (region.end matches EndPosition::Custom(p) ==> end
                == p.samples()) && (region.end is EndOfAudio ==> end
                == self.decoder.spec_num_frames()),
    {
        let mut data = self;
        data.slice = match region {
            Some(region) => {
                let sample_rate = data.decoder.sample_rate();
                let start = region.start.into_samples(sample_rate) as usize;
                let end = match region.end {
                    EndPosition::EndOfAudio => data.decoder.num_frames(),
                    EndPosition::Custom(end) => end.into_samples(sample_rate) as usize,
                };
                Some((start, end))
            },
            None => None,
        };
        data
    }
}

} // verus!
