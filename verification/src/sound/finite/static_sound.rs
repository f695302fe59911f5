use vstd::prelude::*;

use std::sync::Arc;
use std::time::Duration;

use crate::sound::time::{duration_of_frames, frames_duration};

verus! {

/// Calls `Arc::clone`, which returns another handle to the same value.
#[verifier::external_body]
fn share_frames<F>(frames: &Arc<Vec<F>>) -> (shared: Arc<Vec<F>>)
    ensures
        shared == *frames,
{
    Arc::clone(frames)
}

/// A piece of audio loaded into memory all at once, with settings of
/// type `S` for playing it.
///
/// These can be cheaply cloned, as the audio data is shared
/// among all clones.
#[derive(Clone)]
pub struct StaticSoundData<F, S> {
    /// The sample rate of the audio (in Hz).
    pub sample_rate: u32,
    /// The raw frames that make up the audio.
    pub frames: Arc<Vec<F>>,
    /// Settings for the sound.
    pub settings: S,
}

impl<F, S: Copy> StaticSoundData<F, S> {
    /// Returns the duration of the audio, rounded to the nearest nanosecond.
    #[must_use]
    pub fn duration(&self) -> (duration: Duration)
        requires
            self.sample_rate > 0,
        ensures
            duration == frames_duration(self.frames@.len(), self.sample_rate as nat),
    {
        duration_of_frames(self.frames.len(), self.sample_rate)
    }

    /// Returns a clone of the data (sharing its frames) with the specified
    /// settings.
    #[must_use]
    pub fn with_settings(&self, settings: S) -> (data: Self)
        ensures
            data.sample_rate == self.sample_rate,
            data.frames == self.frames,
            data.settings == settings,
    {
        Self { sample_rate: self.sample_rate, frames: share_frames(&self.frames), settings }
    }

    /// Returns a clone of the data (sharing its frames) with the settings
    /// that `f` makes of its current settings.
    #[must_use]
    pub fn with_modified_settings<G: FnOnce(S) -> S>(&self, f: G) -> (data: Self)
        requires
            f.requires((self.settings,)),
        ensures
            data.sample_rate == self.sample_rate,
            data.frames == self.frames,
            f.ensures((self.settings,), data.settings),
    {
        self.with_settings(f(self.settings))
    }
}

/// A source of frames that a finite sound plays. Reading from it leaves
/// the frames it holds as they were.
pub trait FiniteSoundData<F> {
    /// The number of frames the source holds.
    spec fn spec_len(&self) -> nat;

    /// The frame at `index`.
    spec fn spec_frame(&self, index: int) -> F;

    /// The number of frames a player of this source keeps for
    /// interpolation.
    spec fn spec_buffer_len(&self) -> nat;

    /// Returns the sample rate of the audio (in Hz).
    fn sample_rate(&mut self) -> (sample_rate: u32)
        ensures
            final(self).spec_len() == old(self).spec_len(),
            forall|i: int| #[trigger] final(self).spec_frame(i) == old(self).spec_frame(i),
    ;

    /// Returns the number of frames.
    fn len(&mut self) -> (len: usize)
        ensures
            len == old(self).spec_len(),
            final(self).spec_len() == old(self).spec_len(),
            forall|i: int| #[trigger] final(self).spec_frame(i) == old(self).spec_frame(i),
    ;

    /// Returns the frame at `index`.
    fn frame(&mut self, index: usize) -> (frame: F)
        requires
            index < old(self).spec_len(),
        ensures
            frame == old(self).spec_frame(index as int),
            final(self).spec_len() == old(self).spec_len(),
            forall|i: int| #[trigger] final(self).spec_frame(i) == old(self).spec_frame(i),
    ;

    /// Returns the number of frames a player of this source keeps for
    /// interpolation.
    fn buffer_len(&mut self) -> (len: usize)
        ensures
            len == old(self).spec_buffer_len(),
            final(self).spec_len() == old(self).spec_len(),
            forall|i: int| #[trigger] final(self).spec_frame(i) == old(self).spec_frame(i),
    ;
}

impl<F: Copy, S> FiniteSoundData<F> for StaticSoundData<F, S> {
    open spec fn spec_len(&self) -> nat {
        self.frames@.len()
    }

    open spec fn spec_frame(&self, index: int) -> F {
        self.frames@[index]
    }

    open spec fn spec_buffer_len(&self) -> nat {
        4
    }

    fn sample_rate(&mut self) -> (sample_rate: u32)
        ensures
            sample_rate == old(self).sample_rate,
            *final(self) == *old(self),
    {
        self.sample_rate
    }

    fn len(&mut self) -> (len: usize)
        ensures
            *final(self) == *old(self),
    {
        self.frames.len()
    }

    fn frame(&mut self, index: usize) -> (frame: F)
        ensures
            frame == old(self).frames@[index as int],
            *final(self) == *old(self),
    {
        self.frames[index]
    }

    fn buffer_len(&mut self) -> (len: usize)
        ensures
            *final(self) == *old(self),
    {
        4
    }
}

} // verus!
