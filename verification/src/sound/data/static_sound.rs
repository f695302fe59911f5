use vstd::prelude::*;

use super::SoundData;

pub use crate::sound::error::FromFileError;

verus! {

/// A piece of audio loaded into memory all at once.
#[derive(Clone)]
pub struct StaticSoundData<F> {
    /// The sample rate of the audio (in Hz).
    pub sample_rate: u32,
    /// The frames that make up the audio.
    pub frames: Vec<F>,
}

impl<F: Copy + Send> SoundData<F> for StaticSoundData<F> {
    open spec fn spec_len(&self) -> nat {
        self.frames@.len()
    }

    open spec fn spec_frame(&self, index: int) -> F {
        self.frames@[index]
    }

    fn sample_rate(&mut self) -> (sample_rate: u32)
        ensures
            sample_rate == old(self).sample_rate,
            *final(self) == *old(self),
    {
        self.sample_rate
    }

    fn len(&mut self) -> (len: usize)
        ensures
            *final(self) == *old(self),
    {
        self.frames.len()
    }

    fn frame(&mut self, index: usize) -> (frame: F)
        ensures
            frame == old(self).frames@[index as int],
            *final(self) == *old(self),
    {
        self.frames[index]
    }
}

} // verus!
