pub mod static_sound;

use vstd::prelude::*;

pub use static_sound::StaticSoundData;

verus! {

/// A source of frames of audio with a fixed sample rate. Reading from it
/// leaves the frames it holds as they were.
#[allow(clippy::len_without_is_empty)]
pub trait SoundData<F>: Send {
    /// The number of frames the source holds.
    spec fn spec_len(&self) -> nat;

    /// The frame at `index`.
    spec fn spec_frame(&self, index: int) -> F;

    /// Returns the sample rate of the audio (in Hz).
    fn sample_rate(&mut self) -> (sample_rate: u32)
        ensures
            final(self).spec_len() == old(self).spec_len(),
            forall|i: int| #[trigger] final(self).spec_frame(i) == old(self).spec_frame(i),
    ;

    /// Returns the number of frames.
    fn len(&mut self) -> (len: usize)
        ensures
            len == old(self).spec_len(),
            final(self).spec_len() == old(self).spec_len(),
            forall|i: int| #[trigger] final(self).spec_frame(i) == old(self).spec_frame(i),
    ;

    /// Returns the frame at `index`.
    fn frame(&mut self, index: usize) -> (frame: F)
        requires
            index < old(self).spec_len(),
        ensures
            frame == old(self).spec_frame(index as int),
            final(self).spec_len() == old(self).spec_len(),
            forall|i: int| #[trigger] final(self).spec_frame(i) == old(self).spec_frame(i),
    ;
}

} // verus!
