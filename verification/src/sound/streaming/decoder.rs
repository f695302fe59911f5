use vstd::prelude::*;

verus! {

/// Decodes chunks of audio made of frames of type `F`. The sample rate and
/// the number of frames of the audio stay the same as the decoder decodes
/// and seeks.
pub trait Decoder<F>: Send {
    /// Errors that can occur when decoding audio.
    type Error;

    /// The sample rate of the audio (in Hz).
    spec fn spec_sample_rate(&self) -> u32;

    /// The total number of frames of audio.
    spec fn spec_num_frames(&self) -> usize;

    /// Returns the sample rate of the audio (in Hz).
    fn sample_rate(&self) -> (sample_rate: u32)
        ensures
            sample_rate == self.spec_sample_rate(),
    ;

    /// Returns the total number of frames of audio.
    fn num_frames(&self) -> (num_frames: usize)
        ensures
            num_frames == self.spec_num_frames(),
    ;

    /// Decodes the next chunk of audio. An empty chunk means that the audio
    /// has ended: a decoder whose format has packets without frames keeps
    /// decoding until it has frames or the audio ends.
    fn decode(&mut self) -> (chunk: Result<Vec<F>, Self::Error>)
        ensures
            final(self).spec_sample_rate() == old(self).spec_sample_rate(),
            final(self).spec_num_frames() == old(self).spec_num_frames(),
    ;

    /// Seeks to an audio frame.
    ///
    /// The `index` is the _requested_ frame to seek to. It's OK if the decoder
    /// seeks to an earlier frame than the one requested, but not to a later one.
    ///
    /// This returns the frame index that was _actually_ seeked to.
    fn seek(&mut self, index: usize) -> (seeked: Result<usize, Self::Error>)
        ensures
            seeked matches Ok(actual) ==> actual <= index,
            final(self).spec_sample_rate() == old(self).spec_sample_rate(),
            final(self).spec_num_frames() == old(self).spec_num_frames(),
    ;
}

} // verus!
