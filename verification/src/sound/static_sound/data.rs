use vstd::prelude::*;

use std::sync::Arc;
use std::time::Duration;

use crate::sound::time::{duration_of_frames, frames_duration};

use super::StaticSoundSettings;

verus! {

/// The number of frames in `len` frames of audio cut down to `slice`.
pub open spec fn slice_len(len: nat, slice: Option<(usize, usize)>) -> int {
    match slice {
        Some((start, end)) => end - start,
        None => len as int,
    }
}

/// The index of the first frame of `slice` in the whole audio.
pub open spec fn slice_start(slice: Option<(usize, usize)>) -> nat {
    match slice {
        Some((start, _)) => start as nat,
        None => 0,
    }
}

/// Whether a slice is well ordered: its start is not after its end.
pub open spec fn slice_ordered(slice: Option<(usize, usize)>) -> bool {
    match slice {
        Some((start, end)) => start <= end,
        None => true,
    }
}

/// Whether `slice` lies within `len` frames of audio.
pub open spec fn slice_in_bounds(len: nat, slice: Option<(usize, usize)>) -> bool {
    match slice {
        Some((start, end)) => start <= end && end <= len,
        None => true,
    }
}

/// The frame at `index` of `frames` cut down to `slice`, if the slice has one.
pub open spec fn sliced_frame<F>(frames: Seq<F>, slice: Option<(usize, usize)>, index: int) -> Option<
    F,
> {
    if 0 <= index < slice_len(frames.len(), slice) {
        Some(frames[index + slice_start(slice)])
    } else {
        None
    }
}

/// Returns the number of frames in `frames`, or in `slice` of it when
/// there is one.
pub fn num_frames<F>(frames: &[F], slice: Option<(usize, usize)>) -> (n: usize)
    requires
        slice_ordered(slice),
    ensures
        n == slice_len(frames@.len(), slice),
{
    if let Some((start, end)) = slice {
        end - start
    } else {
        frames.len()
    }
}

/// Returns the frame at `index`, counting from the start of `slice` when
/// there is one, or `None` past the end.
pub fn frame_at_index<F: Copy>(index: usize, frames: &[F], slice: Option<(usize, usize)>) -> (frame:
    Option<F>)
    requires
        slice_ordered(slice),
        index < slice_len(frames@.len(), slice) ==> index + slice_start(slice) < frames@.len(),
    ensures
        frame == sliced_frame(frames@, slice, index as int),
{
    if index >= num_frames(frames, slice) {
        return None;
    }
    let start = match slice {
        Some((start, _)) => start,
        None => 0,
    };
    Some(frames[index + start])
}

/// Audio cut down to a slice behaves as if it only held the frames of the
/// slice: it has as many frames, and the frame at each index is the one at
/// the same index of the cut-out frames.
pub proof fn lemma_slice_behaves_as_sub_audio<F>(frames: Seq<F>, start: usize, end: usize, index: int)
    requires
        start <= end <= frames.len(),
    ensures
        slice_len(frames.len(), Some((start, end))) == slice_len(
            frames.subrange(start as int, end as int).len(),
            None,
        ),
        sliced_frame(frames, Some((start, end)), index) == sliced_frame(
            frames.subrange(start as int, end as int),
            None,
            index,
        ),
{
}

/// A piece of audio loaded into memory all at once.
///
/// The frames are shared among all clones of the data.
#[derive(Clone)]
pub struct StaticSoundData<F> {
    /// The sample rate of the audio (in Hz).
    pub sample_rate: u32,
    /// The raw frames that make up the audio.
    pub frames: Arc<Vec<F>>,
    /// Settings for the sound.
    pub settings: StaticSoundSettings,
    /// The portion of the sound this data represents. The whole audio is
    /// kept; `num_frames`, `duration` and `frame_at_index` behave as if
    /// only this portion existed.
    pub slice: Option<(usize, usize)>,
}

impl<F: Copy> StaticSoundData<F> {
    /// The frames of the audio.
    pub open spec fn frames_view(&self) -> Seq<F> {
        self.frames@
    }

    /// The number of frames the data represents.
    pub open spec fn spec_num_frames(&self) -> int {
        slice_len(self.frames@.len(), self.slice)
    }

    /// Returns the number of frames in the data (in its slice, when it has one).
    #[must_use]
    pub fn num_frames(&self) -> (n: usize)
        requires
            slice_ordered(self.slice),
        ensures
            n == self.spec_num_frames(),
    {
        num_frames(self.frames.as_slice(), self.slice)
    }

    /// Returns the duration of the audio (of its slice, when it has one),
    /// rounded to the nearest nanosecond.
    #[must_use]
    pub fn duration(&self) -> (duration: Duration)
        requires
            slice_ordered(self.slice),
            self.sample_rate > 0,
        ensures
            duration == frames_duration(self.spec_num_frames() as nat, self.sample_rate as nat),
    {
        duration_of_frames(self.num_frames(), self.sample_rate)
    }

    /// Returns the frame at `index`, as if the data only held its slice.
    #[must_use]
    pub fn frame_at_index(&self, index: usize) -> (frame: Option<F>)
        requires
            slice_ordered(self.slice),
            index < self.spec_num_frames() ==> index + slice_start(self.slice) < self.frames@.len(),
        ensures
            frame == sliced_frame(self.frames@, self.slice, index as int),
    {
        frame_at_index(index, self.frames.as_slice(), self.slice)
    }
}

} // verus!
