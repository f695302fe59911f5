use vstd::prelude::*;

use crate::sound::symphonia::{frames_from_planes, planes_view};

use super::error::LoadError;

verus! {

/// Appends to `frames` the `(left, right)` frames that the planes
/// (channels) of a decoded buffer make: a mono buffer gives each sample to
/// both sides, a stereo buffer pairs its two channels. Any other channel
/// count is unsupported and leaves `frames` as it was.
pub fn load_frames_from_buffer<S: Copy>(frames: &mut Vec<(S, S)>, planes: &Vec<Vec<S>>) -> (loaded:
    Result<(), LoadError>)
    ensures
        match loaded {
            Ok(()) => frames_from_planes(planes_view(planes@)) matches Some(new_frames)
                && final(frames)@ == old(frames)@ + new_frames,
            Err(error) => frames_from_planes(planes_view(planes@)) is None && error
                is UnsupportedChannelConfiguration && final(frames)@ == old(frames)@,
        },
{
    match crate::sound::symphonia::load_frames_from_buffer(planes) {
        Ok(mut new_frames) => {
            frames.append(&mut new_frames);
            Ok(())
        },
        Err(_) => Err(LoadError::UnsupportedChannelConfiguration),
    }
}

} // verus!
