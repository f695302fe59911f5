use vstd::prelude::*;

use super::error::FromFileError;

verus! {

/// The stereo frames that `planes` of samples make: one plane is mono
/// audio, played the same in both ears; two planes are left and right,
/// paired up to the length of the shorter. Other channel counts make none.
pub open spec fn frames_from_planes<S>(planes: Seq<Seq<S>>) -> Option<Seq<(S, S)>> {
    if planes.len() == 1 {
        Some(Seq::new(planes[0].len(), |i: int| (planes[0][i], planes[0][i])))
    } else if planes.len() == 2 {
        let len = if planes[0].len() <= planes[1].len() {
            planes[0].len()
        } else {
            planes[1].len()
        };
        Some(Seq::new(len, |i: int| (planes[0][i], planes[1][i])))
    } else {
        None
    }
}

/// The samples of each plane (channel) of a buffer.
pub open spec fn planes_view<S>(planes: Seq<Vec<S>>) -> Seq<Seq<S>> {
    planes.map_values(|plane: Vec<S>| plane@)
}

/// Turns the planes (channels) of a decoded buffer into `(left, right)`
/// frames: a mono buffer gives each sample to both sides, a stereo buffer
/// pairs its two channels. Any other channel count is unsupported.
pub fn load_frames_from_buffer<S: Copy>(planes: &Vec<Vec<S>>) -> (frames: Result<
    Vec<(S, S)>,
    FromFileError,
>)
    ensures
        match frames {
            Ok(frames) => frames_from_planes(planes_view(planes@)) == Some(frames@),
            Err(error) => frames_from_planes(planes_view(planes@)) is None && error
                is UnsupportedChannelConfiguration,
        },
{
    let ghost view = planes_view(planes@);
    if planes.len() == 1 {
        let plane = &planes[0];
        let mut frames: Vec<(S, S)> = Vec::new();
        let mut i: usize = 0;
        while i < plane.len()
            invariant
                i <= plane@.len(),
                view == planes_view(planes@),
                planes@.len() == 1,
                plane@ == view[0],
                frames@ == Seq::new(i as nat, |j: int| (view[0][j], view[0][j])),
            decreases plane@.len() - i,
        {
            frames.push((plane[i], plane[i]));
            i = i + 1;
            assert(frames@ =~= Seq::new(i as nat, |j: int| (view[0][j], view[0][j])));
        }
        Ok(frames)
    } else if planes.len() == 2 {
        let left = &planes[0];
        let right = &planes[1];
        let len = if left.len() <= right.len() {
            left.len()
        } else {
            right.len()
        };
        let mut frames: Vec<(S, S)> = Vec::new();
        let mut i: usize = 0;
        while i < len
            invariant
                i <= len,
                len <= left@.len(),
                len <= right@.len(),
                view == planes_view(planes@),
                planes@.len() == 2,
                left@ == view[0],
                right@ == view[1],
                frames@ == Seq::new(i as nat, |j: int| (view[0][j], view[1][j])),
            decreases len - i,
        {
            frames.push((left[i], right[i]));
            i = i + 1;
            assert(frames@ =~= Seq::new(i as nat, |j: int| (view[0][j], view[1][j])));
        }
        Ok(frames)
    } else {
        Err(FromFileError::UnsupportedChannelConfiguration)
    }
}

/// Checks what a decoder needs of the default track of an audio file:
/// that it is an audio track, and that its sample rate and its number of
/// frames are known. Returns the sample rate and the number of frames, or
/// the error for the first check that fails.
pub fn check_default_track(
    has_audio_track: bool,
    sample_rate: Option<u32>,
    num_frames: Option<u64>,
) -> (checked: Result<(u32, usize), FromFileError>)
    requires
        num_frames matches Some(n) ==> n <= usize::MAX,
    ensures
        !has_audio_track ==> checked matches Err(FromFileError::NoDefaultTrack),
        has_audio_track && sample_rate is None ==> checked matches Err(
            FromFileError::UnknownSampleRate,
        ),
        has_audio_track && sample_rate is Some && num_frames is None ==> checked matches Err(
            FromFileError::UnknownSampleRate,
        ),
        has_audio_track && sample_rate is Some && num_frames is Some ==> (checked matches Ok(
            (rate, frames),
        ) && rate == sample_rate->0 && frames == num_frames->0),
{
    if !has_audio_track {
        return Err(FromFileError::NoDefaultTrack);
    }
    let rate = match sample_rate {
        Some(rate) => rate,
        None => return Err(FromFileError::UnknownSampleRate),
    };
    let frames = match num_frames {
        Some(frames) => frames as usize,
        None => return Err(FromFileError::UnknownSampleRate),
    };
    Ok((rate, frames))
}

} // verus!
