use std::sync::Arc;
use std::time::Duration;

use kira::sound::static_sound::data::{frame_at_index, num_frames};
use kira::sound::static_sound::sound::resampler::Resampler;
use kira::sound::static_sound::sound::{Shared, StaticSound};
use kira::sound::static_sound::{StaticSoundData, StaticSoundSettings};
use kira::sound::{EndPosition, PlaybackPosition, PlaybackState, Region};

#[derive(Debug, Clone, Copy, PartialEq, Default)]
struct Frame {
    left: f32,
    right: f32,
}

impl Frame {
    fn from_mono(value: f32) -> Self {
        Frame { left: value, right: value }
    }
}

fn numbered_frames(n: usize) -> Arc<Vec<Frame>> {
    Arc::new((0..n).map(|i| Frame::from_mono(i as f32)).collect())
}

#[test]
fn test_duration() {
    let static_sound = StaticSoundData {
        sample_rate: 1,
        frames: Arc::new(vec![Frame::from_mono(0.0); 4]),
        settings: Default::default(),
        slice: None,
    };
    assert_eq!(static_sound.duration(), Duration::from_secs(4));
}

#[test]
fn frame_at_position() {
    let static_sound = StaticSoundData {
        sample_rate: 1,
        frames: Arc::new(vec![
            Frame::from_mono(0.0),
            Frame::from_mono(1.0),
            Frame::from_mono(2.0),
            Frame::from_mono(3.0),
        ]),
        settings: Default::default(),
        slice: None,
    };
    // at one frame per second, the frame at a position in seconds is the
    // frame at that index; positions outside the audio give silence
    let frame_at_position = |position: i64| {
        usize::try_from(position)
            .ok()
            .and_then(|index| static_sound.frame_at_index(index))
            .unwrap_or_default()
    };
    assert_eq!(frame_at_position(-1), Frame::from_mono(0.0));
    assert_eq!(frame_at_position(0), Frame::from_mono(0.0));
    assert_eq!(frame_at_position(1), Frame::from_mono(1.0));
    assert_eq!(frame_at_position(2), Frame::from_mono(2.0));
    assert_eq!(frame_at_position(3), Frame::from_mono(3.0));
    assert_eq!(frame_at_position(4), Frame::from_mono(0.0));
}

#[test]
fn test_sliced_duration() {
    let static_sound = StaticSoundData {
        sample_rate: 1,
        frames: Arc::new(vec![Frame::from_mono(0.0); 4]),
        settings: Default::default(),
        slice: None,
    };
    assert_eq!(static_sound.duration(), Duration::from_secs(4));

    let static_sound = StaticSoundData {
        sample_rate: 1,
        frames: Arc::new(vec![Frame::from_mono(0.0); 4]),
        settings: Default::default(),
        slice: Some((2, 3)),
    };
    assert_eq!(static_sound.duration(), Duration::from_secs(1));
}

#[test]
fn duration_keeps_fractions_of_a_second() {
    let static_sound = StaticSoundData {
        sample_rate: 4,
        frames: Arc::new(vec![Frame::from_mono(0.0); 10]),
        settings: StaticSoundSettings::new(),
        slice: None,
    };
    assert_eq!(static_sound.duration(), Duration::from_millis(2500));
    let static_sound = StaticSoundData {
        sample_rate: 3,
        frames: Arc::new(vec![Frame::from_mono(0.0); 1]),
        settings: StaticSoundSettings::new(),
        slice: None,
    };
    assert_eq!(static_sound.duration(), Duration::from_nanos(333_333_333));
}

#[test]
fn sliced_frames_behave_as_sub_audio() {
    let static_sound = StaticSoundData {
        sample_rate: 1,
        frames: numbered_frames(10),
        settings: StaticSoundSettings::default(),
        slice: Some((3, 6)),
    };
    assert_eq!(static_sound.num_frames(), 3);
    for i in 0..3 {
        assert_eq!(static_sound.frame_at_index(i), Some(Frame::from_mono(i as f32 + 3.0)));
    }
    assert!(static_sound.frame_at_index(3).is_none());
    let frames = numbered_frames(10);
    assert_eq!(num_frames(frames.as_slice(), None), 10);
    assert_eq!(frame_at_index(9, frames.as_slice(), None), Some(Frame::from_mono(9.0)));
    assert_eq!(frame_at_index(10, frames.as_slice(), None), None);
}

#[test]
fn settings_builders_set_one_field_each() {
    let region = Region { start: PlaybackPosition::Samples(1), end: EndPosition::EndOfAudio };
    let settings = StaticSoundSettings::new()
        .start_position(PlaybackPosition::Samples(5))
        .reverse(true)
        .loop_region(Some(region));
    assert_eq!(settings.start_position, PlaybackPosition::Samples(5));
    assert!(settings.reverse);
    assert_eq!(settings.loop_region, Some(region));
    assert_eq!(StaticSoundSettings::default(), StaticSoundSettings::new());
    assert_eq!(StaticSoundSettings::new().start_position, PlaybackPosition::Samples(0));
}

#[test]
fn resampler_keeps_four_most_recent_frames() {
    let mut resampler: Resampler<Frame> = Resampler::new(7);
    assert!(resampler.empty());
    assert_eq!(resampler.current_frame_index(), 7);
    for i in 0..4 {
        assert_eq!(resampler.frame(i), Frame::default());
    }
    resampler.push_frame(Some(Frame::from_mono(1.0)), 8);
    assert!(!resampler.empty());
    resampler.push_frame(Some(Frame::from_mono(2.0)), 9);
    assert_eq!(resampler.frame(3), Frame::from_mono(2.0));
    assert_eq!(resampler.frame(2), Frame::from_mono(1.0));
    assert_eq!(resampler.current_frame_index(), 7);
    resampler.push_frame(None, 10);
    assert_eq!(resampler.current_frame_index(), 8);
    assert_eq!(resampler.frame(3), Frame::default());
    // a pushed frame keeps the resampler non-empty for four pushes
    resampler.push_frame(None, 11);
    resampler.push_frame(None, 12);
    assert!(!resampler.empty());
    resampler.push_frame(None, 13);
    assert!(resampler.empty());
}

#[test]
fn shared_state_round_trips() {
    let shared = Shared::new();
    assert_eq!(shared.state(), PlaybackState::Playing);
    for state in [
        PlaybackState::Playing,
        PlaybackState::Pausing,
        PlaybackState::Paused,
        PlaybackState::WaitingToResume,
        PlaybackState::Resuming,
        PlaybackState::Stopping,
        PlaybackState::Stopped,
    ] {
        shared.set_state(state);
        assert_eq!(shared.state(), state);
        assert_eq!(PlaybackState::from_code(state.code()), state);
    }
    assert_eq!(shared.position_bits(), 0);
    shared.set_position_bits(1.5f64.to_bits());
    assert_eq!(f64::from_bits(shared.position_bits()), 1.5);
    assert!(PlaybackState::Pausing.is_advancing());
    assert!(!PlaybackState::Paused.is_advancing());
}

#[test]
fn plays_all_frames_then_stops() {
    let data = StaticSoundData {
        sample_rate: 1,
        frames: Arc::new(vec![Frame::from_mono(1.0), Frame::from_mono(2.0), Frame::from_mono(3.0)]),
        settings: StaticSoundSettings::new(),
        slice: None,
    };
    let (mut sound, ()) = data.split(false);
    // the resampler was filled with the first three frames
    assert_eq!(sound.resampler().frame(1), Frame::from_mono(1.0));
    assert_eq!(sound.resampler().frame(2), Frame::from_mono(2.0));
    assert_eq!(sound.resampler().frame(3), Frame::from_mono(3.0));
    assert!(!sound.transport().playing);
    assert!(!sound.finished());
    let mut updates = 0;
    while !sound.finished() {
        sound.update_position(false);
        updates += 1;
        assert!(updates <= 4);
    }
    assert_eq!(updates, 4);
    assert_eq!(sound.state(), PlaybackState::Stopped);
    assert_eq!(sound.shared().state(), PlaybackState::Stopped);
}

#[test]
fn plays_reversed_sound_backwards() {
    let data = StaticSoundData {
        sample_rate: 1,
        frames: numbered_frames(5),
        settings: StaticSoundSettings::new().reverse(true),
        slice: None,
    };
    let sound = StaticSound::new(data, false);
    assert!(sound.is_playing_backwards(false));
    assert!(!sound.is_playing_backwards(true));
    assert_eq!(sound.resampler().frame(1), Frame::from_mono(4.0));
    assert_eq!(sound.resampler().frame(2), Frame::from_mono(3.0));
    assert_eq!(sound.resampler().frame(3), Frame::from_mono(2.0));
    assert_eq!(sound.transport().position, 1);
}

#[test]
fn seeking_pushes_the_frame_at_the_new_position() {
    let data = StaticSoundData {
        sample_rate: 1,
        frames: numbered_frames(10),
        settings: StaticSoundSettings::new(),
        slice: Some((2, 8)),
    };
    let mut sound = StaticSound::new(data, false);
    sound.seek_to_index(4);
    assert_eq!(sound.transport().position, 4);
    // frame 4 of the slice is frame 6 of the audio
    assert_eq!(sound.resampler().frame(3), Frame::from_mono(6.0));
    sound.mark_as_stopped();
    assert!(sound.finished());
    sound.seek_to_index(1);
    assert_eq!(sound.resampler().frame(3), Frame::from_mono(6.0));
}

#[test]
fn clones_share_their_frames() {
    let data = StaticSoundData {
        sample_rate: 48000,
        frames: numbered_frames(100),
        settings: StaticSoundSettings::new(),
        slice: None,
    };
    let copy = data.clone();
    // cloning the sound data does not copy the audio
    assert!(Arc::ptr_eq(&data.frames, &copy.frames));
    assert_eq!(copy.num_frames(), 100);
}

#[test]
fn duration_rounds_to_the_nearest_nanosecond() {
    let static_sound = StaticSoundData {
        sample_rate: 3,
        frames: Arc::new(vec![Frame::from_mono(0.0); 2]),
        settings: StaticSoundSettings::new(),
        slice: None,
    };
    assert_eq!(static_sound.duration(), Duration::from_nanos(666_666_667));
}

#[test]
fn unreachable_empty_loop_region_is_dropped() {
    let data = StaticSoundData {
        sample_rate: 1,
        frames: numbered_frames(10),
        settings: StaticSoundSettings::new().loop_region(Some(Region {
            start: PlaybackPosition::Samples(20),
            end: EndPosition::Custom(PlaybackPosition::Samples(20)),
        })),
        slice: None,
    };
    let mut sound = StaticSound::new(data, false);
    assert_eq!(sound.transport().loop_region, None);
    let mut updates = 0;
    while !sound.finished() {
        sound.update_position(false);
        updates += 1;
        assert!(updates <= 11);
    }
    // seven frames left after the three that filled the resampler, and
    // four more while the resampler plays out
    assert_eq!(updates, 11);
}

#[test]
fn slice() {
    // at one frame per second, the slice from 3 s to 6 s is frames 3 to 6
    let static_sound = StaticSoundData {
        sample_rate: 1,
        frames: numbered_frames(10),
        settings: Default::default(),
        slice: Some((3, 6)),
    };
    for i in 0..3 {
        assert_eq!(static_sound.frame_at_index(i), Some(Frame::from_mono(i as f32 + 3.0)));
    }
    assert!(static_sound.frame_at_index(3).is_none());
}
