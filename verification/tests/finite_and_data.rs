use std::sync::Arc;
use std::time::Duration;

use kira::sound::data::SoundData;
use kira::sound::finite::static_sound::FiniteSoundData;
use kira::sound::finite::symphonia::load_frames_from_buffer;
use kira::sound::finite::{FiniteSound, FromFileError, LoadError, StaticSoundData};

#[derive(Debug, Clone, Copy, PartialEq, Default)]
struct Frame {
    left: f32,
    right: f32,
}

impl Frame {
    fn from_mono(value: f32) -> Self {
        Frame { left: value, right: value }
    }
}

#[test]
fn finite_duration() {
    let static_sound: StaticSoundData<Frame, ()> = StaticSoundData {
        sample_rate: 1,
        frames: Arc::new(vec![Frame::from_mono(0.0); 4]),
        settings: Default::default(),
    };
    assert_eq!(static_sound.duration(), Duration::from_secs(4));
}

#[test]
fn settings_change_without_copying_frames() {
    let data = StaticSoundData {
        sample_rate: 48000,
        frames: Arc::new(vec![Frame::from_mono(0.5); 3]),
        settings: 1u8,
    };
    let changed = data.with_settings(2);
    assert_eq!(changed.settings, 2);
    assert_eq!(changed.sample_rate, 48000);
    assert!(Arc::ptr_eq(&changed.frames, &data.frames));
    let modified = data.with_modified_settings(|settings| settings + 10);
    assert_eq!(modified.settings, 11);
    assert!(Arc::ptr_eq(&modified.frames, &data.frames));
}

#[test]
fn finite_data_reads_frames() {
    let mut data = StaticSoundData {
        sample_rate: 8,
        frames: Arc::new(vec![Frame::from_mono(1.0), Frame::from_mono(2.0)]),
        settings: (),
    };
    assert_eq!(FiniteSoundData::sample_rate(&mut data), 8);
    assert_eq!(FiniteSoundData::len(&mut data), 2);
    assert_eq!(FiniteSoundData::frame(&mut data, 1), Frame::from_mono(2.0));
    assert_eq!(FiniteSoundData::buffer_len(&mut data), 4);
}

#[test]
fn sound_data_reads_frames() {
    let mut data = kira::sound::data::StaticSoundData {
        sample_rate: 44100,
        frames: vec![Frame::from_mono(0.25), Frame::from_mono(0.75)],
    };
    assert_eq!(SoundData::sample_rate(&mut data), 44100);
    assert_eq!(SoundData::len(&mut data), 2);
    assert_eq!(SoundData::frame(&mut data, 0), Frame::from_mono(0.25));
}

#[test]
fn errors_convert() {
    let io = std::io::Error::new(std::io::ErrorKind::NotFound, "missing");
    assert!(matches!(FromFileError::from(io), FromFileError::IoError(_)));
    assert!(matches!(
        FromFileError::from(LoadError::NoDefaultTrack),
        FromFileError::LoadError(LoadError::NoDefaultTrack)
    ));
    let io = std::io::Error::new(std::io::ErrorKind::Other, "broken");
    assert!(matches!(kira::sound::FromFileError::from(io), kira::sound::FromFileError::IoError(_)));
}

#[test]
fn buffers_append_frames() {
    let mut frames: Vec<(i16, i16)> = vec![(9, 9)];
    assert!(load_frames_from_buffer(&mut frames, &vec![vec![1, 2]]).is_ok());
    assert_eq!(frames, vec![(9, 9), (1, 1), (2, 2)]);
    assert!(load_frames_from_buffer(&mut frames, &vec![vec![3, 4, 5], vec![6, 7]]).is_ok());
    assert_eq!(frames, vec![(9, 9), (1, 1), (2, 2), (3, 6), (4, 7)]);
    let result = load_frames_from_buffer(&mut frames, &vec![vec![1], vec![2], vec![3]]);
    assert!(matches!(result, Err(LoadError::UnsupportedChannelConfiguration)));
    assert_eq!(frames.len(), 5);
}

#[test]
fn finite_sound_plays_every_frame_then_silence() {
    let data: StaticSoundData<Frame, ()> = StaticSoundData {
        sample_rate: 1,
        frames: Arc::new(vec![Frame::from_mono(1.0), Frame::from_mono(2.0), Frame::from_mono(3.0)]),
        settings: (),
    };
    let mut sound = FiniteSound::new(data);
    assert_eq!(sound.buffer(), &vec![Frame::default(); 4]);
    assert!(!sound.stopped());
    sound.push_frame();
    sound.push_frame();
    assert!(!sound.stopped());
    sound.push_frame();
    assert!(sound.stopped());
    assert_eq!(
        sound.buffer(),
        &vec![Frame::default(), Frame::from_mono(1.0), Frame::from_mono(2.0), Frame::from_mono(3.0)]
    );
    sound.push_frame();
    assert!(sound.stopped());
    assert_eq!(
        sound.buffer(),
        &vec![Frame::from_mono(1.0), Frame::from_mono(2.0), Frame::from_mono(3.0), Frame::default()]
    );
}
