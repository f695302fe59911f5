use std::sync::Arc;
use std::time::Duration;

use kira::sound::spatial_scene::SpatialSceneShared;
use kira::sound::streaming::sound::decode_scheduler::{
    step_before_decoding, DecodeScheduler, DecodedChunk, NextStep,
};
use kira::sound::ring::concat_slices;
use kira::sound::streaming::sound::{
    next_frames, streaming_step, update_current_frame, Shared, StreamingAction,
};
use kira::sound::streaming::data::streamed_duration_of;
use kira::sound::streaming::{Decoder, StreamingSoundData};
use kira::sound::symphonia::{check_default_track, load_frames_from_buffer};
use kira::sound::{
    state_from_code, EndPosition, FromFileError, PlaybackPosition, PlaybackState, Region,
};

const MOCK_DECODER_SAMPLE_RATE: u32 = 1;
const MOCK_DECODER_PACKET_SIZE: usize = 3;

/// A decoder that returns its frames in packets of three, and seeks to the
/// start of a packet.
struct MockDecoder {
    frames: Vec<u32>,
    current_frame_index: usize,
}

impl MockDecoder {
    fn new(frames: Vec<u32>) -> Self {
        Self { frames, current_frame_index: 0 }
    }
}

impl Decoder<u32> for MockDecoder {
    type Error = ();

    fn spec_sample_rate(&self) -> u32 {
        MOCK_DECODER_SAMPLE_RATE
    }

    fn spec_num_frames(&self) -> usize {
        self.frames.len()
    }

    fn sample_rate(&self) -> u32 {
        MOCK_DECODER_SAMPLE_RATE
    }

    fn num_frames(&self) -> usize {
        self.frames.len()
    }

    fn decode(&mut self) -> Result<Vec<u32>, ()> {
        let mut frames = vec![];
        for _ in 0..MOCK_DECODER_PACKET_SIZE {
            if self.current_frame_index >= self.frames.len() {
                break;
            }
            frames.push(self.frames[self.current_frame_index]);
            self.current_frame_index += 1;
        }
        Ok(frames)
    }

    fn seek(&mut self, index: usize) -> Result<usize, ()> {
        let index = index / MOCK_DECODER_PACKET_SIZE * MOCK_DECODER_PACKET_SIZE;
        self.current_frame_index = index;
        Ok(index)
    }
}

fn numbered(n: u32) -> MockDecoder {
    MockDecoder::new((0..n).collect())
}

#[test]
fn streaming_duration() {
    let sound = StreamingSoundData { decoder: MockDecoder::new(vec![5; 4]), slice: None };
    assert_eq!(sound.duration(), Duration::from_secs(4));
}

#[test]
fn streaming_sliced_duration() {
    let sound = StreamingSoundData { decoder: MockDecoder::new(vec![5; 4]), slice: Some((2, 3)) };
    assert_eq!(sound.duration(), Duration::from_secs(1));
}

#[test]
fn slicing_by_region() {
    let sound = StreamingSoundData::from_decoder(numbered(10)).slice(Some(Region {
        start: PlaybackPosition::Samples(3),
        end: EndPosition::EndOfAudio,
    }));
    assert_eq!(sound.slice, Some((3, 10)));
    assert_eq!(sound.num_frames(), 7);
    let sound = sound.slice(None);
    assert_eq!(sound.num_frames(), 10);
}

#[test]
fn decoded_chunk_covers_its_frames() {
    let chunk = DecodedChunk { start_index: 4, frames: vec![40u32, 50, 60] };
    assert_eq!(chunk.frame_at_index(3), None);
    assert_eq!(chunk.frame_at_index(4), Some(40));
    assert_eq!(chunk.frame_at_index(6), Some(60));
    assert_eq!(chunk.frame_at_index(7), None);
}

fn scheduler_for(
    decoder: MockDecoder,
    slice: Option<(usize, usize)>,
    start: i64,
) -> (
    DecodeScheduler<MockDecoder, u32>,
    kira::sound::ring::RingConsumer<kira::sound::streaming::sound::TimestampedFrame<u32>>,
    Arc<Shared>,
) {
    let shared = Arc::new(Shared::new());
    let (scheduler, consumer) = DecodeScheduler::new(
        decoder,
        slice,
        PlaybackPosition::Samples(start),
        None,
        shared.clone(),
    )
    .unwrap();
    (scheduler, consumer, shared)
}

#[test]
fn scheduler_produces_every_frame_then_ends() {
    let (mut scheduler, mut consumer, shared) = scheduler_for(numbered(5), None, 0);
    assert_eq!(scheduler.pending_step(), None);
    while scheduler.decode_next().unwrap() == NextStep::Continue {}
    assert!(shared.reached_end());
    let mut produced = vec![];
    while let Some(frame) = consumer.pop() {
        produced.push((frame.frame, frame.index));
    }
    assert_eq!(produced, vec![(0, 0), (1, 1), (2, 2), (3, 3), (4, 4)]);
    assert!(consumer.is_empty());
}

#[test]
fn scheduler_ends_when_stopped() {
    let (scheduler, _consumer, shared) = scheduler_for(numbered(5), None, 0);
    shared.mark_stopped();
    assert_eq!(scheduler.pending_step(), Some(NextStep::End));
}

#[test]
fn scheduler_starts_at_start_position_and_seeks() {
    let (mut scheduler, mut consumer, _shared) = scheduler_for(numbered(100), None, 10);
    assert_eq!(scheduler.current_frame(), 10);
    assert_eq!(scheduler.decode_next().unwrap(), NextStep::Continue);
    let frame = consumer.pop().unwrap();
    assert_eq!((frame.frame, frame.index), (10, 10));
    scheduler.seek_to_index(15).unwrap();
    assert_eq!(scheduler.current_frame(), 15);
    scheduler.decode_next().unwrap();
    assert_eq!(consumer.pop().unwrap().frame, 15);
    // seeking backward makes the decoder go back
    scheduler.seek_to_index(2).unwrap();
    assert_eq!(scheduler.frame_at_index(2).unwrap(), 2);
    assert_eq!(scheduler.frame_at_index(0).unwrap(), 0);
    assert_eq!(scheduler.frame_at_index(99).unwrap(), 99);
    // past the end of the audio comes silence
    assert_eq!(scheduler.frame_at_index(100).unwrap(), 0);
}

#[test]
fn scheduler_plays_slice_and_loops() {
    let (mut scheduler, consumer, _shared) = scheduler_for(numbered(20), Some((10, 14)), 0);
    assert_eq!(scheduler.frame_at_index(0).unwrap(), 10);
    assert_eq!(scheduler.frame_at_index(3).unwrap(), 13);
    assert_eq!(scheduler.frame_at_index(4).unwrap(), 0);
    scheduler.set_loop_region(Some(Region {
        start: PlaybackPosition::Samples(1),
        end: EndPosition::Custom(PlaybackPosition::Samples(3)),
    }));
    for _ in 0..6 {
        assert_eq!(scheduler.decode_next().unwrap(), NextStep::Continue);
    }
    let indices: Vec<i64> = consumer.items().iter().map(|frame| frame.index).collect();
    assert_eq!(indices, vec![0, 1, 2, 1, 2, 1]);
    let frames: Vec<u32> = consumer.items().iter().map(|frame| frame.frame).collect();
    assert_eq!(frames, vec![10, 11, 12, 11, 12, 11]);
    assert_eq!(next_frames(&consumer), [10, 11, 12, 11]);
    let mut current = -5;
    update_current_frame(&consumer, &mut current);
    assert_eq!(current, 1);
}

#[test]
fn empty_loop_region_is_dropped() {
    let (mut scheduler, _consumer, _shared) = scheduler_for(numbered(10), None, 0);
    scheduler.set_loop_region(Some(Region {
        start: PlaybackPosition::Samples(4),
        end: EndPosition::Custom(PlaybackPosition::Samples(4)),
    }));
    let mut steps = 0;
    while scheduler.decode_next().unwrap() == NextStep::Continue {
        steps += 1;
    }
    assert_eq!(steps, 9);
}

#[test]
fn buffer_reads_with_few_frames() {
    let (mut scheduler, consumer, _shared) = scheduler_for(numbered(10), None, 3);
    assert_eq!(next_frames(&consumer), [0, 0, 0, 0]);
    let mut current = 7;
    update_current_frame(&consumer, &mut current);
    assert_eq!(current, 7);
    scheduler.decode_next().unwrap();
    update_current_frame(&consumer, &mut current);
    assert_eq!(current, 7);
    scheduler.decode_next().unwrap();
    update_current_frame(&consumer, &mut current);
    assert_eq!(current, 4);
    assert_eq!(next_frames(&consumer), [3, 4, 0, 0]);
    assert_eq!(consumer.len(), 2);
}

#[test]
fn streaming_shared_flags() {
    let shared = Arc::new(Shared::new());
    assert_eq!(shared.state(), PlaybackState::Playing);
    assert!(!shared.reached_end());
    assert!(!shared.encountered_error());
    assert!(!shared.stopped());
    shared.mark_reached_end();
    shared.mark_encountered_error();
    shared.mark_stopped();
    shared.set_state(PlaybackState::Stopping);
    assert!(shared.reached_end());
    assert!(shared.encountered_error());
    assert!(shared.stopped());
    assert_eq!(shared.state(), PlaybackState::Stopping);
    assert_eq!(shared.position_bits(), 0);
    shared.set_position_bits(7);
    assert_eq!(shared.position_bits(), 7);
}

#[test]
fn spatial_scene_removal_flag() {
    let shared = SpatialSceneShared::new();
    assert!(!shared.is_marked_for_removal());
    shared.mark_for_removal();
    assert!(shared.is_marked_for_removal());
}

#[test]
fn channel_layouts() {
    let mono = load_frames_from_buffer(&vec![vec![1i16, 2, 3]]).unwrap();
    assert_eq!(mono, vec![(1, 1), (2, 2), (3, 3)]);
    let stereo = load_frames_from_buffer(&vec![vec![1i16, 2, 3], vec![-1i16, -2]]).unwrap();
    assert_eq!(stereo, vec![(1, -1), (2, -2)]);
    let surround = load_frames_from_buffer(&vec![vec![0u8], vec![0u8], vec![0u8]]);
    assert!(matches!(surround, Err(FromFileError::UnsupportedChannelConfiguration)));
    let silent = load_frames_from_buffer::<u8>(&vec![]);
    assert!(matches!(silent, Err(FromFileError::UnsupportedChannelConfiguration)));
}

#[test]
fn streamed_duration_rounds_to_nearest_and_is_zero_without_a_sample_rate() {
    assert_eq!(streamed_duration_of(10, 4), Duration::from_millis(2500));
    assert_eq!(streamed_duration_of(2, 3), Duration::from_nanos(666_666_667));
    assert_eq!(streamed_duration_of(48_000, 48_000), Duration::from_secs(1));
    assert_eq!(streamed_duration_of(5, 0), Duration::ZERO);
    // just under a second rounds up into a whole second
    assert_eq!(streamed_duration_of(3_999_999_999, 4_000_000_000), Duration::from_secs(1));
}

/// A decoder that claims more frames than it holds.
struct ShortDecoder {
    inner: MockDecoder,
    claimed_frames: usize,
}

impl Decoder<u32> for ShortDecoder {
    type Error = ();

    fn spec_sample_rate(&self) -> u32 {
        self.inner.sample_rate()
    }

    fn spec_num_frames(&self) -> usize {
        self.claimed_frames
    }

    fn sample_rate(&self) -> u32 {
        self.inner.sample_rate()
    }

    fn num_frames(&self) -> usize {
        self.claimed_frames
    }

    fn decode(&mut self) -> Result<Vec<u32>, ()> {
        self.inner.decode()
    }

    fn seek(&mut self, index: usize) -> Result<usize, ()> {
        self.inner.seek(index)
    }
}

#[test]
fn frames_after_the_audio_ends_are_silent() {
    let decoder = ShortDecoder { inner: numbered(5), claimed_frames: 7 };
    let shared = Arc::new(Shared::new());
    let (mut scheduler, mut consumer) =
        DecodeScheduler::new(decoder, None, PlaybackPosition::Samples(0), None, shared.clone())
            .unwrap();
    while scheduler.decode_next().unwrap() == NextStep::Continue {}
    assert!(shared.reached_end());
    let mut produced = vec![];
    while let Some(frame) = consumer.pop() {
        produced.push((frame.frame, frame.index));
    }
    // the decoder runs out after five frames: the last two are silent
    assert_eq!(produced, vec![(0, 0), (1, 1), (2, 2), (3, 3), (4, 4), (0, 5), (0, 6)]);
}

#[test]
fn step_before_decoding_prefers_ending() {
    assert_eq!(step_before_decoding(true, true), Some(NextStep::End));
    assert_eq!(step_before_decoding(true, false), Some(NextStep::End));
    assert_eq!(step_before_decoding(false, true), Some(NextStep::Wait));
    assert_eq!(step_before_decoding(false, false), None);
}

#[test]
fn streaming_step_decisions() {
    let playing = PlaybackState::Playing;
    // a decoding error stops the sound
    assert_eq!(streaming_step(playing, true, false, 10, 1), (PlaybackState::Stopped, StreamingAction::Silence));
    // a paused sound outputs silence
    assert_eq!(
        streaming_step(PlaybackState::Paused, false, false, 10, 1),
        (PlaybackState::Paused, StreamingAction::Silence)
    );
    // waiting for two buffered frames before the end
    assert_eq!(streaming_step(playing, false, false, 1, 1), (playing, StreamingAction::Silence));
    assert_eq!(streaming_step(playing, false, false, 2, 1), (playing, StreamingAction::Play { pop: 1 }));
    // at the end, fewer frames are enough, and emptying the buffer stops
    assert_eq!(streaming_step(playing, false, true, 1, 0), (playing, StreamingAction::Play { pop: 0 }));
    assert_eq!(
        streaming_step(playing, false, true, 1, 1),
        (PlaybackState::Stopped, StreamingAction::Play { pop: 1 })
    );
}

#[test]
fn default_track_checks() {
    assert!(matches!(check_default_track(false, Some(44100), Some(10)), Err(FromFileError::NoDefaultTrack)));
    assert!(matches!(check_default_track(true, None, Some(10)), Err(FromFileError::UnknownSampleRate)));
    assert!(matches!(check_default_track(true, Some(44100), None), Err(FromFileError::UnknownSampleRate)));
    assert!(matches!(check_default_track(true, Some(44100), Some(10)), Ok((44100, 10))));
}

#[test]
fn slices_join_oldest_first() {
    assert_eq!(concat_slices(&[1, 2], &[3]), vec![1, 2, 3]);
    assert_eq!(concat_slices::<u8>(&[], &[]), Vec::<u8>::new());
}

#[test]
fn shared_codes_decode() {
    assert_eq!(state_from_code(2), PlaybackState::Paused);
    assert_eq!(state_from_code(6), PlaybackState::Stopped);
    assert_eq!(state_from_code(200), PlaybackState::Stopped);
}
