pub mod decode_scheduler;

use vstd::prelude::*;

use std::sync::atomic::AtomicBool;
use std::sync::atomic::AtomicU64;
use std::sync::atomic::AtomicU8;
use std::sync::atomic::Ordering;

use crate::sound::ring::RingConsumer;
use crate::sound::{state_from_code, PlaybackState};

verus! {

/// Playback information that a streaming sound shares with its handle and
/// with the thread that decodes its audio.
#[derive(Debug)]
pub struct Shared {
    state: AtomicU8,
    position: AtomicU64,
    reached_end: AtomicBool,
    encountered_error: AtomicBool,
    stopped: AtomicBool,
}

impl Shared {
    /// Creates the shared information of a sound that is playing from
    /// position zero (whose bits are all zero), has not reached its end,
    /// has met no error and has not been stopped.
    #[must_use]
    pub fn new() -> Self {
        Self {
            position: AtomicU64::new(0),
            state: AtomicU8::new(0),
            reached_end: AtomicBool::new(false),
            encountered_error: AtomicBool::new(false),
            stopped: AtomicBool::new(false),
        }
    }

    /// Returns the current playback state of the sound. The state is
    /// written from another thread, so nothing is known of it here; a
    /// number that no state stands for reads as `Stopped`.
    #[must_use]
    pub fn state(&self) -> PlaybackState {
        let code = self.state.load(Ordering::SeqCst);
        state_from_code(code)
    }

    /// Publishes the playback state of the sound.
    pub fn set_state(&self, state: PlaybackState) {
        self.state.store(state.code(), Ordering::SeqCst);
    }

    /// Returns the bits of the published playback position (in seconds).
    #[must_use]
    pub fn position_bits(&self) -> u64 {
        self.position.load(Ordering::SeqCst)
    }

    /// Publishes the bits of the playback position (in seconds).
    pub fn set_position_bits(&self, bits: u64) {
        self.position.store(bits, Ordering::SeqCst);
    }

    /// Returns whether the decoder has produced the last frame of the sound.
    #[must_use]
    pub fn reached_end(&self) -> bool {
        self.reached_end.load(Ordering::SeqCst)
    }

    /// Records that the decoder has produced the last frame of the sound.
    pub fn mark_reached_end(&self) {
        self.reached_end.store(true, Ordering::SeqCst);
    }

    /// Returns whether the decoder has met an error.
    #[must_use]
    pub fn encountered_error(&self) -> bool {
        self.encountered_error.load(Ordering::SeqCst)
    }

    /// Records that the decoder has met an error.
    pub fn mark_encountered_error(&self) {
        self.encountered_error.store(true, Ordering::SeqCst);
    }

    /// Returns whether the sound has been stopped, so that decoding can end.
    #[must_use]
    pub fn stopped(&self) -> bool {
        self.stopped.load(Ordering::SeqCst)
    }

    /// Records that the sound has been stopped.
    pub fn mark_stopped(&self) {
        self.stopped.store(true, Ordering::SeqCst);
    }
}

/// A frame of audio with the index of the frame in the sound it was taken from.
#[derive(Debug, Clone, Copy)]
pub struct TimestampedFrame<F> {
    /// The frame of audio.
    pub frame: F,
    /// The index of the frame in the sound.
    pub index: i64,
}

/// The index of the frame the listener hears from `buffered` frames (the
/// oldest first): that of the second frame, since the first is the previous
/// frame; `current` while fewer than two frames are buffered.
pub open spec fn heard_frame_index<F>(buffered: Seq<TimestampedFrame<F>>, current: i64) -> i64 {
    if buffered.len() >= 2 {
        buffered[1].index
    } else {
        current
    }
}

/// The heard frame is the one after the oldest buffered frame: with two
/// frames buffered it is the newer of the two, frames that the decoder
/// appends later do not change it, and while fewer than two frames are
/// buffered the current index stays.
pub proof fn lemma_heard_frame_is_second_oldest<F>(
    buffered: Seq<TimestampedFrame<F>>,
    later: TimestampedFrame<F>,
    previous: TimestampedFrame<F>,
    heard: TimestampedFrame<F>,
    current: i64,
)
    ensures
        heard_frame_index(seq![previous, heard], current) == heard.index,
        buffered.len() >= 2 ==> heard_frame_index(buffered.push(later), current)
            == heard_frame_index(buffered, current),
        buffered.len() >= 2 ==> heard_frame_index(buffered, current) == heard_frame_index(
            buffered.subrange(0, 2),
            current,
        ),
        buffered.len() < 2 ==> heard_frame_index(buffered, current) == current,
{
    if buffered.len() >= 2 {
        assert(buffered.push(later)[1] == buffered[1]);
        assert(buffered.subrange(0, 2)[1] == buffered[1]);
    }
}

/// Returns the index of the frame the listener hears from `buffered`
/// frames, or `current` while fewer than two frames are buffered.
pub fn heard_frame<F: Copy>(buffered: &Vec<TimestampedFrame<F>>, current: i64) -> (index: i64)
    ensures
        index == heard_frame_index(buffered@, current),
{
    if buffered.len() >= 2 {
        buffered[1].index
    } else {
        current
    }
}

/// Whether `frames` are the frames to interpolate between when `buffered`
/// frames (the oldest first) are in the buffer: the four oldest of them,
/// with default (silent) frames where fewer are buffered.
pub open spec fn interpolation_frames<F: Default>(buffered: Seq<TimestampedFrame<F>>, frames: [F; 4]) -> bool {
    forall|i: int|
        0 <= i < 4 ==> {
            if i < buffered.len() {
                #[trigger] frames@[i] == buffered[i].frame
            } else {
                F::default.ensures((), frames@[i])
            }
        }
}

/// Returns the frames to interpolate between: the four oldest `buffered`
/// frames, with default (silent) frames where fewer are buffered.
pub fn first_four_frames<F: Copy + Default>(buffered: &Vec<TimestampedFrame<F>>) -> (frames: [F; 4])
    ensures
        interpolation_frames(buffered@, frames),
{
    let frame_0 = if buffered.len() > 0 { buffered[0].frame } else { F::default() };
    let frame_1 = if buffered.len() > 1 { buffered[1].frame } else { F::default() };
    let frame_2 = if buffered.len() > 2 { buffered[2].frame } else { F::default() };
    let frame_3 = if buffered.len() > 3 { buffered[3].frame } else { F::default() };
    [frame_0, frame_1, frame_2, frame_3]
}

/// Reads the frame buffer and moves `current_frame` to the index of the
/// frame the listener hears (the second buffered frame), when at least two
/// frames are buffered.
pub fn update_current_frame<F: Copy>(
    frame_consumer: &RingConsumer<TimestampedFrame<F>>,
    current_frame: &mut i64,
)
    ensures
        exists|buffered: Seq<TimestampedFrame<F>>|
            *final(current_frame) == #[trigger] heard_frame_index(buffered, *old(current_frame)),
{
    let buffered = frame_consumer.items();
    let current = *current_frame;
    *current_frame = heard_frame(&buffered, current);
}

/// Reads the frame buffer and returns the four oldest frames in it, with
/// default (silent) frames where fewer are buffered.
pub fn next_frames<F: Copy + Default>(frame_consumer: &RingConsumer<TimestampedFrame<F>>) -> (frames:
    [F; 4])
    ensures
        exists|buffered: Seq<TimestampedFrame<F>>| #[trigger] interpolation_frames(buffered, frames),
{
    let buffered = frame_consumer.items();
    first_four_frames(&buffered)
}

/// What a streaming sound does with its frame buffer in one step of
/// playback.
#[derive(Debug, Clone, Copy, PartialEq, Eq, Structural)]
pub enum StreamingAction {
    /// Output silence and leave the buffer as it is.
    Silence,
    /// Output audio interpolated from the oldest buffered frames, then
    /// drop `pop` frames from the buffer (those the playback position has
    /// passed).
    Play { pop: usize },
}

/// Decides one step of playback of a streaming sound in `state`, given
/// whether decoding failed, whether the decoder reached the end of the
/// audio, how many frames are buffered and how many frames the playback
/// position passes in this step. A decoding error stops the sound; a sound
/// that is not advancing, or that waits for at least two buffered frames
/// (the first is the previous frame) before the end is reached, outputs
/// silence; otherwise it plays, and it stops once the end was reached and
/// the step empties the buffer. Returns the new state and the action.
pub fn streaming_step(
    state: PlaybackState,
    encountered_error: bool,
    reached_end: bool,
    buffered: usize,
    frames_to_advance: usize,
) -> (step: (PlaybackState, StreamingAction))
    ensures
        encountered_error ==> step == (PlaybackState::Stopped, StreamingAction::Silence),
        !encountered_error && !state.spec_is_advancing() ==> step == (state, StreamingAction::Silence),
        !encountered_error && state.spec_is_advancing() && buffered < 2 && !reached_end ==> step == (
            state,
            StreamingAction::Silence,
        ),
        !encountered_error && state.spec_is_advancing() && (buffered >= 2 || reached_end) ==> {
            &&& step.1 == StreamingAction::Play { pop: frames_to_advance }
            &&& step.0 == (if reached_end && buffered <= frames_to_advance {
                PlaybackState::Stopped
            } else {
                state
            })
        },
{
    if encountered_error {
        return (PlaybackState::Stopped, StreamingAction::Silence);
    }
    if !state.is_advancing() {
        return (state, StreamingAction::Silence);
    }
    if buffered < 2 && !reached_end {
        return (state, StreamingAction::Silence);
    }
    let next_state = if reached_end && buffered <= frames_to_advance {
        PlaybackState::Stopped
    } else {
        state
    };
    (next_state, StreamingAction::Play { pop: frames_to_advance })
}

} // verus!
