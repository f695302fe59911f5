pub mod data;
pub mod error;
pub mod finite;
pub mod playback_position;
pub mod ring;
pub mod spatial_scene;
pub mod static_sound;
pub mod streaming;
pub mod symphonia;
pub mod time;
pub mod transport;

use vstd::prelude::*;

pub use error::FromFileError;
pub use playback_position::PlaybackPosition;

verus! {

/// The playback state of a sound.
#[derive(Debug, Clone, Copy, PartialEq, Eq, Structural)]
pub enum PlaybackState {
    /// The sound is playing normally.
    Playing,
    /// The sound is fading out, and when the fade-out
    /// is finished, playback will pause.
    Pausing,
    /// Playback is paused.
    Paused,
    /// The sound is paused and waiting for its start time.
    WaitingToResume,
    /// The sound is fading back in after being paused.
    Resuming,
    /// The sound is fading out, and when the fade-out
    /// is finished, playback will stop.
    Stopping,
    /// The sound has stopped and can no longer be resumed.
    Stopped,
}

impl PlaybackState {
    /// The number that stands for the state when it is shared between threads.
    pub open spec fn spec_code(self) -> u8 {
        match self {
            PlaybackState::Playing => 0,
            PlaybackState::Pausing => 1,
            PlaybackState::Paused => 2,
            PlaybackState::WaitingToResume => 3,
            PlaybackState::Resuming => 4,
            PlaybackState::Stopping => 5,
            PlaybackState::Stopped => 6,
        }
    }

    /// Returns the number that stands for the state when it is shared
    /// between threads.
    pub fn code(self) -> (code: u8)
        ensures
            code == self.spec_code(),
            code < 7,
    {
        match self {
            PlaybackState::Playing => 0,
            PlaybackState::Pausing => 1,
            PlaybackState::Paused => 2,
            PlaybackState::WaitingToResume => 3,
            PlaybackState::Resuming => 4,
            PlaybackState::Stopping => 5,
            PlaybackState::Stopped => 6,
        }
    }

    /// Returns the state that `code` stands for.
    pub fn from_code(code: u8) -> (state: PlaybackState)
        requires
            code < 7,
        ensures
            state.spec_code() == code,
    {
        match code {
            0 => PlaybackState::Playing,
            1 => PlaybackState::Pausing,
            2 => PlaybackState::Paused,
            3 => PlaybackState::WaitingToResume,
            4 => PlaybackState::Resuming,
            5 => PlaybackState::Stopping,
            _ => PlaybackState::Stopped,
        }
    }

    /// Whether the sound is producing audio and moving its playback
    /// position in this state.
    pub open spec fn spec_is_advancing(self) -> bool {
        match self {
            PlaybackState::Playing | PlaybackState::Pausing | PlaybackState::Resuming
            | PlaybackState::Stopping => true,
            _ => false,
        }
    }

    /// Returns whether the sound is producing audio and moving its
    /// playback position in this state.
    pub fn is_advancing(self) -> (advancing: bool)
        ensures
            advancing == self.spec_is_advancing(),
    {
        match self {
            PlaybackState::Playing | PlaybackState::Pausing | PlaybackState::Resuming
            | PlaybackState::Stopping => true,
            _ => false,
        }
    }
}

/// Returns the state that a shared `code` stands for; a code that no state
/// stands for reads as `Stopped`.
pub fn state_from_code(code: u8) -> (state: PlaybackState)
    ensures
        code < 7 ==> state.spec_code() == code,
        code >= 7 ==> state == PlaybackState::Stopped,
{
    if code < 7 {
        PlaybackState::from_code(code)
    } else {
        PlaybackState::Stopped
    }
}

/// A sound advances (produces audio and moves its position) in every state
/// but the resting ones: it keeps advancing while it fades in or out on its
/// way to being paused, resumed or stopped, and only paused, waiting or
/// stopped sounds stand still.
pub proof fn lemma_only_resting_states_stand_still(state: PlaybackState)
    ensures
        state.spec_is_advancing() <==> !(state == PlaybackState::Paused || state
            == PlaybackState::WaitingToResume || state == PlaybackState::Stopped),
        PlaybackState::Pausing.spec_is_advancing(),
        PlaybackState::Resuming.spec_is_advancing(),
        PlaybackState::Stopping.spec_is_advancing(),
{
}

/// Decoding the code of a state gives the state back, and distinct states
/// have distinct codes.
pub proof fn lemma_code_round_trip(state: PlaybackState, other: PlaybackState)
    ensures
        state.spec_code() < 7,
        state != other ==> state.spec_code() != other.spec_code(),
{
}

/// The end of a region of audio.
#[derive(Debug, Clone, Copy, PartialEq, Eq, Structural)]
pub enum EndPosition {
    /// The end of the audio data.
    EndOfAudio,
    /// A custom point in the audio.
    Custom(PlaybackPosition),
}

/// A portion of audio, from `start` up to (but not including) `end`.
#[derive(Debug, Clone, Copy, PartialEq, Eq, Structural)]
pub struct Region {
    /// The starting point of the region.
    pub start: PlaybackPosition,
    /// The ending point of the region.
    pub end: EndPosition,
}

} // verus!
