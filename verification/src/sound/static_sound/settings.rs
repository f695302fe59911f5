use vstd::prelude::*;

use crate::sound::{PlaybackPosition, Region};

verus! {

/// Settings for a static sound: where playback starts, which portion
/// loops, and whether it plays in reverse.
#[derive(Debug, Clone, Copy, PartialEq, Eq, Structural)]
pub struct StaticSoundSettings {
    /// Where in the sound playback should start.
    pub start_position: PlaybackPosition,
    /// The portion of the sound that should be looped.
    pub loop_region: Option<Region>,
    /// Whether the sound should be played in reverse.
    pub reverse: bool,
}

impl StaticSoundSettings {
    /// The default settings: start at the beginning, no loop, forward.
    pub open spec fn spec_default() -> Self {
        StaticSoundSettings {
            start_position: PlaybackPosition::Samples(0),
            loop_region: None,
            reverse: false,
        }
    }

    /// Creates a new [`StaticSoundSettings`] with the default settings.
    #[must_use]
    pub fn new() -> (settings: Self)
        ensures
            settings == Self::spec_default(),
    {
        Self { start_position: PlaybackPosition::Samples(0), loop_region: None, reverse: false }
    }

    /// Sets where in the sound playback should start.
    #[must_use]
    pub fn start_position(self, start_position: PlaybackPosition) -> (settings: Self)
        ensures
            settings == (Self { start_position, ..self }),
    {
        Self { start_position, ..self }
    }

    /// Sets whether the sound should be played in reverse.
    #[must_use]
    pub fn reverse(self, reverse: bool) -> (settings: Self)
        ensures
            settings == (Self { reverse, ..self }),
    {
        Self { reverse, ..self }
    }

    /// Sets the portion of the sound that should be looped.
    #[must_use]
    pub fn loop_region(self, loop_region: Option<Region>) -> (settings: Self)
        ensures
            settings == (Self { loop_region, ..self }),
    {
        Self { loop_region, ..self }
    }
}

impl Default for StaticSoundSettings {
    fn default() -> (settings: Self)
        ensures
            settings == Self::spec_default(),
    {
        Self::new()
    }
}

} // verus!
