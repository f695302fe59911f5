//! Playback logic for sounds: transports that loop and stop, sliced
//! sound data, resamplers and shared playback state.
pub mod sound;
