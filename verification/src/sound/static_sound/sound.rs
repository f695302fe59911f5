pub mod resampler;

use vstd::prelude::*;

use std::sync::atomic::AtomicU64;
use std::sync::atomic::AtomicU8;
use std::sync::atomic::Ordering;
use std::sync::Arc;

use crate::sound::static_sound::data::{
    frame_at_index, num_frames, slice_in_bounds, slice_len, slice_start, sliced_frame,
};
use crate::sound::static_sound::StaticSoundData;
use crate::sound::transport::{
    loop_bounds, loop_is_well_formed, loop_well_formed, region_bounds, steps_transport,
    usable_loop, Transport,
};
use crate::sound::{state_from_code, PlaybackState};

use self::resampler::{time_after_push, Resampler};

verus! {

/// Playback information that a static sound shares with its handle.
#[derive(Debug)]
pub struct Shared {
    state: AtomicU8,
    position: AtomicU64,
}

impl Shared {
    /// Creates the shared information of a sound that is playing from
    /// position zero (whose bits are all zero).
    #[must_use]
    pub fn new() -> Self {
        Self { state: AtomicU8::new(0), position: AtomicU64::new(0) }
    }

    /// Returns the current playback state of the sound. The state is
    /// written by the sound on another thread, so nothing is known of it
    /// here; a number that no state stands for reads as `Stopped`.
    #[must_use]
    pub fn state(&self) -> PlaybackState {
        let code = self.state.load(Ordering::SeqCst);
        state_from_code(code)
    }

    /// Publishes the playback state of the sound.
    pub fn set_state(&self, state: PlaybackState) {
        self.state.store(state.code(), Ordering::SeqCst);
    }

    /// Returns the bits of the published playback position (in seconds).
    #[must_use]
    pub fn position_bits(&self) -> u64 {
        self.position.load(Ordering::SeqCst)
    }

    /// Publishes the bits of the playback position (in seconds).
    pub fn set_position_bits(&self, bits: u64) {
        self.position.store(bits, Ordering::SeqCst);
    }
}

/// Calls `Arc::clone`, which returns another handle to the same value.
#[verifier::external_body]
fn share<T>(value: &Arc<T>) -> (shared: Arc<T>)
    ensures
        shared == *value,
{
    Arc::clone(value)
}

/// Where a transport for `data` starts.
pub open spec fn starting_position<F>(data: StaticSoundData<F>, num_frames: int) -> int {
    let start = data.settings.start_position.samples();
    if data.settings.reverse {
        num_frames - 1 - start
    } else {
        start as int
    }
}

/// The transport of a sound that plays `data`, before any frame is played.
pub open spec fn initial_transport<F>(data: StaticSoundData<F>) -> Transport {
    let num_frames = slice_len(data.frames@.len(), data.slice);
    Transport {
        position: starting_position(data, num_frames) as i64,
        loop_region: usable_loop(loop_bounds(data.settings.loop_region, num_frames as i64)),
        playing: true,
        num_frames: num_frames as i64,
    }
}

/// How many more pushes of no frame it takes until the resampler of a
/// sound empties, after `steps` updates from `transport` when it took
/// `time`: each update pushes a frame exactly when the transport is
/// playing.
pub open spec fn time_after_updates(transport: Transport, backwards: bool, time: nat, steps: nat) -> nat
    decreases steps,
{
    if steps == 0 {
        time
    } else {
        time_after_push(
            time_after_updates(transport, backwards, time, (steps - 1) as nat),
            steps_transport(transport, backwards, (steps - 1) as nat).playing,
        )
    }
}

/// Whether a sound has stopped after `steps` updates from `transport`
/// with `time` pushes left until its resampler empties: its transport has
/// stopped and its resampler holds only silence.
pub open spec fn stopped_after_updates(transport: Transport, backwards: bool, time: nat, steps: nat) -> bool {
    &&& !steps_transport(transport, backwards, steps).playing
    &&& time_after_updates(transport, backwards, time, steps) == 0
}

/// The number of frames left to play from the transport's position: to the
/// end of the audio going forward, to its start going backward.
pub open spec fn frames_left(transport: Transport, backwards: bool) -> int {
    if backwards {
        transport.position + 1
    } else {
        transport.num_frames - transport.position
    }
}

/// Where the transport and the resampler stand after `steps` updates,
/// without a loop region: one frame further per update until the frames
/// run out, then four more updates while the resampler plays out.
proof fn lemma_updates_without_loop(transport: Transport, backwards: bool, time: nat, steps: nat)
    requires
        transport.playing,
        transport.loop_region is None,
        0 <= transport.position < transport.num_frames,
    ensures
        steps < frames_left(transport, backwards) ==> {
            &&& steps_transport(transport, backwards, steps).playing
            &&& steps_transport(transport, backwards, steps).position == (if backwards {
                transport.position - steps
            } else {
                transport.position + steps
            })
            &&& steps_transport(transport, backwards, steps).loop_region is None
            &&& steps_transport(transport, backwards, steps).num_frames == transport.num_frames
        },
        steps >= frames_left(transport, backwards) ==> !steps_transport(
            transport,
            backwards,
            steps,
        ).playing,
        0 < steps <= frames_left(transport, backwards) ==> time_after_updates(
            transport,
            backwards,
            time,
            steps,
        ) == 4,
        steps > frames_left(transport, backwards) ==> time_after_updates(
            transport,
            backwards,
            time,
            steps,
        ) == (if steps - frames_left(transport, backwards) >= 4 {
            0
        } else {
            4 - (steps - frames_left(transport, backwards))
        }),
    decreases steps,
{
    if steps > 0 {
        lemma_updates_without_loop(transport, backwards, time, (steps - 1) as nat);
    }
}

/// A sound without a loop region stops exactly after one update per frame
/// left to play plus four more, while its resampler plays out the last
/// frames pushed to it; it is still playing after any fewer updates, and
/// stays stopped after more.
pub proof fn lemma_stops_after_playing_out(transport: Transport, backwards: bool, time: nat, steps: nat)
    requires
        transport.playing,
        transport.loop_region is None,
        0 <= transport.position < transport.num_frames,
    ensures
        stopped_after_updates(transport, backwards, time, steps) <==> steps >= frames_left(
            transport,
            backwards,
        ) + 4,
{
    lemma_updates_without_loop(transport, backwards, time, steps);
}

/// A loop region that lies within the sound (from frame 0 at the earliest
/// to the end of the audio at the latest) and is not empty is kept: the
/// transport of a sound that plays `data` loops over exactly that region,
/// however many steps it has taken.
pub proof fn lemma_loop_region_kept<F>(data: StaticSoundData<F>, backwards: bool, steps: nat)
    requires
        data.settings.loop_region is Some,
        slice_len(data.frames@.len(), data.slice) <= i64::MAX,
        0 <= region_bounds(
            data.settings.loop_region->0,
            slice_len(data.frames@.len(), data.slice) as i64,
        ).0,
        region_bounds(
            data.settings.loop_region->0,
            slice_len(data.frames@.len(), data.slice) as i64,
        ).0 < region_bounds(
            data.settings.loop_region->0,
            slice_len(data.frames@.len(), data.slice) as i64,
        ).1,
    ensures
        steps_transport(initial_transport(data), backwards, steps).loop_region == Some(
            region_bounds(
                data.settings.loop_region->0,
                slice_len(data.frames@.len(), data.slice) as i64,
            ),
        ),
    decreases steps,
{
    if steps > 0 {
        lemma_loop_region_kept(data, backwards, (steps - 1) as nat);
    }
}

/// Whether `data` can be played: its slice lies within its frames, its
/// frame count fits the transport and its start position leaves room for
/// one step in either direction.
pub open spec fn playable<F>(data: StaticSoundData<F>) -> bool {
    let num_frames = slice_len(data.frames@.len(), data.slice);
    &&& slice_in_bounds(data.frames@.len(), data.slice)
    &&& data.frames@.len() <= i64::MAX
    &&& i64::MIN < starting_position(data, num_frames) < i64::MAX
}

/// Whether `resampler` holds only default (silent) frames, all tagged with
/// `index`, and is empty.
pub open spec fn fresh_resampler<F: Copy + Default>(resampler: Resampler<F>, index: i64) -> bool {
    &&& resampler.recent().len() == 4
    &&& forall|i: int|
        0 <= i < 4 ==> {
            &&& #[trigger] resampler.recent()[i].frame_index == index
            &&& F::default.ensures((), resampler.recent()[i].frame)
        }
    &&& resampler.spec_time_until_empty() == 0
}

/// Whether `resampler` is what a fresh resampler at the position of
/// `transport` becomes after `steps` updates of a sound playing `frames`
/// (cut to `slice`) from `transport`: each update pushes the frame at the
/// transport's position (see [`frame_to_push`]) and then moves the
/// transport one step.
pub open spec fn filled_resampler<F: Copy + Default>(
    resampler: Resampler<F>,
    frames: Seq<F>,
    slice: Option<(usize, usize)>,
    transport: Transport,
    backwards: bool,
    steps: nat,
) -> bool
    decreases steps,
{
    if steps == 0 {
        fresh_resampler(resampler, transport.position)
    } else {
        let at = steps_transport(transport, backwards, (steps - 1) as nat);
        exists|before: Resampler<F>|
            filled_resampler(before, frames, slice, transport, backwards, (steps - 1) as nat)
                && #[trigger] pushed_frame(
                before,
                resampler,
                frame_to_push(frames, slice, at),
                at.position,
            )
    }
}

/// The frame that is pushed to the resampler when the transport is at
/// `transport`: the sliced frame at its position while it plays (`None`
/// inside the `Some` when the position is outside the audio), nothing once
/// it has stopped.
pub open spec fn frame_to_push<F>(
    frames: Seq<F>,
    slice: Option<(usize, usize)>,
    transport: Transport,
) -> Option<Option<F>> {
    if transport.playing {
        Some(sliced_frame(frames, slice, transport.position as int))
    } else {
        None
    }
}

/// Plays back a static sound one frame at a time: a transport moves
/// through the frames and a resampler keeps the most recent ones.
pub struct StaticSound<F> {
    sample_rate: u32,
    frames: Arc<Vec<F>>,
    slice: Option<(usize, usize)>,
    reverse: bool,
    state: PlaybackState,
    resampler: Resampler<F>,
    transport: Transport,
    shared: Arc<Shared>,
}

impl<F: Copy + Default> StaticSound<F> {
    /// The frames of the sound.
    pub closed spec fn spec_frames(&self) -> Seq<F> {
        self.frames@
    }

    /// The portion of the frames that is played.
    pub closed spec fn spec_slice(&self) -> Option<(usize, usize)> {
        self.slice
    }

    /// Whether the sound plays in reverse.
    pub closed spec fn spec_reverse(&self) -> bool {
        self.reverse
    }

    /// The playback state of the sound.
    pub closed spec fn spec_state(&self) -> PlaybackState {
        self.state
    }

    /// The transport of the sound.
    pub closed spec fn spec_transport(&self) -> Transport {
        self.transport
    }

    /// The resampler of the sound.
    pub closed spec fn spec_resampler(&self) -> Resampler<F> {
        self.resampler
    }

    /// The information the sound shares with its handle.
    pub closed spec fn spec_shared(&self) -> Arc<Shared> {
        self.shared
    }

    /// The sample rate of the sound.
    pub closed spec fn spec_sample_rate(&self) -> u32 {
        self.sample_rate
    }

    /// The state that the playback logic keeps: the slice lies within the
    /// frames, the transport covers the slice, the loop region is
    /// non-empty, a playing position leaves room for one more step, and
    /// the resampler holds four frames.
    pub closed spec fn wf(&self) -> bool {
        &&& slice_in_bounds(self.frames@.len(), self.slice)
        &&& self.frames@.len() <= i64::MAX
        &&& self.transport.num_frames == slice_len(self.frames@.len(), self.slice)
        &&& loop_well_formed(self.transport.loop_region)
        &&& self.transport.playing ==> i64::MIN < self.transport.position < i64::MAX
        &&& self.resampler.recent().len() == 4
        &&& self.resampler.spec_time_until_empty() <= 4
    }

    /// Whether the sound moves backward through its frames: it does when
    /// exactly one of "the playback rate is negative" and "the sound is
    /// reversed" holds.
    pub open spec fn spec_is_playing_backwards(&self, playback_rate_is_negative: bool) -> bool {
        playback_rate_is_negative != self.spec_reverse()
    }

    /// Creates a sound that plays `data`, and fills its resampler with
    /// three frames so that playback can start immediately.
    /// `playback_rate_is_negative` gives the sign of the initial playback
    /// rate. An empty or reversed loop region, which could never be left
    /// once reached, is dropped.
    #[must_use]
    pub fn new(data: StaticSoundData<F>, playback_rate_is_negative: bool) -> (sound: Self)
        requires
            playable(data),
        ensures
            sound.wf(),
            sound.spec_frames() == data.frames@,
            sound.spec_slice() == data.slice,
            sound.spec_reverse() == data.settings.reverse,
            sound.spec_sample_rate() == data.sample_rate,
            sound.spec_transport().num_frames == slice_len(data.frames@.len(), data.slice),
            sound.spec_transport() == steps_transport(
                initial_transport(data),
                playback_rate_is_negative != data.settings.reverse,
                3,
            ),
            filled_resampler(
                sound.spec_resampler(),
                data.frames@,
                data.slice,
                initial_transport(data),
                playback_rate_is_negative != data.settings.reverse,
                3,
            ),
            sound.spec_state() == PlaybackState::Playing,
    {
        let frame_count = num_frames(data.frames.as_slice(), data.slice) as i64;
        let mut transport = Transport::new(
            frame_count,
            data.settings.loop_region,
            data.settings.reverse,
            data.sample_rate,
            data.settings.start_position.into_samples(data.sample_rate),
        );
        if !loop_is_well_formed(transport.loop_region) {
            transport.set_loop_region(None, data.sample_rate, frame_count);
        }
        let starting_frame_index = transport.position;
        let mut sound = Self {
            sample_rate: data.sample_rate,
            frames: data.frames,
            slice: data.slice,
            reverse: data.settings.reverse,
            state: PlaybackState::Playing,
            resampler: Resampler::new(starting_frame_index),
            transport,
            shared: Arc::new(Shared::new()),
        };
        let mut i: usize = 0;
        while i < 3
            invariant
                sound.wf(),
                sound.spec_frames() == data.frames@,
                sound.spec_slice() == data.slice,
                sound.spec_reverse() == data.settings.reverse,
                sound.spec_sample_rate() == data.sample_rate,
                sound.spec_transport().num_frames == slice_len(data.frames@.len(), data.slice),
                i <= 3,
                sound.spec_transport() == steps_transport(
                    initial_transport(data),
                    playback_rate_is_negative != data.settings.reverse,
                    i as nat,
                ),
                filled_resampler(
                    sound.spec_resampler(),
                    data.frames@,
                    data.slice,
                    initial_transport(data),
                    playback_rate_is_negative != data.settings.reverse,
                    i as nat,
                ),
                sound.spec_state() == PlaybackState::Playing,
                i > 0 ==> sound.spec_resampler().spec_time_until_empty() >= 5 - i,
            decreases 3 - i,
        {
            let ghost before = sound.spec_resampler();
            let ghost at = sound.spec_transport();
            sound.update_position(playback_rate_is_negative);
            proof {
                let next = (i + 1) as nat;
                assert((next - 1) as nat == i as nat);
                assert(pushed_frame(
                    before,
                    sound.spec_resampler(),
                    frame_to_push(data.frames@, data.slice, at),
                    at.position,
                ));
            }
            i = i + 1;
        }
        sound
    }

    /// Returns another handle to the information this sound shares.
    #[must_use]
    pub fn shared(&self) -> (shared: Arc<Shared>)
        ensures
            shared == self.spec_shared(),
    {
        share(&self.shared)
    }

    /// Returns the resampler of the sound, for interpolating its output.
    #[must_use]
    pub fn resampler(&self) -> (resampler: &Resampler<F>)
        ensures
            *resampler == self.spec_resampler(),
    {
        &self.resampler
    }

    /// Returns the transport of the sound.
    #[must_use]
    pub fn transport(&self) -> (transport: Transport)
        ensures
            transport == self.spec_transport(),
    {
        self.transport
    }

    /// Returns the sample rate of the sound.
    #[must_use]
    pub fn sample_rate(&self) -> (sample_rate: u32)
        ensures
            sample_rate == self.spec_sample_rate(),
    {
        self.sample_rate
    }

    /// Returns the playback state of the sound.
    #[must_use]
    pub fn state(&self) -> (state: PlaybackState)
        ensures
            state == self.spec_state(),
    {
        self.state
    }

    /// Returns whether the sound moves backward through its frames.
    #[must_use]
    pub fn is_playing_backwards(&self, playback_rate_is_negative: bool) -> (backwards: bool)
        ensures
            backwards == self.spec_is_playing_backwards(playback_rate_is_negative),
    {
        let mut is_playing_backwards = playback_rate_is_negative;
        if self.reverse {
            is_playing_backwards = !is_playing_backwards;
        }
        is_playing_backwards
    }

    /// Marks the sound as stopped and publishes the new state.
    pub fn mark_as_stopped(&mut self)
        ensures
            final(self).spec_state() == PlaybackState::Stopped,
            final(self).spec_frames() == old(self).spec_frames(),
            final(self).spec_slice() == old(self).spec_slice(),
            final(self).spec_reverse() == old(self).spec_reverse(),
            final(self).spec_sample_rate() == old(self).spec_sample_rate(),
            final(self).spec_transport() == old(self).spec_transport(),
            final(self).spec_resampler() == old(self).spec_resampler(),
            old(self).wf() ==> final(self).wf(),
    {
        self.state = PlaybackState::Stopped;
        self.shared.set_state(PlaybackState::Stopped);
    }

    /// Pushes the frame at the transport's position to the resampler (a
    /// default frame outside the audio), or nothing once the transport has
    /// stopped.
    fn push_frame_to_resampler(&mut self)
        requires
            old(self).wf(),
        ensures
            final(self).wf(),
            final(self).spec_frames() == old(self).spec_frames(),
            final(self).spec_slice() == old(self).spec_slice(),
            final(self).spec_reverse() == old(self).spec_reverse(),
            final(self).spec_sample_rate() == old(self).spec_sample_rate(),
            final(self).spec_state() == old(self).spec_state(),
            final(self).spec_transport() == old(self).spec_transport(),
            pushed_frame(
                old(self).spec_resampler(),
                final(self).spec_resampler(),
                frame_to_push(old(self).spec_frames(), old(self).spec_slice(), old(self).spec_transport()),
                old(self).spec_transport().position,
            ),
    {
        let frame = if self.transport.playing {
            let found = if 0 <= self.transport.position && self.transport.position
                < self.transport.num_frames {
                let total = self.frames.len();
                assert(self.transport.num_frames <= total);
                frame_at_index(self.transport.position as usize, self.frames.as_slice(), self.slice)
            } else {
                None
            };
            Some(found.unwrap_or_default())
        } else {
            None
        };
        self.resampler.push_frame(frame, self.transport.position);
    }

    /// Pushes a frame to the resampler and moves the transport one frame
    /// in the direction of playback; once the transport has stopped and
    /// the resampler holds only silence, the sound is stopped.
    pub fn update_position(&mut self, playback_rate_is_negative: bool)
        requires
            old(self).wf(),
        ensures
            final(self).wf(),
            final(self).spec_frames() == old(self).spec_frames(),
            final(self).spec_slice() == old(self).spec_slice(),
            final(self).spec_reverse() == old(self).spec_reverse(),
            final(self).spec_sample_rate() == old(self).spec_sample_rate(),
            pushed_frame(
                old(self).spec_resampler(),
                final(self).spec_resampler(),
                frame_to_push(old(self).spec_frames(), old(self).spec_slice(), old(self).spec_transport()),
                old(self).spec_transport().position,
            ),
            final(self).spec_transport() == (if old(self).spec_is_playing_backwards(
                playback_rate_is_negative,
            ) {
                old(self).spec_transport().decremented()
            } else {
                old(self).spec_transport().incremented()
            }),
            final(self).spec_state() == (if !final(self).spec_transport().playing
                && final(self).spec_resampler().spec_time_until_empty() == 0 {
                PlaybackState::Stopped
            } else {
                old(self).spec_state()
            }),
    {
        self.push_frame_to_resampler();
        if self.is_playing_backwards(playback_rate_is_negative) {
            self.transport.decrement_position();
        } else {
            self.transport.increment_position();
        }
        if !self.transport.playing && self.resampler.empty() {
            self.mark_as_stopped();
        }
    }

    /// Moves the transport to `index` and, while the sound is advancing,
    /// pushes the frame there to the resampler so that it is not skipped.
    pub fn seek_to_index(&mut self, index: i64)
        requires
            old(self).wf(),
        ensures
            final(self).wf(),
            final(self).spec_frames() == old(self).spec_frames(),
            final(self).spec_slice() == old(self).spec_slice(),
            final(self).spec_reverse() == old(self).spec_reverse(),
            final(self).spec_sample_rate() == old(self).spec_sample_rate(),
            final(self).spec_state() == old(self).spec_state(),
            final(self).spec_transport() == old(self).spec_transport().seeked(index),
            old(self).spec_state().spec_is_advancing() ==> pushed_frame(
                old(self).spec_resampler(),
                final(self).spec_resampler(),
                frame_to_push(old(self).spec_frames(), old(self).spec_slice(), final(self).spec_transport()),
                final(self).spec_transport().position,
            ),
            !old(self).spec_state().spec_is_advancing() ==> final(self).spec_resampler() == old(
                self,
            ).spec_resampler(),
    {
        self.transport.seek_to(index);
        if self.state.is_advancing() {
            self.push_frame_to_resampler();
        }
    }

    /// Returns whether the sound has stopped and can be removed.
    #[must_use]
    pub fn finished(&self) -> (finished: bool)
        ensures
            finished == (self.spec_state() == PlaybackState::Stopped),
    {
        self.state == PlaybackState::Stopped
    }
}

/// Whether `after` is `before` with `frame` pushed at `index`: `Some`
/// frames are pushed as they are, `Some(None)` and `None` push a default
/// frame, and only `None` counts toward the resampler emptying.
pub open spec fn pushed_frame<F: Copy + Default>(
    before: Resampler<F>,
    after: Resampler<F>,
    frame: Option<Option<F>>,
    index: i64,
) -> bool {
    &&& after.recent().len() == 4
    &&& after.recent().subrange(0, 3) == before.recent().subrange(1, 4)
    &&& after.recent()[3].frame_index == index
    &&& match frame {
        Some(Some(f)) => after.recent()[3].frame == f,
        _ => F::default.ensures((), after.recent()[3].frame),
    }
    &&& after.spec_time_until_empty() == time_after_push(
        before.spec_time_until_empty(),
        frame is Some,
    )
}

impl<F: Copy + Default> StaticSoundData<F> {
    /// Splits the data into a sound that can be played.
    pub fn split(self, playback_rate_is_negative: bool) -> (split: (StaticSound<F>, ()))
        requires
            playable(self),
        ensures
            split.0.wf(),
            split.0.spec_frames() == self.frames@,
            split.0.spec_slice() == self.slice,
            split.0.spec_reverse() == self.settings.reverse,
            split.0.spec_sample_rate() == self.sample_rate,
            split.0.spec_transport() == steps_transport(
                initial_transport(self),
                playback_rate_is_negative != self.settings.reverse,
                3,
            ),
            filled_resampler(
                split.0.spec_resampler(),
                self.frames@,
                self.slice,
                initial_transport(self),
                playback_rate_is_negative != self.settings.reverse,
                3,
            ),
            split.0.spec_state() == PlaybackState::Playing,
    {
        let sound = StaticSound::new(self, playback_rate_is_negative);
        (sound, ())
    }
}

} // verus!
