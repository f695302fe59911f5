use vstd::prelude::*;

use super::{EndPosition, Region};

verus! {

/// `position` moved back by whole loop lengths until it is before `end`.
/// A position that is already before `end` is unchanged.
pub open spec fn wrap_forward(position: int, start: int, end: int) -> int {
    if position < end {
        position
    } else {
        start + (position - start) % (end - start)
    }
}

/// `position` moved forward by whole loop lengths until it is at or after
/// `start`. A position that is already at or after `start` is unchanged.
pub open spec fn wrap_backward(position: int, start: int, end: int) -> int {
    if position >= start {
        position
    } else {
        start + (position - start) % (end - start)
    }
}

/// The sample bounds of a loop region: the end of the audio is `num_frames`.
pub open spec fn region_bounds(region: Region, num_frames: i64) -> (i64, i64) {
    (
        region.start.samples(),
        match region.end {
            EndPosition::EndOfAudio => num_frames,
            EndPosition::Custom(end) => end.samples(),
        },
    )
}

/// The sample bounds of an optional loop region.
pub open spec fn loop_bounds(loop_region: Option<Region>, num_frames: i64) -> Option<(i64, i64)> {
    match loop_region {
        Some(region) => Some(region_bounds(region, num_frames)),
        None => None,
    }
}

/// Whether moving to `position` by wrapping forward terminates without
/// overflow: it does whenever no wrap is needed, or the loop is non-empty.
pub open spec fn forward_wrap_defined(loop_region: Option<(i64, i64)>, position: int) -> bool {
    match loop_region {
        Some((start, end)) => position >= end ==> (start < end && end - start <= i64::MAX),
        None => true,
    }
}

/// Whether moving to `position` by wrapping backward terminates without
/// overflow.
pub open spec fn backward_wrap_defined(loop_region: Option<(i64, i64)>, position: int) -> bool {
    match loop_region {
        Some((start, end)) => position < start ==> (start < end && end - start <= i64::MAX),
        None => true,
    }
}

/// Whether a loop region is non-empty and its bounds leave room for the
/// transport's arithmetic.
pub open spec fn loop_well_formed(loop_region: Option<(i64, i64)>) -> bool {
    match loop_region {
        Some((start, end)) => i64::MIN < start < end && end - start <= i64::MAX,
        None => true,
    }
}

/// Returns whether a loop region is non-empty and its bounds leave room
/// for the transport's arithmetic.
pub fn loop_is_well_formed(loop_region: Option<(i64, i64)>) -> (well_formed: bool)
    ensures
        well_formed == loop_well_formed(loop_region),
{
    match loop_region {
        Some((start, end)) => i64::MIN < start && start < end && (end as i128) - (start as i128)
            <= 9_223_372_036_854_775_807i128,
        None => true,
    }
}

/// The loop bounds that playback uses: well-formed bounds as they are, and
/// no loop in place of an empty or reversed region.
pub open spec fn usable_loop(bounds: Option<(i64, i64)>) -> Option<(i64, i64)> {
    if loop_well_formed(bounds) {
        bounds
    } else {
        None
    }
}

/// Keeps track of the playback position of a sound, looping it within
/// its loop region and stopping it once it leaves the audio.
#[derive(Debug, Clone, Copy)]
pub struct Transport {
    /// The index of the current frame.
    pub position: i64,
    /// The start and end frames of the sound that should be looped. The upper bound
    /// is *exclusive*.
    pub loop_region: Option<(i64, i64)>,
    /// Whether playback is still going.
    pub playing: bool,
    /// The number of frames of audio.
    pub num_frames: i64,
}

impl Transport {
    /// `position` wrapped forward into the loop region, if there is one.
    pub open spec fn loop_forward(self, position: int) -> int {
        match self.loop_region {
            Some((start, end)) => wrap_forward(position, start as int, end as int),
            None => position,
        }
    }

    /// `position` wrapped backward into the loop region, if there is one.
    pub open spec fn loop_backward(self, position: int) -> int {
        match self.loop_region {
            Some((start, end)) => wrap_backward(position, start as int, end as int),
            None => position,
        }
    }

    /// The transport after moving one frame forward.
    pub open spec fn incremented(self) -> Transport {
        if !self.playing {
            self
        } else {
            let position = self.loop_forward(self.position + 1);
            Transport {
                position: position as i64,
                loop_region: self.loop_region,
                playing: position < self.num_frames,
                num_frames: self.num_frames,
            }
        }
    }

    /// The transport after moving one frame backward.
    pub open spec fn decremented(self) -> Transport {
        if !self.playing {
            self
        } else {
            let position = self.loop_backward(self.position - 1);
            Transport {
                position: position as i64,
                loop_region: self.loop_region,
                playing: position >= 0,
                num_frames: self.num_frames,
            }
        }
    }

    /// Where a seek to `position` lands: a seek forward wraps back from the
    /// end of the loop region, a seek backward wraps forward from its start.
    pub open spec fn seek_target(self, position: i64) -> int {
        if position > self.position {
            self.loop_forward(position as int)
        } else {
            self.loop_backward(position as int)
        }
    }

    /// The transport after seeking to `position`.
    pub open spec fn seeked(self, position: i64) -> Transport {
        let target = self.seek_target(position);
        Transport {
            position: target as i64,
            loop_region: self.loop_region,
            playing: self.playing && 0 <= target < self.num_frames,
            num_frames: self.num_frames,
        }
    }

    /// Whether a seek to `position` terminates without overflow.
    pub open spec fn seek_defined(self, position: i64) -> bool {
        if position > self.position {
            forward_wrap_defined(self.loop_region, position as int)
        } else {
            backward_wrap_defined(self.loop_region, position as int)
        }
    }

    /// Creates a transport for audio of `num_frames` frames that starts at
    /// `start_position` (counted from the end when `reverse` is set).
    #[must_use]
    pub fn new(
        num_frames: i64,
        loop_region: Option<Region>,
        reverse: bool,
        sample_rate: u32,
        start_position: i64,
    ) -> (transport: Self)
        requires
            reverse ==> num_frames > i64::MIN,
            reverse ==> i64::MIN <= num_frames - 1 - start_position <= i64::MAX,
        ensures
            transport.position == (if reverse {
                num_frames - 1 - start_position
            } else {
                start_position as int
            }),
            transport.loop_region == loop_bounds(loop_region, num_frames),
            transport.playing,
            transport.num_frames == num_frames,
    {
        let loop_region = Self::region_to_bounds(loop_region, sample_rate, num_frames);
        Self {
            position: if reverse {
                num_frames - 1 - start_position
            } else {
                start_position
            },
            loop_region,
            playing: true,
            num_frames,
        }
    }

    fn region_to_bounds(loop_region: Option<Region>, sample_rate: u32, num_frames: i64) -> (bounds:
        Option<(i64, i64)>)
        ensures
            bounds == loop_bounds(loop_region, num_frames),
    {
        match loop_region {
            Some(region) => {
                let loop_start = region.start.into_samples(sample_rate);
                let loop_end = match region.end {
                    EndPosition::EndOfAudio => num_frames,
                    EndPosition::Custom(end_position) => end_position.into_samples(sample_rate),
                };
                Some((loop_start, loop_end))
            },
            None => None,
        }
    }

    /// Replaces the loop region.
    pub fn set_loop_region(&mut self, loop_region: Option<Region>, sample_rate: u32, num_frames: i64)
        ensures
            final(self).loop_region == loop_bounds(loop_region, num_frames),
            final(self).position == old(self).position,
            final(self).playing == old(self).playing,
            final(self).num_frames == old(self).num_frames,
    {
        self.loop_region = Self::region_to_bounds(loop_region, sample_rate, num_frames);
    }

    /// Moves one frame forward, looping back to the start of the loop
    /// region at its end, and stops playback once the end of the audio
    /// is reached.
    pub fn increment_position(&mut self)
        requires
            old(self).playing ==> old(self).position < i64::MAX,
            old(self).playing ==> forward_wrap_defined(
                old(self).loop_region,
                old(self).position + 1,
            ),
        ensures
            *final(self) == old(self).incremented(),
    {
        if !self.playing {
            return;
        }
        self.position = self.position + 1;
        if let Some((loop_start, loop_end)) = self.loop_region {
            self.position = wrap_position_forward(self.position, loop_start, loop_end);
        }
        if self.position >= self.num_frames {
            self.playing = false;
        }
    }

    /// Moves one frame backward, looping forward to the end of the loop
    /// region at its start, and stops playback once the position falls
    /// before the start of the audio.
    pub fn decrement_position(&mut self)
        requires
            old(self).playing ==> old(self).position > i64::MIN,
            old(self).playing ==> backward_wrap_defined(
                old(self).loop_region,
                old(self).position - 1,
            ),
        ensures
            *final(self) == old(self).decremented(),
    {
        if !self.playing {
            return;
        }
        self.position = self.position - 1;
        if let Some((loop_start, loop_end)) = self.loop_region {
            self.position = wrap_position_backward(self.position, loop_start, loop_end);
        }
        if self.position < 0 {
            self.playing = false;
        }
    }

    /// Jumps to `position`, keeping it within the loop region in the
    /// direction of the seek, and stops playback if the new position is
    /// outside the audio.
    pub fn seek_to(&mut self, position: i64)
        requires
            old(self).seek_defined(position),
        ensures
            *final(self) == old(self).seeked(position),
    {
        let mut position = position;
        if let Some((loop_start, loop_end)) = self.loop_region {
            if position > self.position {
                position = wrap_position_forward(position, loop_start, loop_end);
            } else {
                position = wrap_position_backward(position, loop_start, loop_end);
            }
        }
        self.position = position;
        if self.position < 0 || self.position >= self.num_frames {
            self.playing = false;
        }
    }
}

fn wrap_position_forward(position: i64, loop_start: i64, loop_end: i64) -> (wrapped: i64)
    requires
        position >= loop_end ==> (loop_start < loop_end && loop_end - loop_start <= i64::MAX),
    ensures
        wrapped == wrap_forward(position as int, loop_start as int, loop_end as int),
{
    let ghost requested = position as int;
    let mut position = position;
    while position >= loop_end
        invariant
            requested >= loop_end ==> (loop_start < loop_end && loop_end - loop_start <= i64::MAX),
            requested < loop_end ==> position == requested,
            requested >= loop_end ==> position >= loop_start,
            requested >= loop_end ==> (position - loop_start) % (loop_end - loop_start) == (
            requested - loop_start) % (loop_end - loop_start),
        decreases position - loop_start,
    {
        let loop_length = loop_end - loop_start;
        proof {
            vstd::arithmetic::div_mod::lemma_mod_sub_multiples_vanish(position - loop_start, loop_length as int);
        }
        position = position - loop_length;
    }
    proof {
        if requested >= loop_end {
            vstd::arithmetic::div_mod::lemma_small_mod((position - loop_start) as nat, (loop_end - loop_start) as nat);
        }
    }
    position
}

fn wrap_position_backward(position: i64, loop_start: i64, loop_end: i64) -> (wrapped: i64)
    requires
        position < loop_start ==> (loop_start < loop_end && loop_end - loop_start <= i64::MAX),
    ensures
        wrapped == wrap_backward(position as int, loop_start as int, loop_end as int),
{
    let ghost requested = position as int;
    let mut position = position;
    while position < loop_start
        invariant
            requested < loop_start ==> (loop_start < loop_end && loop_end - loop_start <= i64::MAX),
            requested >= loop_start ==> position == requested,
            requested < loop_start ==> position < loop_end,
            requested < loop_start ==> (position - loop_start) % (loop_end - loop_start) == (
            requested - loop_start) % (loop_end - loop_start),
        decreases loop_end - position,
    {
        let loop_length = loop_end - loop_start;
        proof {
            vstd::arithmetic::div_mod::lemma_mod_add_multiples_vanish(position - loop_start, loop_length as int);
        }
        position = position + loop_length;
    }
    proof {
        if requested < loop_start {
            vstd::arithmetic::div_mod::lemma_small_mod((position - loop_start) as nat, (loop_end - loop_start) as nat);
        }
    }
    position
}

/// A wrapped position lies inside a non-empty loop region whenever the
/// wrap had to move it, and is congruent to the requested position modulo
/// the loop length.
pub proof fn lemma_wrap_in_region(position: int, start: int, end: int)
    requires
        start < end,
    ensures
        position >= end ==> start <= wrap_forward(position, start, end) < end,
        position < start ==> start <= wrap_backward(position, start, end) < end,
        start <= position < end ==> wrap_forward(position, start, end) == position,
        start <= position < end ==> wrap_backward(position, start, end) == position,
{
    vstd::arithmetic::div_mod::lemma_mod_bound(position - start, end - start);
}

/// Once playback is inside a non-empty loop region, moving one frame
/// forward or backward keeps it inside the region.
pub proof fn lemma_step_stays_in_loop(transport: Transport, start: i64, end: i64)
    requires
        transport.playing,
        transport.loop_region == Some((start, end)),
        start < end,
        start <= transport.position < end,
    ensures
        start <= transport.incremented().position < end,
        start <= transport.decremented().position < end,
{
    let len = end - start;
    vstd::arithmetic::div_mod::lemma_mod_self_0(len);
    vstd::arithmetic::div_mod::lemma_fundamental_div_mod_converse_mod(-1, len, -1, len - 1);
}

/// Inside a non-empty loop region (or with no loop region), moving one
/// frame forward and then one frame backward returns to the same frame,
/// as long as playback has not stopped on the way.
pub proof fn lemma_decrement_undoes_increment(transport: Transport)
    requires
        transport.playing,
        0 <= transport.position,
        transport.incremented().playing,
        match transport.loop_region {
            Some((start, end)) => start < end && start <= transport.position < end,
            None => true,
        },
    ensures
        transport.incremented().decremented() == transport,
{
    if let Some((start, end)) = transport.loop_region {
        let len = end - start;
        vstd::arithmetic::div_mod::lemma_mod_self_0(len);
        vstd::arithmetic::div_mod::lemma_fundamental_div_mod_converse_mod(-1, len, -1, len - 1);
    }
}

/// Inside a non-empty loop region (or with no loop region), moving one
/// frame backward and then one frame forward returns to the same frame,
/// as long as playback has not stopped on the way.
pub proof fn lemma_increment_undoes_decrement(transport: Transport)
    requires
        transport.playing,
        transport.position < transport.num_frames,
        transport.decremented().playing,
        match transport.loop_region {
            Some((start, end)) => start < end && start <= transport.position < end,
            None => true,
        },
    ensures
        transport.decremented().incremented() == transport,
{
    if let Some((start, end)) = transport.loop_region {
        let len = end - start;
        vstd::arithmetic::div_mod::lemma_mod_self_0(len);
        vstd::arithmetic::div_mod::lemma_fundamental_div_mod_converse_mod(-1, len, -1, len - 1);
    }
}

/// A stopped transport never moves and never starts playing again.
pub proof fn lemma_stopped_transport_stays_stopped(transport: Transport, position: i64)
    requires
        !transport.playing,
    ensures
        transport.incremented() == transport,
        transport.decremented() == transport,
        !transport.seeked(position).playing,
{
}

/// Seeking past the end of a non-empty loop region (when seeking forward)
/// or before its start (when seeking backward) lands inside the region.
pub proof fn lemma_seek_lands_in_loop(transport: Transport, position: i64, start: i64, end: i64)
    requires
        transport.loop_region == Some((start, end)),
        start < end,
        (position > transport.position && position >= start) || (position
            <= transport.position && position < end),
    ensures
        start <= transport.seeked(position).position < end,
{
    lemma_wrap_in_region(position as int, start as int, end as int);
}

/// A seek that does not cross the loop region's end going forward, or its
/// start going backward, lands exactly where it was asked to, and so does
/// any seek without a loop region: playback keeps going exactly when that
/// position lies within the audio.
pub proof fn lemma_seek_lands_where_asked(transport: Transport, position: i64)
    requires
        match transport.loop_region {
            Some((start, end)) => (position > transport.position && position < end) || (position
                <= transport.position && position >= start),
            None => true,
        },
    ensures
        transport.seeked(position).position == position,
        transport.seeked(position).playing == (transport.playing && 0 <= position
            < transport.num_frames),
        transport.seeked(position).loop_region == transport.loop_region,
{
}

/// A loop region that starts after `i64::MIN`, ends after it starts and is
/// no longer than `i64::MAX` frames is kept as it is, whatever its start
/// (the start of the audio included); only empty or reversed regions are
/// dropped.
pub proof fn lemma_usable_loop_keeps_proper_regions(start: i64, end: i64)
    ensures
        i64::MIN < start < end && end - start <= i64::MAX ==> usable_loop(Some((start, end)))
            == Some((start, end)),
        end <= start ==> usable_loop(Some((start, end))) is None,
        usable_loop(None) is None,
{
}

/// Without a loop region, playing forward stops exactly when the position
/// reaches the end of the audio, and playing backward stops exactly when
/// it falls before the start.
pub proof fn lemma_stops_at_bounds(transport: Transport)
    requires
        transport.playing,
        transport.loop_region is None,
        i64::MIN < transport.position < i64::MAX,
    ensures
        transport.incremented().position == transport.position + 1,
        transport.incremented().playing <==> transport.position + 1 < transport.num_frames,
        transport.decremented().position == transport.position - 1,
        transport.decremented().playing <==> transport.position >= 1,
{
}

/// `transport` after one step in the direction of playback.
pub open spec fn step_transport(transport: Transport, backwards: bool) -> Transport {
    if backwards {
        transport.decremented()
    } else {
        transport.incremented()
    }
}

/// `transport` after `steps` steps in the direction of playback.
pub open spec fn steps_transport(transport: Transport, backwards: bool, steps: nat) -> Transport
    decreases steps,
{
    if steps == 0 {
        transport
    } else {
        step_transport(steps_transport(transport, backwards, (steps - 1) as nat), backwards)
    }
}

/// Without a loop region, playing forward from any frame passes through
/// every following frame in order, one per step, and stops exactly when it
/// steps past the last frame.
pub proof fn lemma_plays_through_every_frame(transport: Transport, steps: nat)
    requires
        transport.playing,
        transport.loop_region is None,
        0 <= transport.position < transport.num_frames,
        transport.position + steps <= transport.num_frames,
    ensures
        steps_transport(transport, false, steps).position == transport.position + steps,
        steps_transport(transport, false, steps).playing <==> transport.position + steps < transport.num_frames,
        steps_transport(transport, false, steps).loop_region is None,
        steps_transport(transport, false, steps).num_frames == transport.num_frames,
    decreases steps,
{
    if steps > 0 {
        lemma_plays_through_every_frame(transport, (steps - 1) as nat);
    }
}

/// Inside a non-empty loop region that lies within the audio, playback
/// never stops: however many frames it moves, forward or backward, it
/// stays inside the region.
pub proof fn lemma_loop_plays_forever(
    transport: Transport,
    backwards: bool,
    start: i64,
    end: i64,
    steps: nat,
)
    requires
        transport.playing,
        transport.loop_region == Some((start, end)),
        0 <= start < end <= transport.num_frames,
        start <= transport.position < end,
    ensures
        steps_transport(transport, backwards, steps).playing,
        start <= steps_transport(transport, backwards, steps).position < end,
        steps_transport(transport, backwards, steps).loop_region == Some((start, end)),
        steps_transport(transport, backwards, steps).num_frames == transport.num_frames,
    decreases steps,
{
    if steps > 0 {
        lemma_loop_plays_forever(transport, backwards, start, end, (steps - 1) as nat);
        lemma_step_stays_in_loop(
            steps_transport(transport, backwards, (steps - 1) as nat),
            start,
            end,
        );
    }
}

} // verus!
