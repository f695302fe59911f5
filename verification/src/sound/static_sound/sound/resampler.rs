use vstd::prelude::*;

verus! {

/// How many more frameless pushes it takes until a resampler is empty,
/// after a push when it took `time`: four after pushing a frame, one less
/// (but not below zero) after pushing none.
pub open spec fn time_after_push(time: nat, pushed_frame: bool) -> nat {
    if pushed_frame {
        4
    } else if time == 0 {
        0
    } else {
        (time - 1) as nat
    }
}

/// After a frame is pushed, a resampler stays non-empty through the next
/// three pushes of no frame and is empty after the fourth, and it stays
/// empty until a frame is pushed again.
pub proof fn lemma_empties_four_pushes_after_last_frame(time: nat)
    ensures
        time_after_push(time, true) > 0,
        time_after_push(time_after_push(time, true), false) > 0,
        time_after_push(time_after_push(time_after_push(time, true), false), false) > 0,
        time_after_push(
            time_after_push(time_after_push(time_after_push(time, true), false), false),
            false,
        ) > 0,
        time_after_push(
            time_after_push(
                time_after_push(time_after_push(time_after_push(time, true), false), false),
                false,
            ),
            false,
        ) == 0,
        time_after_push(0, false) == 0,
{
}

/// A frame that was pushed to a [`Resampler`], with the index of the
/// frame of the source sound that was current when it was pushed.
#[derive(Debug, Clone, Copy)]
pub struct RecentFrame<F> {
    /// A frame of audio.
    pub frame: F,
    /// The current frame index of the source sound at the
    /// time this frame was pushed to the resampler.
    pub frame_index: i64,
}

/// Keeps the four most recently pushed frames of a sound so that audio
/// can be interpolated between them.
pub struct Resampler<F> {
    frames: [RecentFrame<F>; 4],
    time_until_empty: usize,
}

impl<F: Copy + Default> Resampler<F> {
    /// The recent frames, oldest first.
    pub closed spec fn recent(&self) -> Seq<RecentFrame<F>> {
        self.frames@
    }

    /// How many more pushes of no frame it takes until the resampler
    /// holds only silence.
    pub closed spec fn spec_time_until_empty(&self) -> nat {
        self.time_until_empty as nat
    }

    /// Creates a resampler whose four frames are default (silent) frames
    /// at `starting_frame_index`.
    #[must_use]
    pub fn new(starting_frame_index: i64) -> (resampler: Self)
        ensures
            resampler.recent().len() == 4,
            forall|i: int|
                0 <= i < 4 ==> {
                    &&& #[trigger] resampler.recent()[i].frame_index == starting_frame_index
                    &&& F::default.ensures((), resampler.recent()[i].frame)
                },
            resampler.spec_time_until_empty() == 0,
    {
        let silence = F::default();
        let recent = RecentFrame { frame: silence, frame_index: starting_frame_index };
        Self { frames: [recent, recent, recent, recent], time_until_empty: 0 }
    }

    /// Pushes a new frame (or silence, for `None`) tagged with
    /// `sample_index`, dropping the oldest frame. Pushing a frame makes the
    /// resampler non-empty for the next four pushes.
    pub fn push_frame(&mut self, frame: Option<F>, sample_index: i64)
        requires
            old(self).recent().len() == 4,
            old(self).spec_time_until_empty() <= 4,
        ensures
            final(self).recent().len() == 4,
            final(self).recent().subrange(0, 3) == old(self).recent().subrange(1, 4),
            final(self).recent()[3].frame_index == sample_index,
            frame matches Some(f) ==> final(self).recent()[3].frame == f,
            frame is None ==> F::default.ensures((), final(self).recent()[3].frame),
            final(self).spec_time_until_empty() == time_after_push(
                old(self).spec_time_until_empty(),
                frame is Some,
            ),
            pushed_tagged(*old(self), *final(self), frame is Some, sample_index),
    {
        if frame.is_some() {
            self.time_until_empty = 4;
        } else {
            self.time_until_empty = self.time_until_empty.saturating_sub(1);
        }
        let frame = frame.unwrap_or_default();
        let newest = RecentFrame { frame, frame_index: sample_index };
        self.frames = [self.frames[1], self.frames[2], self.frames[3], newest];
        assert(self.recent().subrange(0, 3) =~= old(self).recent().subrange(1, 4));
    }

    /// Returns the frame at position `i` of the recent frames (0 is the
    /// oldest, 3 the newest), for interpolating between them.
    #[must_use]
    pub fn frame(&self, i: usize) -> (frame: F)
        requires
            self.recent().len() == 4,
            i < 4,
        ensures
            frame == self.recent()[i as int].frame,
    {
        self.frames[i].frame
    }

    /// Returns the index of the frame in the source sound
    /// that the user is currently hearing from this resampler.
    ///
    /// This is not the same as the most recently pushed frame.
    /// The user mainly hears a frame between the second and third
    /// recent frames; the first and fourth give the interpolation
    /// more context.
    #[must_use]
    pub fn current_frame_index(&self) -> (index: i64)
        requires
            self.recent().len() == 4,
        ensures
            index == self.recent()[1].frame_index,
    {
        self.frames[1].frame_index
    }

    /// Returns whether the resampler holds only silence: no frame has been
    /// pushed within the last four pushes.
    #[must_use]
    pub fn empty(&self) -> (empty: bool)
        ensures
            empty == (self.spec_time_until_empty() == 0),
    {
        self.time_until_empty == 0
    }
}

/// Whether `after` is `before` after a push tagged with `index`, of a
/// frame when `has_frame` holds and of none otherwise (what
/// [`Resampler::push_frame`] ensures of the tags and the emptying count).
pub open spec fn pushed_tagged<F: Copy + Default>(
    before: Resampler<F>,
    after: Resampler<F>,
    has_frame: bool,
    index: i64,
) -> bool {
    &&& after.recent().len() == 4
    &&& after.recent().subrange(0, 3) == before.recent().subrange(1, 4)
    &&& after.recent()[3].frame_index == index
    &&& after.spec_time_until_empty() == time_after_push(before.spec_time_until_empty(), has_frame)
}

/// How many pushes without a frame came after the last push with one.
pub open spec fn pushes_since_frame(has_frames: Seq<bool>) -> nat
    decreases has_frames.len(),
{
    if has_frames.len() == 0 || has_frames.last() {
        0
    } else {
        1 + pushes_since_frame(has_frames.drop_last())
    }
}

/// Whether any push carried a frame.
pub open spec fn any_frame(has_frames: Seq<bool>) -> bool {
    exists|k: int| 0 <= k < has_frames.len() && #[trigger] has_frames[k]
}

/// How many more pushes of no frame it takes until a resampler that
/// started empty is empty again, after pushes that carried a frame as
/// `has_frames` says.
pub open spec fn time_after_pushes(has_frames: Seq<bool>) -> nat
    decreases has_frames.len(),
{
    if has_frames.len() == 0 {
        0
    } else {
        time_after_push(time_after_pushes(has_frames.drop_last()), has_frames.last())
    }
}

proof fn lemma_time_after_pushes(has_frames: Seq<bool>)
    ensures
        time_after_pushes(has_frames) == (if !any_frame(has_frames) || pushes_since_frame(
            has_frames,
        ) >= 4 {
            0
        } else {
            (4 - pushes_since_frame(has_frames)) as nat
        }),
    decreases has_frames.len(),
{
    if has_frames.len() > 0 {
        let rest = has_frames.drop_last();
        lemma_time_after_pushes(rest);
        if has_frames.last() {
            assert(has_frames[has_frames.len() - 1]);
        } else {
            assert(any_frame(has_frames) == any_frame(rest)) by {
                if any_frame(has_frames) {
                    let k = choose|k: int| 0 <= k < has_frames.len() && #[trigger] has_frames[k];
                    assert(rest[k]);
                }
                if any_frame(rest) {
                    let k = choose|k: int| 0 <= k < rest.len() && #[trigger] rest[k];
                    assert(has_frames[k]);
                }
            }
        }
    } else {
        assert(!any_frame(has_frames));
    }
}

/// A resampler that starts empty, with all its frames tagged `start`, and
/// then takes pushes tagged `indices[k]` (of a frame exactly when
/// `has_frames[k]`) ends up with:
/// - the frame the listener hears (the second recent frame) tagged with the
///   index of the third most recent push, or `start` after fewer than three
///   pushes; and
/// - empty exactly when no push carried a frame, or four or more pushes of
///   no frame followed the last one that did.
pub proof fn lemma_resampler_after_pushes<F: Copy + Default>(
    resamplers: Seq<Resampler<F>>,
    has_frames: Seq<bool>,
    indices: Seq<i64>,
    start: i64,
)
    requires
        resamplers.len() == has_frames.len() + 1,
        indices.len() == has_frames.len(),
        resamplers[0].recent().len() == 4,
        forall|j: int| 0 <= j < 4 ==> #[trigger] resamplers[0].recent()[j].frame_index == start,
        resamplers[0].spec_time_until_empty() == 0,
        forall|k: int|
            0 <= k < has_frames.len() ==> #[trigger] pushed_tagged(
                resamplers[k],
                resamplers[k + 1],
                has_frames[k],
                indices[k],
            ),
    ensures
        resamplers.last().recent()[1].frame_index == (if has_frames.len() >= 3 {
            indices[has_frames.len() - 3]
        } else {
            start
        }),
        resamplers.last().spec_time_until_empty() == 0 <==> (!any_frame(has_frames)
            || pushes_since_frame(has_frames) >= 4),
{
    let n = has_frames.len() as int;
    lemma_pushes_so_far(resamplers, has_frames, indices, start, n);
    assert(has_frames.subrange(0, n) =~= has_frames);
    lemma_time_after_pushes(has_frames);
}

proof fn lemma_pushes_so_far<F: Copy + Default>(
    resamplers: Seq<Resampler<F>>,
    has_frames: Seq<bool>,
    indices: Seq<i64>,
    start: i64,
    k: int,
)
    requires
        0 <= k <= has_frames.len(),
        resamplers.len() == has_frames.len() + 1,
        indices.len() == has_frames.len(),
        resamplers[0].recent().len() == 4,
        forall|j: int| 0 <= j < 4 ==> #[trigger] resamplers[0].recent()[j].frame_index == start,
        resamplers[0].spec_time_until_empty() == 0,
        forall|k: int|
            0 <= k < has_frames.len() ==> #[trigger] pushed_tagged(
                resamplers[k],
                resamplers[k + 1],
                has_frames[k],
                indices[k],
            ),
    ensures
        resamplers[k].recent().len() == 4,
        forall|j: int|
            0 <= j < 4 ==> #[trigger] resamplers[k].recent()[j].frame_index == (if k + j >= 4 {
                indices[k + j - 4]
            } else {
                start
            }),
        resamplers[k].spec_time_until_empty() == time_after_pushes(has_frames.subrange(0, k)),
    decreases k,
{
    if k > 0 {
        lemma_pushes_so_far(resamplers, has_frames, indices, start, k - 1);
        let i = k - 1;
        assert(pushed_tagged(resamplers[i], resamplers[i + 1], has_frames[i], indices[i]));
        assert(i + 1 == k);
        assert forall|j: int| 0 <= j < 4 implies #[trigger] resamplers[k].recent()[j].frame_index == (
        if k + j >= 4 {
            indices[k + j - 4]
        } else {
            start
        }) by {
            if j < 3 {
                assert(resamplers[k].recent()[j] == resamplers[k].recent().subrange(0, 3)[j]);
                assert(resamplers[k - 1].recent()[j + 1] == resamplers[k - 1].recent().subrange(
                    1,
                    4,
                )[j]);
                assert(resamplers[k - 1].recent()[j + 1].frame_index == (if k - 1 + j + 1 >= 4 {
                    indices[k - 1 + j + 1 - 4]
                } else {
                    start
                }));
            }
        }
        assert(has_frames.subrange(0, k).drop_last() =~= has_frames.subrange(0, k - 1));
    } else {
        assert(has_frames.subrange(0, 0).len() == 0);
    }
}

} // verus!
