use vstd::prelude::*;

use super::static_sound::FiniteSoundData;

verus! {

/// Plays the frames of a [`FiniteSoundData`] source in order, keeping the
/// most recently played frames in a buffer for interpolation, and stops
/// after the last frame.
pub struct FiniteSound<F, D> {
    data: D,
    buffer: Vec<F>,
    stopped: bool,
    current_frame_index: usize,
}

/// The buffer after `frame` is pushed: its oldest frame (if any) leaves and
/// `frame` comes in last.
pub open spec fn pushed_buffer<F>(buffer: Seq<F>, frame: F) -> Seq<F> {
    if buffer.len() > 0 {
        buffer.drop_first().push(frame)
    } else {
        buffer.push(frame)
    }
}

impl<F: Copy + Default, D: FiniteSoundData<F>> FiniteSound<F, D> {
    /// The source of frames.
    pub closed spec fn spec_data(&self) -> D {
        self.data
    }

    /// The most recently played frames, oldest first.
    pub closed spec fn spec_buffer(&self) -> Seq<F> {
        self.buffer@
    }

    /// Whether playback has stopped.
    pub closed spec fn spec_stopped(&self) -> bool {
        self.stopped
    }

    /// The index of the frame that plays next.
    pub closed spec fn spec_current_frame_index(&self) -> nat {
        self.current_frame_index as nat
    }

    /// The state the playback logic keeps: while playing, the next frame
    /// lies within the source.
    pub closed spec fn wf(&self) -> bool {
        !self.stopped ==> self.current_frame_index < self.data.spec_len()
    }

    /// Creates a sound that plays `data` from its first frame, with a
    /// buffer of as many default (silent) frames as the source asks for.
    /// Playback can go on only if the source holds a frame.
    #[must_use]
    pub fn new(data: D) -> (sound: Self)
        ensures
            sound.spec_data().spec_len() == data.spec_len(),
            forall|i: int| #[trigger] sound.spec_data().spec_frame(i) == data.spec_frame(i),
            sound.spec_buffer().len() == data.spec_buffer_len(),
            forall|i: int|
                0 <= i < sound.spec_buffer().len() ==> F::default.ensures(
                    (),
                    #[trigger] sound.spec_buffer()[i],
                ),
            !sound.spec_stopped(),
            sound.spec_current_frame_index() == 0,
            sound.wf() <==> data.spec_len() > 0,
    {
        let mut data = data;
        let buffer_len = data.buffer_len();
        let mut buffer: Vec<F> = Vec::new();
        let mut i: usize = 0;
        while i < buffer_len
            invariant
                i <= buffer_len,
                buffer@.len() == i,
                forall|j: int| 0 <= j < i ==> F::default.ensures((), #[trigger] buffer@[j]),
            decreases buffer_len - i,
        {
            buffer.push(F::default());
            i = i + 1;
        }
        Self { data, buffer, stopped: false, current_frame_index: 0 }
    }

    /// Moves to the next frame, and stops after the last one. A stopped
    /// sound stays where it is.
    fn update_playback_position(&mut self)
        requires
            old(self).wf(),
        ensures
            final(self).wf(),
            final(self).spec_data().spec_len() == old(self).spec_data().spec_len(),
            forall|i: int| #[trigger] final(self).spec_data().spec_frame(i) == old(
                self,
            ).spec_data().spec_frame(i),
            final(self).spec_buffer() == old(self).spec_buffer(),
            old(self).spec_stopped() ==> *final(self) == *old(self),
            !old(self).spec_stopped() ==> {
                &&& final(self).spec_current_frame_index() == old(self).spec_current_frame_index()
                    + 1
                &&& final(self).spec_stopped() <==> final(self).spec_current_frame_index()
                    >= old(self).spec_data().spec_len()
            },
    {
        if self.stopped {
            return;
        }
        let len = self.data.len();
        self.current_frame_index = self.current_frame_index + 1;
        if self.current_frame_index >= len {
            self.stopped = true;
        }
    }

    /// Plays one frame: pushes the current frame of the source to the
    /// buffer (a default, silent, frame once stopped) and moves on.
    pub fn push_frame(&mut self)
        requires
            old(self).wf(),
        ensures
            final(self).wf(),
            final(self).spec_data().spec_len() == old(self).spec_data().spec_len(),
            forall|i: int| #[trigger] final(self).spec_data().spec_frame(i) == old(
                self,
            ).spec_data().spec_frame(i),
            final(self).spec_buffer() == pushed_buffer(
                old(self).spec_buffer(),
                final(self).spec_buffer().last(),
            ),
            !old(self).spec_stopped() ==> final(self).spec_buffer().last() == old(
                self,
            ).spec_data().spec_frame(old(self).spec_current_frame_index() as int),
            old(self).spec_stopped() ==> F::default.ensures((), final(self).spec_buffer().last()),
            old(self).spec_stopped() ==> {
                &&& final(self).spec_stopped()
                &&& final(self).spec_current_frame_index() == old(self).spec_current_frame_index()
            },
            !old(self).spec_stopped() ==> {
                &&& final(self).spec_current_frame_index() == old(self).spec_current_frame_index()
                    + 1
                &&& final(self).spec_stopped() <==> final(self).spec_current_frame_index()
                    >= old(self).spec_data().spec_len()
            },
    {
        let next_frame = if self.stopped {
            F::default()
        } else {
            self.data.frame(self.current_frame_index)
        };
        if self.buffer.len() > 0 {
            self.buffer.remove(0);
        }
        self.buffer.push(next_frame);
        self.update_playback_position();
    }

    /// Returns whether playback has stopped.
    #[must_use]
    pub fn stopped(&self) -> (stopped: bool)
        ensures
            stopped == self.spec_stopped(),
    {
        self.stopped
    }

    /// Returns the frames in the buffer, oldest first.
    #[must_use]
    pub fn buffer(&self) -> (buffer: &Vec<F>)
        ensures
            buffer@ == self.spec_buffer(),
    {
        &self.buffer
    }
}

} // verus!
