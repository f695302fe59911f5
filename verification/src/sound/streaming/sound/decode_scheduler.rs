use vstd::prelude::*;

use crate::sound::static_sound::data::{slice_len, slice_start};
use crate::sound::streaming::decoder::Decoder;
use crate::sound::transport::{
    loop_bounds, loop_is_well_formed, loop_well_formed, usable_loop, Transport,
};
use crate::sound::ring::{new_ring, RingConsumer, RingProducer};
use crate::sound::{PlaybackPosition, Region};

use std::sync::Arc;

use super::{Shared, TimestampedFrame};

verus! {

/// The number of frames the buffer between the decoding thread and the
/// sound holds.
pub const BUFFER_SIZE: usize = 16_384;

/// What the decoding thread should do next.
#[derive(Debug, Clone, Copy, PartialEq, Eq, Structural)]
pub enum NextStep {
    /// Keep decoding.
    Continue,
    /// Wait for room in the frame buffer.
    Wait,
    /// Stop decoding: the sound has ended or was stopped.
    End,
}

/// A chunk of frames decoded in one go, starting at frame `start_index`.
pub struct DecodedChunk<F> {
    /// The index of the first frame of the chunk.
    pub start_index: usize,
    /// The frames of the chunk.
    pub frames: Vec<F>,
}

/// The frame at absolute `index` in `chunk`, if the chunk covers it.
pub open spec fn chunk_frame<F>(chunk: DecodedChunk<F>, index: int) -> Option<F> {
    if chunk.start_index <= index < chunk.start_index + chunk.frames@.len() {
        Some(chunk.frames@[index - chunk.start_index])
    } else {
        None
    }
}

impl<F: Copy> DecodedChunk<F> {
    /// Returns the frame at absolute `index`, if the chunk covers it.
    pub fn frame_at_index(&self, index: usize) -> (frame: Option<F>)
        ensures
            frame == chunk_frame(*self, index as int),
    {
        if index < self.start_index {
            return None;
        }
        let offset = index - self.start_index;
        if offset < self.frames.len() {
            Some(self.frames[offset])
        } else {
            None
        }
    }
}

/// A frame count as a transport counts it: saturated at `i64::MAX`.
pub open spec fn frame_count(num_frames: nat) -> i64 {
    if num_frames > i64::MAX {
        i64::MAX
    } else {
        num_frames as i64
    }
}

/// Whether `frame` is what a scheduler sends for transport `position`,
/// with `chunk` the chunk it decoded last: a default (silent) frame
/// outside the (sliced) sound, otherwise the frame at that position of the
/// chunk, or a default frame when the decoder ran out of audio.
pub open spec fn scheduled_frame<F: Default>(
    chunk: Option<DecodedChunk<F>>,
    num_frames: nat,
    slice: Option<(usize, usize)>,
    position: int,
    frame: F,
) -> bool {
    if position < 0 || position >= frame_count(num_frames) || position >= slice_len(
        num_frames,
        slice,
    ) {
        F::default.ensures((), frame)
    } else {
        chunk matches Some(c) && (chunk_frame(c, slice_start(slice) + position) == Some(frame) || (
        c.frames@.len() == 0 && F::default.ensures((), frame)))
    }
}

/// Whether the frame for transport `position` can be had without asking
/// the decoder: the position lies outside the (sliced) sound, or `chunk`
/// already covers it.
pub open spec fn frame_ready<F>(
    chunk: Option<DecodedChunk<F>>,
    num_frames: nat,
    slice: Option<(usize, usize)>,
    position: int,
) -> bool {
    ||| position < 0
    ||| position >= frame_count(num_frames)
    ||| position >= slice_len(num_frames, slice)
    ||| chunk matches Some(c) && chunk_frame(c, slice_start(slice) + position) is Some
}

/// The step to take before decoding anything: `End` once the sound has
/// been stopped, else `Wait` while the frame buffer is full, else none.
pub open spec fn next_step_before_decoding(stopped: bool, full: bool) -> Option<NextStep> {
    if stopped {
        Some(NextStep::End)
    } else if full {
        Some(NextStep::Wait)
    } else {
        None
    }
}

/// Returns the step to take before decoding anything, given whether the
/// sound has been stopped and whether the frame buffer is full.
pub fn step_before_decoding(stopped: bool, full: bool) -> (step: Option<NextStep>)
    ensures
        step == next_step_before_decoding(stopped, full),
{
    if stopped {
        Some(NextStep::End)
    } else if full {
        Some(NextStep::Wait)
    } else {
        None
    }
}

/// A call that a scheduler makes to its decoder.
pub enum DecoderCall {
    /// A seek to the frame with this index.
    Seek(usize),
    /// The decoding of the next chunk.
    Decode,
}

/// Whether `after` is `before` followed by a seek to `seek` (when there is
/// one) and then by nothing but decoding.
pub open spec fn seek_then_decodes(
    before: Seq<DecoderCall>,
    after: Seq<DecoderCall>,
    seek: Option<usize>,
) -> bool {
    let prefix = match seek {
        Some(index) => before.push(DecoderCall::Seek(index)),
        None => before,
    };
    &&& prefix.len() <= after.len()
    &&& after.subrange(0, prefix.len() as int) == prefix
    &&& forall|k: int| prefix.len() <= k < after.len() ==> #[trigger] after[k] == DecoderCall::Decode
}

/// The calls themselves follow a seek (or none), and decoding once more
/// keeps them so.
proof fn lemma_seek_then_decodes(before: Seq<DecoderCall>, after: Seq<DecoderCall>, seek: Option<usize>)
    ensures
        seek_then_decodes(
            before,
            match seek {
                Some(index) => before.push(DecoderCall::Seek(index)),
                None => before,
            },
            seek,
        ),
        seek_then_decodes(before, after, seek) ==> seek_then_decodes(
            before,
            after.push(DecoderCall::Decode),
            seek,
        ),
{
    let prefix = match seek {
        Some(index) => before.push(DecoderCall::Seek(index)),
        None => before,
    };
    assert(prefix.subrange(0, prefix.len() as int) =~= prefix);
    if seek_then_decodes(before, after, seek) {
        let longer = after.push(DecoderCall::Decode);
        assert(longer.subrange(0, prefix.len() as int) =~= after.subrange(0, prefix.len() as int));
        assert forall|k: int| prefix.len() <= k < longer.len() implies #[trigger] longer[k]
            == DecoderCall::Decode by {
            if k < after.len() {
                assert(longer[k] == after[k]);
            }
        }
    }
}

/// Whether the frame at `index` of the (sliced) sound can be had without
/// asking the decoder: it lies past the end, or `chunk` covers it.
pub open spec fn cached_or_past_end<F>(
    chunk: Option<DecodedChunk<F>>,
    num_frames: nat,
    slice: Option<(usize, usize)>,
    index: int,
) -> bool {
    ||| index >= slice_len(num_frames, slice)
    ||| chunk matches Some(c) && chunk_frame(c, slice_start(slice) + index) is Some
}

/// The seek made before decoding the frame at `index` of the (sliced)
/// sound: back to its absolute index when the decoder is already past it.
pub open spec fn seek_before_fetch(
    slice: Option<(usize, usize)>,
    index: int,
    decoder_index: nat,
) -> Option<usize> {
    if slice_start(slice) + index < decoder_index {
        Some((slice_start(slice) + index) as usize)
    } else {
        None
    }
}

/// Decides which frames a streaming sound needs next and fetches them
/// from a decoder, keeping the most recently decoded chunk.
#[verifier::reject_recursive_types(F)]
pub struct DecodeScheduler<D, F> {
    decoder: D,
    sample_rate: u32,
    num_frames: usize,
    slice: Option<(usize, usize)>,
    transport: Transport,
    decoder_current_frame_index: usize,
    decoded_chunk: Option<DecodedChunk<F>>,
    frame_producer: RingProducer<TimestampedFrame<F>>,
    shared: Arc<Shared>,
    decoder_calls: Ghost<Seq<DecoderCall>>,
}

impl<F: Copy + Default, D: Decoder<F>> DecodeScheduler<D, F> {
    /// The transport that tracks which frame is needed next.
    pub closed spec fn spec_transport(&self) -> Transport {
        self.transport
    }

    /// The frame count of the sound.
    pub closed spec fn spec_num_frames(&self) -> nat {
        self.num_frames as nat
    }

    /// The portion of the sound that is played.
    pub closed spec fn spec_slice(&self) -> Option<(usize, usize)> {
        self.slice
    }

    /// The index of the frame the decoder will decode next.
    pub closed spec fn spec_decoder_index(&self) -> nat {
        self.decoder_current_frame_index as nat
    }

    /// The most recently decoded chunk.
    pub closed spec fn spec_decoded_chunk(&self) -> Option<DecodedChunk<F>> {
        self.decoded_chunk
    }

    /// The calls made to the decoder so far, oldest first.
    pub closed spec fn spec_decoder_calls(&self) -> Seq<DecoderCall> {
        self.decoder_calls@
    }

    /// The frames sent to the sound so far, oldest first.
    pub closed spec fn spec_sent(&self) -> Seq<TimestampedFrame<F>> {
        self.frame_producer.sent()
    }

    /// The state the scheduling logic keeps: the slice is well ordered, the
    /// frame count and sample rate are those the decoder reports, the
    /// transport counts the frames of the sound, its loop region is
    /// non-empty and a playing position leaves room for one more step.
    pub closed spec fn wf(&self) -> bool {
        &&& match self.slice {
            Some((start, end)) => start <= end,
            None => true,
        }
        &&& self.decoder.spec_num_frames() == self.num_frames
        &&& self.decoder.spec_sample_rate() == self.sample_rate
        &&& self.transport.num_frames == frame_count(self.num_frames as nat)
        &&& loop_well_formed(self.transport.loop_region)
        &&& self.transport.playing ==> i64::MIN < self.transport.position < i64::MAX
    }

    /// Creates a scheduler for `decoder`, playing `slice` of it from
    /// `start_position`, with `loop_region` looped (an empty or reversed
    /// region, which could never be left once reached, is dropped), seeks
    /// the decoder to the start position, and returns it with the receiving
    /// end of the buffer the scheduler fills with frames.
    pub fn new(
        decoder: D,
        slice: Option<(usize, usize)>,
        start_position: PlaybackPosition,
        loop_region: Option<Region>,
        shared: Arc<Shared>,
    ) -> (scheduler: Result<(Self, RingConsumer<TimestampedFrame<F>>), D::Error>)
        requires
            0 <= start_position.samples() < i64::MAX,
            start_position.samples() <= usize::MAX,
            slice matches Some((start, end)) ==> start <= end,
        ensures
            scheduler matches Ok((scheduler, _)) ==> {
                &&& scheduler.wf()
                &&& scheduler.spec_num_frames() == decoder.spec_num_frames()
                &&& scheduler.spec_sample_rate() == decoder.spec_sample_rate()
                &&& scheduler.spec_transport() == Transport {
                    position: start_position.samples(),
                    loop_region: usable_loop(
                        loop_bounds(loop_region, frame_count(scheduler.spec_num_frames())),
                    ),
                    playing: true,
                    num_frames: frame_count(scheduler.spec_num_frames()),
                }
                &&& scheduler.spec_slice() == slice
                &&& scheduler.spec_decoder_index() <= start_position.samples()
                &&& scheduler.spec_decoded_chunk() is None
                &&& scheduler.spec_sent() == Seq::<TimestampedFrame<F>>::empty()
                &&& scheduler.spec_decoder_calls() == Seq::<DecoderCall>::empty().push(
                    DecoderCall::Seek(start_position.samples() as usize),
                )
            },
    {
        let (frame_producer, frame_consumer) = new_ring(BUFFER_SIZE);
        let mut decoder = decoder;
        let sample_rate = decoder.sample_rate();
        let num_frames = decoder.num_frames();
        let start_sample = start_position.into_samples(sample_rate);
        let decoder_current_frame_index = match decoder.seek(start_sample as usize) {
            Ok(index) => index,
            Err(error) => return Err(error),
        };
        let count: i64 = if num_frames as u64 > 9_223_372_036_854_775_807u64 {
            9_223_372_036_854_775_807i64
        } else {
            num_frames as i64
        };
        let mut transport = Transport::new(count, loop_region, false, sample_rate, start_sample);
        if !loop_is_well_formed(transport.loop_region) {
            transport.set_loop_region(None, sample_rate, count);
        }
        let scheduler = Self {
            decoder,
            sample_rate,
            num_frames,
            slice,
            transport,
            decoder_current_frame_index,
            decoded_chunk: None,
            frame_producer,
            shared,
            decoder_calls: Ghost(Seq::empty().push(DecoderCall::Seek(start_sample as usize))),
        };
        Ok((scheduler, frame_consumer))
    }

    /// Returns the index of the frame the scheduler will produce next.
    pub fn current_frame(&self) -> (frame: i64)
        ensures
            frame == self.spec_transport().position,
    {
        self.transport.position
    }

    /// The sample rate of the sound.
    pub closed spec fn spec_sample_rate(&self) -> u32 {
        self.sample_rate
    }

    /// Returns the sample rate of the sound.
    pub fn sample_rate(&self) -> (sample_rate: u32)
        ensures
            sample_rate == self.spec_sample_rate(),
    {
        self.sample_rate
    }

    /// Returns the frame at `index` of the (sliced) sound: a default
    /// (silent) frame past its end, with no call to the decoder; the frame
    /// from the cached chunk when it covers the index, again with no call;
    /// otherwise the decoder is sought back to the frame when it is already
    /// past it, and chunks are decoded until one covers the frame. An
    /// empty chunk means the audio has ended (see [`Decoder::decode`]): the
    /// frame is then a default one.
    pub fn frame_at_index(&mut self, index: usize) -> (frame: Result<F, D::Error>)
        requires
            old(self).wf(),
        ensures
            final(self).wf(),
            final(self).spec_transport() == old(self).spec_transport(),
            final(self).spec_num_frames() == old(self).spec_num_frames(),
            final(self).spec_slice() == old(self).spec_slice(),
            final(self).spec_sent() == old(self).spec_sent(),
            frame matches Ok(f) ==> {
                let absolute = slice_start(old(self).spec_slice()) + index;
                if index >= slice_len(old(self).spec_num_frames(), old(self).spec_slice()) {
                    F::default.ensures((), f)
                } else {
                    final(self).spec_decoded_chunk() matches Some(chunk) && (chunk_frame(
                        chunk,
                        absolute,
                    ) == Some(f) || (chunk.frames@.len() == 0 && F::default.ensures((), f)))
                }
            },
            index >= slice_len(old(self).spec_num_frames(), old(self).spec_slice()) ==> frame is Ok,
            index < slice_len(old(self).spec_num_frames(), old(self).spec_slice()) ==> (old(
                self,
            ).spec_decoded_chunk() matches Some(chunk) ==> (chunk_frame(
                chunk,
                slice_start(old(self).spec_slice()) + index,
            ) is Some ==> frame == Ok::<F, D::Error>(
                chunk_frame(chunk, slice_start(old(self).spec_slice()) + index)->0,
            ))),
            cached_or_past_end(
                old(self).spec_decoded_chunk(),
                old(self).spec_num_frames(),
                old(self).spec_slice(),
                index as int,
            ) ==> final(self).spec_decoder_calls() == old(self).spec_decoder_calls(),
            !cached_or_past_end(
                old(self).spec_decoded_chunk(),
                old(self).spec_num_frames(),
                old(self).spec_slice(),
                index as int,
            ) ==> seek_then_decodes(
                old(self).spec_decoder_calls(),
                final(self).spec_decoder_calls(),
                seek_before_fetch(old(self).spec_slice(), index as int, old(self).spec_decoder_index()),
            ),
            frame is Err ==> final(self).spec_decoder_calls().len() > old(
                self,
            ).spec_decoder_calls().len(),
    {
        let start = match self.slice {
            Some((start, _)) => start,
            None => 0,
        };
        let end = match self.slice {
            Some((_, end)) => end,
            None => self.num_frames,
        };
        if index >= end - start {
            return Ok(F::default());
        }
        let absolute = start + index;
        // if the requested frame is already loaded, return it
        let cached = match &self.decoded_chunk {
            Some(chunk) => chunk.frame_at_index(absolute),
            None => None,
        };
        if let Some(frame) = cached {
            return Ok(frame);
        }
        let ghost seek = seek_before_fetch(
            old(self).spec_slice(),
            index as int,
            old(self).spec_decoder_index(),
        );
        // otherwise, seek back if the decoder is past the requested index
        // and decode chunks until one covers it
        if absolute < self.decoder_current_frame_index {
            let seeked = self.decoder.seek(absolute);
            self.decoder_calls = Ghost(self.decoder_calls@.push(DecoderCall::Seek(absolute)));
            proof {
                lemma_seek_then_decodes(old(self).spec_decoder_calls(), self.spec_decoder_calls(), seek);
            }
            match seeked {
                Ok(seeked) => self.decoder_current_frame_index = seeked,
                Err(error) => return Err(error),
            }
        }
        proof {
            lemma_seek_then_decodes(old(self).spec_decoder_calls(), self.spec_decoder_calls(), seek);
        }
        loop
            invariant
                self.wf(),
                self.spec_transport() == old(self).spec_transport(),
                self.spec_num_frames() == old(self).spec_num_frames(),
                self.spec_slice() == old(self).spec_slice(),
                self.spec_sent() == old(self).spec_sent(),
                self.decoder_current_frame_index <= absolute,
                absolute == slice_start(old(self).spec_slice()) + index,
                index < slice_len(old(self).spec_num_frames(), old(self).spec_slice()),
                !(old(self).spec_decoded_chunk() matches Some(chunk) && chunk_frame(
                    chunk,
                    absolute as int,
                ) is Some),
                seek == seek_before_fetch(
                    old(self).spec_slice(),
                    index as int,
                    old(self).spec_decoder_index(),
                ),
                seek_then_decodes(old(self).spec_decoder_calls(), self.spec_decoder_calls(), seek),
            decreases absolute - self.decoder_current_frame_index,
        {
            let decoded = self.decoder.decode();
            proof {
                lemma_seek_then_decodes(old(self).spec_decoder_calls(), self.spec_decoder_calls(), seek);
            }
            self.decoder_calls = Ghost(self.decoder_calls@.push(DecoderCall::Decode));
            let frames = match decoded {
                Ok(frames) => frames,
                Err(error) => return Err(error),
            };
            let chunk_start = self.decoder_current_frame_index;
            let chunk_len = frames.len();
            let decoded_chunk = DecodedChunk { start_index: chunk_start, frames };
            let found = decoded_chunk.frame_at_index(absolute);
            self.decoded_chunk = Some(decoded_chunk);
            if let Some(frame) = found {
                self.decoder_current_frame_index = chunk_start.saturating_add(chunk_len);
                return Ok(frame);
            }
            if chunk_len == 0 {
                return Ok(F::default());
            }
            self.decoder_current_frame_index = chunk_start + chunk_len;
        }
    }

    /// Moves to frame `index` and seeks the decoder there.
    pub fn seek_to_index(&mut self, index: i64) -> (result: Result<(), D::Error>)
        requires
            old(self).wf(),
            0 <= index,
            index <= usize::MAX,
        ensures
            final(self).wf(),
            final(self).spec_transport() == old(self).spec_transport().seeked(index),
            final(self).spec_num_frames() == old(self).spec_num_frames(),
            final(self).spec_slice() == old(self).spec_slice(),
            final(self).spec_sent() == old(self).spec_sent(),
            result is Ok ==> final(self).spec_decoder_index() <= index,
            final(self).spec_decoder_calls() == old(self).spec_decoder_calls().push(
                DecoderCall::Seek(index as usize),
            ),
    {
        self.transport.seek_to(index);
        let seeked = self.decoder.seek(index as usize);
        self.decoder_calls = Ghost(self.decoder_calls@.push(DecoderCall::Seek(index as usize)));
        match seeked {
            Ok(seeked) => {
                self.decoder_current_frame_index = seeked;
                Ok(())
            },
            Err(error) => Err(error),
        }
    }

    /// Replaces the loop region. An empty or reversed region, which could
    /// never be left once reached, is dropped.
    pub fn set_loop_region(&mut self, loop_region: Option<Region>)
        requires
            old(self).wf(),
        ensures
            final(self).wf(),
            final(self).spec_transport() == (Transport {
                loop_region: usable_loop(
                    loop_bounds(loop_region, frame_count(old(self).spec_num_frames())),
                ),
                ..old(self).spec_transport()
            }),
            final(self).spec_num_frames() == old(self).spec_num_frames(),
            final(self).spec_slice() == old(self).spec_slice(),
            final(self).spec_sent() == old(self).spec_sent(),
            final(self).spec_decoder_calls() == old(self).spec_decoder_calls(),
    {
        let count = self.transport.num_frames;
        self.transport.set_loop_region(loop_region, self.sample_rate, count);
        if !loop_is_well_formed(self.transport.loop_region) {
            self.transport.set_loop_region(None, self.sample_rate, count);
        }
    }

    /// Returns the step to take before decoding anything: `End` once the
    /// sound has been stopped, `Wait` while the frame buffer is full, and
    /// `None` when a frame can be decoded. The stop flag and the buffer are
    /// read here, and [`step_before_decoding`] decides on what was read.
    pub fn pending_step(&self) -> (step: Option<NextStep>)
        ensures
            exists|stopped: bool, full: bool| step == #[trigger] next_step_before_decoding(stopped, full),
            !(step matches Some(NextStep::Continue)),
    {
        let stopped = self.shared.stopped();
        let full = self.frame_producer.is_full();
        step_before_decoding(stopped, full)
    }

    /// Decodes the frame at the transport's position and pushes it, tagged
    /// with its index, to the frame buffer; then moves the transport one
    /// frame forward. Once the transport has stopped, records that the end
    /// was reached and returns `End`. If the buffer has no room, nothing
    /// moves and the step is `Wait`.
    pub fn decode_next(&mut self) -> (step: Result<NextStep, D::Error>)
        requires
            old(self).wf(),
        ensures
            final(self).wf(),
            final(self).spec_num_frames() == old(self).spec_num_frames(),
            final(self).spec_slice() == old(self).spec_slice(),
            step matches Ok(NextStep::Wait) ==> final(self).spec_transport() == old(
                self,
            ).spec_transport() && final(self).spec_sent() == old(self).spec_sent(),
            (step matches Ok(next) && next != NextStep::Wait) ==> {
                &&& final(self).spec_sent().len() == old(self).spec_sent().len() + 1
                &&& final(self).spec_sent().drop_last() == old(self).spec_sent()
                &&& final(self).spec_sent().last().index == old(self).spec_transport().position
                &&& scheduled_frame(
                    final(self).spec_decoded_chunk(),
                    old(self).spec_num_frames(),
                    old(self).spec_slice(),
                    old(self).spec_transport().position as int,
                    final(self).spec_sent().last().frame,
                )
            },
            step matches Ok(NextStep::Continue) ==> {
                &&& final(self).spec_transport() == old(self).spec_transport().incremented()
                &&& final(self).spec_transport().playing
            },
            step matches Ok(NextStep::End) ==> {
                &&& final(self).spec_transport() == old(self).spec_transport().incremented()
                &&& !final(self).spec_transport().playing
            },
            frame_ready(
                old(self).spec_decoded_chunk(),
                old(self).spec_num_frames(),
                old(self).spec_slice(),
                old(self).spec_transport().position as int,
            ) ==> step is Ok,
            frame_ready(
                old(self).spec_decoded_chunk(),
                old(self).spec_num_frames(),
                old(self).spec_slice(),
                old(self).spec_transport().position as int,
            ) ==> final(self).spec_decoder_calls() == old(self).spec_decoder_calls(),
            !frame_ready(
                old(self).spec_decoded_chunk(),
                old(self).spec_num_frames(),
                old(self).spec_slice(),
                old(self).spec_transport().position as int,
            ) ==> seek_then_decodes(
                old(self).spec_decoder_calls(),
                final(self).spec_decoder_calls(),
                seek_before_fetch(
                    old(self).spec_slice(),
                    old(self).spec_transport().position as int,
                    old(self).spec_decoder_index(),
                ),
            ),
            step is Err ==> final(self).spec_decoder_calls().len() > old(
                self,
            ).spec_decoder_calls().len(),
            step is Err ==> final(self).spec_transport() == old(self).spec_transport()
                && final(self).spec_sent() == old(self).spec_sent(),
    {
        let position = self.transport.position;
        let frame = if 0 <= position && position < self.transport.num_frames {
            match self.frame_at_index(position as usize) {
                Ok(frame) => frame,
                Err(error) => return Err(error),
            }
        } else {
            F::default()
        };
        if self.frame_producer.push(TimestampedFrame { frame, index: position }).is_err() {
            return Ok(NextStep::Wait);
        }
        self.transport.increment_position();
        if !self.transport.playing {
            self.shared.mark_reached_end();
            return Ok(NextStep::End);
        }
        Ok(NextStep::Continue)
    }
}

} // verus!
