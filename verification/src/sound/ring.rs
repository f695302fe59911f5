use vstd::prelude::*;

use ringbuf::{HeapConsumer, HeapProducer, HeapRb};

verus! {

/// The sending half of a `ringbuf` ring buffer (a `ringbuf::HeapProducer`).
/// What the buffer holds changes as the consumer, on another thread,
/// takes items out, so nothing is stated of its contents.
#[verifier::external_body]
#[verifier::reject_recursive_types(T)]
struct HeapRingProducer<T> {
    producer: HeapProducer<T>,
}

/// The sending half of a single-producer, single-consumer ring buffer.
/// It records the items it has sent: those the buffer accepted, in order.
#[verifier::reject_recursive_types(T)]
pub struct RingProducer<T> {
    producer: HeapRingProducer<T>,
    sent: Ghost<Seq<T>>,
}

/// The receiving half of a single-producer, single-consumer ring buffer
/// (a `ringbuf::HeapConsumer`). What the buffer holds changes as the
/// producer, on another thread, puts items in, so nothing is stated of its
/// contents.
#[verifier::external_body]
#[verifier::reject_recursive_types(T)]
pub struct RingConsumer<T> {
    consumer: HeapConsumer<T>,
}

/// Calls `ringbuf::HeapRb::new(capacity).split()`, which makes an empty
/// ring buffer with room for `capacity` items and splits it into its two
/// halves; it panics for a capacity of zero, which `requires` rules out.
#[verifier::external_body]
fn split_heap_ring<T>(capacity: usize) -> (HeapRingProducer<T>, RingConsumer<T>)
    requires
        capacity > 0,
{
    let (producer, consumer) = HeapRb::new(capacity).split();
    (HeapRingProducer { producer }, RingConsumer { consumer })
}

/// Calls `ringbuf::Producer::push`, which appends `item` unless the buffer
/// is full, and otherwise hands `item` back in `Err`.
#[verifier::external_body]
fn producer_push<T>(producer: &mut HeapRingProducer<T>, item: T) -> (pushed: Result<(), T>)
    ensures
        pushed matches Err(returned) ==> returned == item,
{
    producer.producer.push(item)
}

/// Calls `ringbuf::Producer::is_full`. The consumer may take items out at
/// any time, so nothing is stated of the result.
#[verifier::external_body]
fn producer_is_full<T>(producer: &HeapRingProducer<T>) -> bool {
    producer.producer.is_full()
}

/// Calls `ringbuf::Consumer::pop`, which removes and returns the oldest
/// item, or `None` when the buffer is empty. The producer may put items
/// in at any time, so nothing is stated of the result.
#[verifier::external_body]
fn consumer_pop<T>(consumer: &mut RingConsumer<T>) -> Option<T> {
    consumer.consumer.pop()
}

/// Calls `ringbuf::Consumer::len`. The producer may put items in at any
/// time, so nothing is stated of the result.
#[verifier::external_body]
fn consumer_len<T>(consumer: &RingConsumer<T>) -> usize {
    consumer.consumer.len()
}

/// Calls `ringbuf::Consumer::as_slices`, which returns the items in the
/// buffer, oldest first, split in two slices. The producer may put items
/// in at any time, so nothing is stated of the result.
#[verifier::external_body]
fn consumer_as_slices<'a, T>(consumer: &'a RingConsumer<T>) -> (&'a [T], &'a [T]) {
    consumer.consumer.as_slices()
}

/// Makes an empty ring buffer with room for `capacity` items and returns
/// its two halves; the sending half has sent nothing yet.
pub fn new_ring<T>(capacity: usize) -> (ring: (RingProducer<T>, RingConsumer<T>))
    requires
        capacity > 0,
    ensures
        ring.0.sent() == Seq::<T>::empty(),
{
    let (producer, consumer) = split_heap_ring(capacity);
    (RingProducer { producer, sent: Ghost(Seq::empty()) }, consumer)
}

impl<T> RingProducer<T> {
    /// The items sent through this half so far, oldest first.
    pub closed spec fn sent(&self) -> Seq<T> {
        self.sent@
    }

    /// Appends `item` unless the buffer is full, and otherwise hands it back.
    pub fn push(&mut self, item: T) -> (pushed: Result<(), T>)
        ensures
            pushed is Ok ==> final(self).sent() == old(self).sent().push(item),
            pushed matches Err(returned) ==> returned == item && final(self).sent() == old(
                self,
            ).sent(),
    {
        let ghost pushed_item = item;
        let pushed = producer_push(&mut self.producer, item);
        if pushed.is_ok() {
            self.sent = Ghost(self.sent@.push(pushed_item));
        }
        pushed
    }

    /// Returns whether the buffer is full.
    pub fn is_full(&self) -> bool {
        producer_is_full(&self.producer)
    }
}

impl<T> RingConsumer<T> {
    /// Removes and returns the oldest item, if there is one.
    pub fn pop(&mut self) -> Option<T> {
        consumer_pop(self)
    }

    /// Returns the number of items in the buffer.
    pub fn len(&self) -> usize {
        consumer_len(self)
    }

    /// Returns whether the buffer holds no item.
    pub fn is_empty(&self) -> bool {
        consumer_len(self) == 0
    }
}

/// Returns the items of `older` followed by those of `newer`.
pub fn concat_slices<T: Copy>(older: &[T], newer: &[T]) -> (items: Vec<T>)
    ensures
        items@ == older@ + newer@,
{
    let mut items: Vec<T> = Vec::new();
    let mut i: usize = 0;
    while i < older.len()
        invariant
            i <= older@.len(),
            items@ == older@.subrange(0, i as int),
        decreases older@.len() - i,
    {
        items.push(older[i]);
        i = i + 1;
    }
    let mut j: usize = 0;
    while j < newer.len()
        invariant
            j <= newer@.len(),
            i == older@.len(),
            items@ == older@ + newer@.subrange(0, j as int),
        decreases newer@.len() - j,
    {
        items.push(newer[j]);
        j = j + 1;
    }
    assert(older@.subrange(0, older@.len() as int) =~= older@);
    assert(newer@.subrange(0, newer@.len() as int) =~= newer@);
    items
}

impl<T: Copy> RingConsumer<T> {
    /// Returns a copy of the items in the buffer, oldest first: the two
    /// slices the buffer hands out, joined by [`concat_slices`].
    pub fn items(&self) -> Vec<T> {
        let (older, newer) = consumer_as_slices(self);
        concat_slices(older, newer)
    }
}

} // verus!
