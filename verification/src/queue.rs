//! The bounded queue of incoming channels.
//!
//! The transport pushes each channel it accepts; the overlay pops them in
//! the same order. A push on a full queue is refused and hands the item
//! back: the producer holds it until a slot is free.
//!
//! The queue is a bounded channel of `futures` with its one sender. An
//! item is the ticket under which the transport keeps the address and the
//! handles of an accepted channel.

use futures::channel::mpsc::{Receiver, Sender};
use vstd::prelude::*;

verus! {

/// Whether a queue holding `items` of at most `capacity` takes one more.
pub open spec fn queue_accepts<T>(items: Seq<T>, capacity: nat) -> bool {
    items.len() < capacity
}

/// The queue after a push of `item`: appended at the back if there is
/// room, else unchanged.
pub open spec fn queue_push<T>(items: Seq<T>, capacity: nat, item: T) -> Seq<T> {
    if queue_accepts(items, capacity) {
        items.push(item)
    } else {
        items
    }
}

/// The queue after a pop: without its front item, if it had one.
pub open spec fn queue_pop<T>(items: Seq<T>) -> Seq<T> {
    if items.len() > 0 {
        items.drop_first()
    } else {
        items
    }
}

#[verifier::external_type_specification]
#[verifier::external_body]
#[verifier::reject_recursive_types(T)]
pub struct ExSender<T>(Sender<T>);

#[verifier::external_type_specification]
#[verifier::external_body]
#[verifier::reject_recursive_types(T)]
pub struct ExReceiver<T>(Receiver<T>);

/// The items that wait in the channel of which `ends` are the two ends,
/// oldest first.
pub uninterp spec fn channel_items(ends: (Sender<u64>, Receiver<u64>)) -> Seq<u64>;

/// The buffer that the channel of `ends` was made with.
pub uninterp spec fn channel_buffer(ends: (Sender<u64>, Receiver<u64>)) -> nat;

/// Whether the sender of `ends` sends to the receiver of `ends`, as
/// `Sender::is_connected_to` tells.
pub uninterp spec fn channel_connected(ends: (Sender<u64>, Receiver<u64>)) -> bool;

/// Makes a bounded channel.
///
/// Trusted: calls `futures::channel::mpsc::channel`, which refuses a
/// buffer of a quarter of the address space or more, and gives the one
/// sender and the receiver of a channel that holds nothing.
#[verifier::external_body]
fn open_channel(buffer: usize) -> (ends: (Sender<u64>, Receiver<u64>))
    requires
        buffer < usize::MAX / 4,
    ensures
        channel_connected(ends),
        channel_items(ends) == Seq::<u64>::empty(),
        channel_buffer(ends) == buffer,
{
    futures::channel::mpsc::channel(buffer)
}

/// Offers `item` to the channel without waiting.
///
/// Trusted: calls `Sender::try_send`. The claim is of a channel whose
/// only sender is the one in `ends`, as `open_channel` gives it: that
/// sender is refused exactly while the channel holds one item more than
/// its buffer, its own guaranteed slot being taken, and an item that is
/// taken goes to the back.
#[verifier::external_body]
fn channel_try_send(ends: &mut (Sender<u64>, Receiver<u64>), item: u64) -> (taken: bool)
    requires
        channel_connected(*old(ends)),
    ensures
        channel_connected(*final(ends)),
        channel_buffer(*final(ends)) == channel_buffer(*old(ends)),
        taken == (channel_items(*old(ends)).len() <= channel_buffer(*old(ends))),
        channel_items(*final(ends)) == if taken {
            channel_items(*old(ends)).push(item)
        } else {
            channel_items(*old(ends))
        },
{
    ends.0.try_send(item).is_ok()
}

/// Takes the oldest item of the channel without waiting.
///
/// Trusted: calls `Receiver::try_recv`, which gives the message at the
/// front of the queue, and an error when nothing waits.
#[verifier::external_body]
fn channel_try_recv(ends: &mut (Sender<u64>, Receiver<u64>)) -> (item: Option<u64>)
    requires
        channel_connected(*old(ends)),
    ensures
        channel_connected(*final(ends)),
        channel_buffer(*final(ends)) == channel_buffer(*old(ends)),
        match item {
            Some(first) => {
                &&& channel_items(*old(ends)).len() > 0
                &&& first == channel_items(*old(ends))[0]
                &&& channel_items(*final(ends)) == channel_items(*old(ends)).drop_first()
            },
            None => {
                &&& channel_items(*old(ends)).len() == 0
                &&& channel_items(*final(ends)) == channel_items(*old(ends))
            },
        },
{
    ends.1.try_recv().ok()
}

/// A bounded first-in first-out queue of channel tickets.
pub struct IncomingQueue {
    ends: (Sender<u64>, Receiver<u64>),
    capacity: usize,
    held: usize,
}

impl View for IncomingQueue {
    type V = Seq<u64>;

    closed spec fn view(&self) -> Seq<u64> {
        channel_items(self.ends)
    }
}

impl IncomingQueue {
    /// The queue is whole: its two ends belong together, it counts what it
    /// holds, and it holds no more than its capacity.
    pub closed spec fn wf(&self) -> bool {
        &&& channel_connected(self.ends)
        &&& self.capacity == channel_buffer(self.ends) + 1
        &&& self.held == channel_items(self.ends).len()
        &&& self.held <= self.capacity
    }

    /// The most items the queue holds at once.
    pub closed spec fn spec_capacity(&self) -> nat {
        self.capacity as nat
    }

    /// An empty queue that holds at most `capacity` items. The producer
    /// always has a slot of its own, so the capacity is at least one; it
    /// is at most a quarter of the address space.
    pub fn new(capacity: usize) -> (queue: Self)
        requires
            1 <= capacity <= usize::MAX / 4,
        ensures
            queue.wf(),
            queue@ == Seq::<u64>::empty(),
            queue.spec_capacity() == capacity,
    {
        IncomingQueue { ends: open_channel(capacity - 1), capacity, held: 0 }
    }

    /// The most items the queue holds at once.
    pub fn capacity(&self) -> (capacity: usize)
        ensures
            capacity == self.spec_capacity(),
    {
        self.capacity
    }

    /// The number of items waiting.
    pub fn len(&self) -> (len: usize)
        requires
            self.wf(),
        ensures
            len == self@.len(),
            len <= self.spec_capacity(),
    {
        self.held
    }

    /// Whether nothing waits.
    pub fn is_empty(&self) -> (empty: bool)
        requires
            self.wf(),
        ensures
            empty == (self@.len() == 0),
    {
        self.held == 0
    }

    /// Whether a push would be refused.
    pub fn is_full(&self) -> (full: bool)
        requires
            self.wf(),
        ensures
            full == !queue_accepts(self@, self.spec_capacity()),
    {
        self.held >= self.capacity
    }

    /// Puts `item` at the back if there is room. On a full queue nothing
    /// changes and the item comes back, for the producer to hold until a
    /// pop has made room.
    pub fn try_push(&mut self, item: u64) -> (refused: Result<(), u64>)
        requires
            old(self).wf(),
        ensures
            final(self).wf(),
            final(self).spec_capacity() == old(self).spec_capacity(),
            final(self)@ == queue_push(old(self)@, old(self).spec_capacity(), item),
            queue_accepts(old(self)@, old(self).spec_capacity()) ==> refused is Ok,
            !queue_accepts(old(self)@, old(self).spec_capacity()) ==> refused == Err::<(), u64>(
                item,
            ),
    {
        if channel_try_send(&mut self.ends, item) {
            self.held = self.held + 1;
            Ok(())
        } else {
            Err(item)
        }
    }

    /// Takes the item that has waited longest, if any.
    pub fn pop(&mut self) -> (item: Option<u64>)
        requires
            old(self).wf(),
        ensures
            final(self).wf(),
            final(self).spec_capacity() == old(self).spec_capacity(),
            final(self)@ == queue_pop(old(self)@),
            old(self)@.len() == 0 ==> item is None,
            old(self)@.len() > 0 ==> item == Some(old(self)@[0]),
    {
        let item = channel_try_recv(&mut self.ends);
        if item.is_some() {
            self.held = self.held - 1;
        }
        item
    }
}

/// Backpressure: a full queue refuses the push and stays as it was.
pub proof fn lemma_full_queue_refuses<T>(items: Seq<T>, capacity: nat, item: T)
    requires
        items.len() >= capacity,
    ensures
        !queue_accepts(items, capacity),
        queue_push(items, capacity, item) == items,
{
}

/// Backpressure: one pop from a queue that holds an item frees the slot
/// that the refused push waits for, and the item then goes to the back.
pub proof fn lemma_pop_frees_slot<T>(items: Seq<T>, capacity: nat, item: T)
    requires
        0 < items.len() <= capacity,
    ensures
        queue_accepts(queue_pop(items), capacity),
        queue_push(queue_pop(items), capacity, item) == items.drop_first().push(item),
{
}

/// The queue never holds more than its capacity, whatever is pushed.
pub proof fn lemma_push_keeps_bound<T>(items: Seq<T>, capacity: nat, item: T)
    requires
        items.len() <= capacity,
    ensures
        queue_push(items, capacity, item).len() <= capacity,
        queue_pop(items).len() <= capacity,
{
}

/// The items that `taken` pops take from the front, oldest first.
pub open spec fn queue_drain<T>(items: Seq<T>, taken: nat) -> Seq<T>
    decreases taken,
{
    if taken == 0 || items.len() == 0 {
        Seq::empty()
    } else {
        seq![items[0]] + queue_drain(queue_pop(items), (taken - 1) as nat)
    }
}

/// Order of delivery is order of acceptance: popping everything gives the
/// items in the order in which they were pushed.
pub proof fn lemma_delivery_in_order<T>(items: Seq<T>)
    ensures
        queue_drain(items, items.len()) == items,
    decreases items.len(),
{
    if items.len() > 0 {
        lemma_delivery_in_order(items.drop_first());
        assert(seq![items[0]] + items.drop_first() == items);
    }
}

} // verus!
