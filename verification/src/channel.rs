//! The bounded channel: a fixed number of slots, first in, first out, with a
//! push that fails rather than waits when every slot is taken.
//!
//! A `BoundedChannel` holds both ends of its ring, and every operation
//! borrows the whole channel. So between two operations nothing else pushes
//! or pops, and what the channel holds is a plain sequence that the
//! contracts speak of.
//!
//! `split` parts the channel into a `ProducerHandle` and a `ConsumerHandle`
//! for two contexts that run side by side. Neither handle takes a lock or
//! waits. What a push or a pop on one handle returns then depends on what the
//! other context did, so their contracts state only what holds of every
//! outcome.

use crate::event::EventRecord;
use crate::ring::{ring_capacity, ring_linked, ring_new, ring_pop, ring_push, ring_queued, MAX_CAPACITY};
use rtrb::{Consumer, Producer};
use vstd::prelude::*;

verus! {

/// The capacity of a channel that is created without naming one.
pub const DEFAULT_CAPACITY: usize = 1024;

/// A push found every slot taken. The record that was not enqueued comes back
/// in `item`, so that the caller decides what becomes of it.
#[derive(Clone, Copy, Debug, PartialEq, Eq)]
pub struct Full {
    pub item: EventRecord,
}

/// A pop found nothing to hand out.
#[derive(Clone, Copy, Debug, PartialEq, Eq)]
pub struct Empty;

/// A channel cannot be created with the capacity asked for.
#[derive(Clone, Copy, Debug, PartialEq, Eq)]
pub enum ConfigError {
    /// A channel needs at least one slot.
    ZeroCapacity,
    /// More than `MAX_CAPACITY` slots were asked for.
    CapacityTooLarge,
}

/// The writing end of a channel, for the context that produces.
/// It keeps a log of every record offered through it.
pub struct ProducerHandle {
    producer: Producer<EventRecord>,
    offered: Ghost<Seq<EventRecord>>,
}

/// The reading end of a channel, for the context that consumes. It knows
/// the capacity of its channel, and keeps a log of every record taken out
/// through it.
pub struct ConsumerHandle {
    consumer: Consumer<EventRecord>,
    capacity: usize,
    taken: Ghost<Seq<EventRecord>>,
}

/// The two ends of one ring buffer, held together. Its view is the sequence
/// of records that wait in it, oldest first.
pub struct BoundedChannel {
    producer: ProducerHandle,
    consumer: ConsumerHandle,
}

/// What a queue of the given capacity holds after an attempt to push `item`:
/// the item is appended if a slot is free, and dropped if none is.
pub open spec fn pushed(queue: Seq<EventRecord>, capacity: nat, item: EventRecord) -> Seq<EventRecord> {
    if queue.len() < capacity {
        queue.push(item)
    } else {
        queue
    }
}

/// What a queue of the given capacity holds after an attempt to push each of
/// `items` in turn, with no pop in between.
pub open spec fn pushed_all(queue: Seq<EventRecord>, capacity: nat, items: Seq<EventRecord>) -> Seq<EventRecord>
    decreases items.len(),
{
    if items.len() == 0 {
        queue
    } else {
        pushed(pushed_all(queue, capacity, items.drop_last()), capacity, items.last())
    }
}

impl View for BoundedChannel {
    type V = Seq<EventRecord>;

    closed spec fn view(&self) -> Seq<EventRecord> {
        ring_queued(self.producer.producer, self.consumer.consumer)
    }
}

impl ProducerHandle {
    /// The number of slots of the channel, fixed when it was created.
    pub closed spec fn capacity(self) -> nat {
        ring_capacity(self.producer)
    }

    /// Every record that was offered through this handle since the split,
    /// in the order offered, whether it was enqueued or not.
    pub closed spec fn offered(self) -> Seq<EventRecord> {
        self.offered@
    }

    /// Offers `item` to the channel without waiting. Whether a slot is free
    /// depends on how far the consumer has come: the push succeeds or fails
    /// with `Full`, and a record that was not enqueued comes back in the
    /// error.
    pub fn push(&mut self, item: EventRecord) -> (r: Result<(), Full>)
        ensures
            final(self).capacity() == old(self).capacity(),
            final(self).offered() == old(self).offered().push(item),
            r is Err ==> r == Err::<(), Full>(Full { item }),
    {
        self.offered = Ghost(self.offered@.push(item));
        match ring_push(&mut self.producer, None, item) {
            Ok(()) => Ok(()),
            Err(rejected) => Err(Full { item: rejected }),
        }
    }
}

impl ConsumerHandle {
    /// The number of slots of the channel, fixed when it was created.
    pub closed spec fn capacity(self) -> nat {
        self.capacity as nat
    }

    /// Every record that was taken out through this handle since the split,
    /// in the order taken.
    pub closed spec fn taken(self) -> Seq<EventRecord> {
        self.taken@
    }

    /// Takes the oldest record out of the channel without waiting, or fails
    /// with `Empty`. Which of the two depends on how far the producer has
    /// come. A record that is returned is the newest in the log of what was
    /// taken.
    pub fn pop(&mut self) -> (r: Result<EventRecord, Empty>)
        ensures
            final(self).capacity() == old(self).capacity(),
            final(self).taken() == match r {
                Ok(record) => old(self).taken().push(record),
                Err(_) => old(self).taken(),
            },
    {
        match ring_pop(None, &mut self.consumer) {
            Some(record) => {
                self.taken = Ghost(self.taken@.push(record));
                Ok(record)
            },
            None => Err(Empty),
        }
    }

    /// Pops until the channel is found empty, or until as many records as
    /// the channel has slots were taken, and returns exactly the records
    /// that its pops took, in the order taken. That covers every record
    /// that waited when the call began; it does not wait for more, and its
    /// work is bounded whatever the producer does meanwhile.
    pub fn drain_all(&mut self) -> (out: Vec<EventRecord>)
        ensures
            final(self).capacity() == old(self).capacity(),
            out@.len() <= old(self).capacity(),
            final(self).taken() == old(self).taken() + out@,
    {
        let mut out: Vec<EventRecord> = Vec::new();
        let mut count: usize = 0;
        proof {
            assert(self.taken() =~= old(self).taken() + out@);
        }
        while count < self.capacity
            invariant
                self.capacity() == old(self).capacity(),
                count <= self.capacity,
                out@.len() == count,
                self.taken() == old(self).taken() + out@,
            decreases self.capacity - count,
        {
            let ghost log = self.taken();
            let ghost kept = out@;
            match self.pop() {
                Ok(record) => {
                    out.push(record);
                    count = count + 1;
                    proof {
                        assert(log.push(record) =~= old(self).taken() + kept.push(record));
                    }
                },
                Err(_) => {
                    break ;
                },
            }
        }
        out
    }
}

impl BoundedChannel {
    /// What holds of every channel: its two ends belong to one ring, its
    /// capacity is positive and within `MAX_CAPACITY`, and it never holds more
    /// than its capacity.
    #[verifier::type_invariant]
    pub closed spec fn well_formed(self) -> bool {
        &&& ring_linked(self.producer.producer, self.consumer.consumer)
        &&& 0 < ring_capacity(self.producer.producer) <= MAX_CAPACITY
        &&& ring_queued(self.producer.producer, self.consumer.consumer).len() <= ring_capacity(
            self.producer.producer,
        )
        &&& self.consumer.capacity == ring_capacity(self.producer.producer)
        &&& self.producer.offered@ == Seq::<EventRecord>::empty()
        &&& self.consumer.taken@ == Seq::<EventRecord>::empty()
    }

    /// The bounds that a well-formed channel keeps.
    pub proof fn lemma_bounds(self)
        requires
            self.well_formed(),
        ensures
            0 < self.capacity() <= MAX_CAPACITY,
            self@.len() <= self.capacity(),
    {
    }

    /// The number of slots, fixed when the channel was created.
    pub closed spec fn capacity(self) -> nat {
        ring_capacity(self.producer.producer)
    }

    /// Allocates a channel of `capacity` slots, empty. A capacity of zero, or
    /// one above the design limit `MAX_CAPACITY`, is refused.
    pub fn create(capacity: usize) -> (r: Result<BoundedChannel, ConfigError>)
        ensures
            match r {
                Ok(channel) => {
                    &&& 0 < capacity <= MAX_CAPACITY
                    &&& channel@ == Seq::<EventRecord>::empty()
                    &&& channel.capacity() == capacity
                },
                Err(ConfigError::ZeroCapacity) => capacity == 0,
                Err(ConfigError::CapacityTooLarge) => capacity > MAX_CAPACITY,
            },
    {
        if capacity == 0 {
            Err(ConfigError::ZeroCapacity)
        } else if capacity > MAX_CAPACITY {
            Err(ConfigError::CapacityTooLarge)
        } else {
            let (producer, consumer) = ring_new(capacity);
            Ok(
                BoundedChannel {
                    producer: ProducerHandle { producer, offered: Ghost(Seq::empty()) },
                    consumer: ConsumerHandle { consumer, capacity, taken: Ghost(Seq::empty()) },
                },
            )
        }
    }

    /// Allocates an empty channel of `DEFAULT_CAPACITY` slots.
    pub fn with_default_capacity() -> (channel: BoundedChannel)
        ensures
            channel@ == Seq::<EventRecord>::empty(),
            channel.capacity() == DEFAULT_CAPACITY,
    {
        let (producer, consumer) = ring_new(DEFAULT_CAPACITY);
        BoundedChannel {
            producer: ProducerHandle { producer, offered: Ghost(Seq::empty()) },
            consumer: ConsumerHandle {
                consumer,
                capacity: DEFAULT_CAPACITY,
                taken: Ghost(Seq::empty()),
            },
        }
    }

    /// Parts the channel into its two ends, for good. Both keep the
    /// channel's capacity, and their logs of what was offered and of what
    /// was taken start empty.
    pub fn split(self) -> (ends: (ProducerHandle, ConsumerHandle))
        ensures
            ends.0.capacity() == self.capacity(),
            ends.1.capacity() == self.capacity(),
            ends.0.offered() == Seq::<EventRecord>::empty(),
            ends.1.taken() == Seq::<EventRecord>::empty(),
    {
        proof {
            use_type_invariant(&self);
        }
        (self.producer, self.consumer)
    }

    /// Writes `item` into the next free slot, or fails with `Full` when there
    /// is none. A full channel is left exactly as it was.
    pub fn push(&mut self, item: EventRecord) -> (r: Result<(), Full>)
        ensures
            final(self).capacity() == old(self).capacity(),
            final(self)@ == pushed(old(self)@, old(self).capacity(), item),
            r is Ok <==> old(self)@.len() < old(self).capacity(),
            r is Err ==> r == Err::<(), Full>(Full { item }),
            final(self)@.len() <= final(self).capacity(),
    {
        proof {
            use_type_invariant(&*self);
        }
        match ring_push(&mut self.producer.producer, Some(&self.consumer.consumer), item) {
            Ok(()) => Ok(()),
            Err(rejected) => Err(Full { item: rejected }),
        }
    }

    /// Removes the oldest record and returns it, or fails with `Empty` when
    /// the channel holds none.
    pub fn pop(&mut self) -> (r: Result<EventRecord, Empty>)
        ensures
            final(self).capacity() == old(self).capacity(),
            match r {
                Ok(record) => {
                    &&& old(self)@.len() > 0
                    &&& record == old(self)@.first()
                    &&& final(self)@ == old(self)@.drop_first()
                },
                Err(_) => old(self)@.len() == 0 && final(self)@ == old(self)@,
            },
            final(self)@.len() <= final(self).capacity(),
    {
        proof {
            use_type_invariant(&*self);
        }
        match ring_pop(Some(&self.producer.producer), &mut self.consumer.consumer) {
            Some(record) => Ok(record),
            None => Err(Empty),
        }
    }

    /// Pops until the channel is empty and returns what came out, oldest
    /// first. On an empty channel this is the empty vector.
    pub fn drain_all(&mut self) -> (out: Vec<EventRecord>)
        ensures
            out@ == old(self)@,
            final(self)@ == Seq::<EventRecord>::empty(),
            final(self).capacity() == old(self).capacity(),
            old(self)@.len() == 0 ==> out@.len() == 0 && final(self)@ == old(self)@,
    {
        let mut out: Vec<EventRecord> = Vec::new();
        loop
            invariant
                out@ + self@ == old(self)@,
                self.capacity() == old(self).capacity(),
            ensures
                out@ == old(self)@,
                self@ == Seq::<EventRecord>::empty(),
            decreases self@.len(),
        {
            let ghost before = self@;
            let ghost taken = out@;
            match self.pop() {
                Ok(record) => {
                    out.push(record);
                    assert(out@ + self@ =~= taken + before);
                },
                Err(_) => {
                    assert(out@ =~= out@ + self@);
                    assert(self@ =~= Seq::<EventRecord>::empty());
                    break ;
                },
            }
        }
        out
    }
}

} // verus!
