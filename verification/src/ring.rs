//! The lock-free ring buffer of the `rtrb` crate, as the rest of the library
//! sees it. Nothing in this file is proved: each contract restates what the
//! ring buffer's source shows.
//!
//! What a ring holds is a matter of both its ends. While one caller holds
//! the end it works on exclusively and the other end by shared reference, no
//! other thread can push or pop, and what the ring holds is a plain sequence
//! that the contracts speak of. A caller that holds one end alone is told
//! only what holds whatever the other end did meanwhile.

use crate::event::EventRecord;
use rtrb::{Consumer, Producer};
use vstd::prelude::*;

verus! {

/// The largest capacity a ring is created with: a design limit of this
/// library, not of the machine. A million records are a thousand times the
/// default and more than a consumer that polls at all falls behind by; and
/// the limit keeps the ring's slots, and twice their number, far inside the
/// address space of a 32-bit machine, so that creating a ring cannot fail on
/// its size.
pub const MAX_CAPACITY: usize = 0x10_0000;

/// The writing end of an `rtrb` ring buffer.
#[verifier::external_type_specification]
#[verifier::external_body]
#[verifier::reject_recursive_types(T)]
pub struct ExProducer<T>(Producer<T>);

/// The reading end of an `rtrb` ring buffer.
#[verifier::external_type_specification]
#[verifier::external_body]
#[verifier::reject_recursive_types(T)]
pub struct ExConsumer<T>(Consumer<T>);

/// Whether the two ends are the two ends of one ring: they came out of the
/// same call of `rtrb::RingBuffer::new`.
pub uninterp spec fn ring_linked(producer: Producer<EventRecord>, consumer: Consumer<EventRecord>) -> bool;

/// The records that were pushed into the ring through `producer` and not yet
/// popped through `consumer`, oldest first.
pub uninterp spec fn ring_queued(producer: Producer<EventRecord>, consumer: Consumer<EventRecord>) -> Seq<EventRecord>;

/// The number of slots the ring was created with.
pub uninterp spec fn ring_capacity(producer: Producer<EventRecord>) -> nat;

/// Calls `rtrb::RingBuffer::new`. It allocates `capacity` slots once and
/// returns the two ends of one empty ring of that capacity.
#[verifier::external_body]
pub(crate) fn ring_new(capacity: usize) -> (ends: (Producer<EventRecord>, Consumer<EventRecord>))
    requires
        0 < capacity <= MAX_CAPACITY,
    ensures
        ring_linked(ends.0, ends.1),
        ring_queued(ends.0, ends.1) == Seq::<EventRecord>::empty(),
        ring_capacity(ends.0) == capacity,
{
    rtrb::RingBuffer::new(capacity)
}

/// Calls `rtrb::Producer::push`. When every slot is taken the record comes
/// back; the capacity never changes, and the call does not panic.
///
/// `peer` is not touched. A caller that holds the reading end of the same
/// ring hands it in: nothing can pop meanwhile, so the push fails exactly
/// when the ring holds as many records as it has slots and leaves the ring
/// as it was, and otherwise makes the record the newest in the ring. A caller
/// without it learns only the above, since the other end may pop at any time.
#[allow(unused_variables)]
#[verifier::external_body]
pub(crate) fn ring_push(
    producer: &mut Producer<EventRecord>,
    peer: Option<&Consumer<EventRecord>>,
    item: EventRecord,
) -> (r: Result<(), EventRecord>)
    requires
        peer matches Some(consumer) ==> ring_linked(*old(producer), *consumer),
    ensures
        ring_capacity(*final(producer)) == ring_capacity(*old(producer)),
        r matches Err(rejected) ==> rejected == item,
        peer matches Some(consumer) ==> {
            &&& ring_linked(*final(producer), *consumer)
            &&& (r is Err <==> ring_queued(*old(producer), *consumer).len() == ring_capacity(
                *old(producer),
            ))
            &&& ring_queued(*final(producer), *consumer) == if r is Ok {
                ring_queued(*old(producer), *consumer).push(item)
            } else {
                ring_queued(*old(producer), *consumer)
            }
        },
    no_unwind
{
    match producer.push(item) {
        Ok(()) => Ok(()),
        Err(rtrb::PushError::Full(rejected)) => Err(rejected),
    }
}

/// Calls `rtrb::Consumer::pop`, which does not panic.
///
/// `peer` is not touched. A caller that holds the writing end of the same
/// ring hands it in: nothing can push meanwhile, so the pop returns nothing
/// exactly when the ring holds nothing and leaves it as it was, and otherwise
/// takes the oldest record out of the ring and returns it. A caller without
/// it learns nothing of the result, since the other end may push at any time.
#[allow(unused_variables)]
#[verifier::external_body]
pub(crate) fn ring_pop(
    peer: Option<&Producer<EventRecord>>,
    consumer: &mut Consumer<EventRecord>,
) -> (r: Option<EventRecord>)
    requires
        peer matches Some(producer) ==> ring_linked(*producer, *old(consumer)),
    ensures
        peer matches Some(producer) ==> {
            &&& ring_linked(*producer, *final(consumer))
            &&& (r is None <==> ring_queued(*producer, *old(consumer)).len() == 0)
            &&& match r {
                Some(oldest) => oldest == ring_queued(*producer, *old(consumer)).first()
                    && ring_queued(*producer, *final(consumer)) == ring_queued(
                    *producer,
                    *old(consumer),
                ).drop_first(),
                None => ring_queued(*producer, *final(consumer)) == ring_queued(
                    *producer,
                    *old(consumer),
                ),
            }
        },
    no_unwind
{
    match consumer.pop() {
        Ok(oldest) => Some(oldest),
        Err(rtrb::PopError::Empty) => None,
    }
}

} // verus!
