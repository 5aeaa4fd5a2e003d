//! The producer side: once per processing cycle, the events observed in that
//! cycle are stamped and offered to the channel. A record that finds the
//! channel full is dropped and counted; the cycle goes on.
//!
//! `forward_event` and `forward_cycle` work on a whole channel and say exactly
//! what it holds afterwards. `send_event` and `send_cycle` work on the
//! producer handle alone, as the real-time context does while the consumer
//! runs beside it: how many records find a free slot is then not theirs to
//! say, but every note is either enqueued or counted as dropped.

use crate::channel::{pushed, BoundedChannel, Full, ProducerHandle};
use crate::event::{EventPayload, EventRecord};
use std::time::SystemTime;
use vstd::prelude::*;

verus! {

/// What became of one inbound event.
#[derive(Clone, Copy, Debug, PartialEq, Eq)]
pub enum Disposition {
    /// Not of a forwarded kind: nothing was done.
    Ignored,
    /// Stamped and enqueued.
    Forwarded,
    /// Stamped, but the channel was full: the record is lost.
    Dropped,
}

/// The tally of one processing cycle.
#[derive(Clone, Copy, Debug, PartialEq, Eq)]
pub struct CycleReport {
    /// Events that were enqueued.
    pub forwarded: usize,
    /// Events of a forwarded kind that found the channel full.
    pub dropped: usize,
}

/// The payloads of `inbound` that are of a forwarded kind, in their order.
pub open spec fn notes_of(inbound: Seq<EventPayload>) -> Seq<EventPayload>
    decreases inbound.len(),
{
    if inbound.len() == 0 {
        Seq::<EventPayload>::empty()
    } else if inbound.last().forwarded_kind() {
        notes_of(inbound.drop_last()).push(inbound.last())
    } else {
        notes_of(inbound.drop_last())
    }
}

/// The payloads of a sequence of records, in their order.
pub open spec fn payloads_of(records: Seq<EventRecord>) -> Seq<EventPayload> {
    Seq::new(records.len(), |i: int| records[i].payload)
}

/// How many slots of a queue with `occupied` records are free.
pub open spec fn free_slots(occupied: nat, capacity: nat) -> nat {
    if occupied < capacity {
        (capacity - occupied) as nat
    } else {
        0
    }
}

/// How many of `offered` records a queue with `occupied` records accepts
/// when nothing is popped meanwhile: as many as it has free slots for.
pub open spec fn accepted(occupied: nat, capacity: nat, offered: nat) -> nat {
    if offered <= free_slots(occupied, capacity) {
        offered
    } else {
        free_slots(occupied, capacity)
    }
}

/// Calls `std::time::SystemTime::now`. Nothing is claimed of the reading.
#[verifier::external_body]
fn wall_clock() -> (now: SystemTime) {
    SystemTime::now()
}

/// What became of a note, given what its push returned: enqueued on success,
/// dropped when the channel was full.
pub fn outcome_of_push(pushed: &Result<(), Full>) -> (outcome: Disposition)
    ensures
        outcome is Forwarded <==> pushed is Ok,
        outcome is Dropped <==> pushed is Err,
{
    match pushed {
        Ok(_) => Disposition::Forwarded,
        Err(_) => Disposition::Dropped,
    }
}

/// Handles one inbound event, given the clock reading to stamp it with. An
/// event of another kind than note-on or note-off changes nothing. A note is
/// enqueued with `now` as its capture time if a slot is free, and is dropped
/// if none is.
pub fn forward_event(channel: &mut BoundedChannel, payload: EventPayload, now: SystemTime) -> (outcome:
    Disposition)
    ensures
        final(channel).capacity() == old(channel).capacity(),
        outcome is Ignored <==> !payload.forwarded_kind(),
        outcome is Forwarded <==> payload.forwarded_kind() && old(channel)@.len() < old(
            channel,
        ).capacity(),
        outcome is Dropped <==> payload.forwarded_kind() && old(channel)@.len() >= old(
            channel,
        ).capacity(),
        final(channel)@ == if payload.forwarded_kind() {
            pushed(old(channel)@, old(channel).capacity(), (EventRecord { captured_at: now, payload }))
        } else {
            old(channel)@
        },
        final(channel)@.len() <= final(channel).capacity(),
{
    proof {
        use_type_invariant(&*channel);
        channel.lemma_bounds();
    }
    if payload.is_forwarded_kind() {
        let pushed = channel.push(EventRecord::new(now, payload));
        outcome_of_push(&pushed)
    } else {
        Disposition::Ignored
    }
}

/// Runs one processing cycle: each event of `inbound`, in order, is handled
/// as `forward_event` says, stamped with the wall-clock time read at that
/// moment. Whatever the clock gives: the records that waited stay where they
/// were; behind them stand the first notes of the cycle, as many as there
/// were free slots; every later note is dropped and counted.
pub fn forward_cycle(channel: &mut BoundedChannel, inbound: &Vec<EventPayload>) -> (report: CycleReport)
    ensures
        final(channel).capacity() == old(channel).capacity(),
        report.forwarded == accepted(
            old(channel)@.len(),
            old(channel).capacity(),
            notes_of(inbound@).len(),
        ),
        report.forwarded + report.dropped == notes_of(inbound@).len(),
        final(channel)@.len() == old(channel)@.len() + report.forwarded,
        final(channel)@.len() <= final(channel).capacity(),
        final(channel)@.take(old(channel)@.len() as int) == old(channel)@,
        payloads_of(final(channel)@.skip(old(channel)@.len() as int)) == notes_of(inbound@).take(
            report.forwarded as int,
        ),
{
    let mut forwarded: usize = 0;
    let mut dropped: usize = 0;
    let mut index: usize = 0;
    let ghost waiting = channel@;
    let ghost capacity = channel.capacity();
    proof {
        use_type_invariant(&*channel);
        channel.lemma_bounds();
        assert(inbound@.take(0) =~= Seq::<EventPayload>::empty());
        assert(channel@.take(waiting.len() as int) =~= waiting);
        assert(payloads_of(channel@.skip(waiting.len() as int)) =~= notes_of(inbound@.take(0)).take(0));
    }
    while index < inbound.len()
        invariant
            index <= inbound.len(),
            waiting == old(channel)@,
            capacity == old(channel).capacity(),
            channel.capacity() == capacity,
            forwarded == accepted(waiting.len(), capacity, notes_of(inbound@.take(index as int)).len()),
            forwarded + dropped == notes_of(inbound@.take(index as int)).len(),
            notes_of(inbound@.take(index as int)).len() <= index,
            channel@.len() == waiting.len() + forwarded,
            channel@.len() <= capacity,
            channel@.take(waiting.len() as int) == waiting,
            payloads_of(channel@.skip(waiting.len() as int)) == notes_of(inbound@.take(index as int)).take(
                forwarded as int,
            ),
        decreases inbound.len() - index,
    {
        let payload = inbound[index];
        let ghost seen = notes_of(inbound@.take(index as int));
        let ghost before = channel@;
        proof {
            assert(inbound@.take(index + 1).drop_last() =~= inbound@.take(index as int));
            assert(inbound@.take(index + 1).last() == payload);
        }
        let outcome = if payload.is_forwarded_kind() {
            forward_event(channel, payload, wall_clock())
        } else {
            Disposition::Ignored
        };
        match outcome {
            Disposition::Forwarded => {
                forwarded = forwarded + 1;
                proof {
                    assert(channel@.take(waiting.len() as int) =~= before.take(waiting.len() as int));
                    assert(payloads_of(channel@.skip(waiting.len() as int)) =~= payloads_of(
                        before.skip(waiting.len() as int),
                    ).push(payload));
                    assert(seen.take(seen.len() as int) =~= seen);
                    assert(seen.push(payload).take(forwarded as int) =~= seen.push(payload));
                }
            },
            Disposition::Dropped => {
                dropped = dropped + 1;
                proof {
                    assert(seen.push(payload).take(forwarded as int) =~= seen.take(forwarded as int));
                }
            },
            Disposition::Ignored => {},
        }
        index = index + 1;
    }
    proof {
        assert(inbound@.take(index as int) =~= inbound@);
    }
    CycleReport { forwarded, dropped }
}

/// Handles one inbound event on the producer handle alone. An event of
/// another kind than note-on or note-off is ignored: nothing is offered and
/// the clock is not read. A note is stamped with the wall-clock time read at
/// that moment and offered to the channel once: it is enqueued, or, when the
/// channel is found full, dropped. The call never waits.
pub fn send_event(producer: &mut ProducerHandle, payload: EventPayload) -> (outcome: Disposition)
    ensures
        final(producer).capacity() == old(producer).capacity(),
        outcome is Ignored <==> !payload.forwarded_kind(),
        !payload.forwarded_kind() ==> final(producer).offered() == old(producer).offered(),
        payload.forwarded_kind() ==> {
            &&& final(producer).offered().len() == old(producer).offered().len() + 1
            &&& final(producer).offered().drop_last() == old(producer).offered()
            &&& final(producer).offered().last().payload == payload
        },
{
    if payload.is_forwarded_kind() {
        let ghost log = producer.offered();
        let record = EventRecord::new(wall_clock(), payload);
        let pushed = producer.push(record);
        proof {
            assert(log.push(record).drop_last() =~= log);
        }
        outcome_of_push(&pushed)
    } else {
        Disposition::Ignored
    }
}

/// Runs one processing cycle on the producer handle alone: each event of
/// `inbound`, in order, is handled as `send_event` says. Exactly the notes
/// of the cycle are offered, in their order, behind what was offered before.
/// A drop does not end the cycle: every note is either enqueued or counted
/// as dropped.
pub fn send_cycle(producer: &mut ProducerHandle, inbound: &Vec<EventPayload>) -> (report: CycleReport)
    ensures
        final(producer).capacity() == old(producer).capacity(),
        report.forwarded + report.dropped == notes_of(inbound@).len(),
        old(producer).offered().is_prefix_of(final(producer).offered()),
        payloads_of(final(producer).offered().skip(old(producer).offered().len() as int)) == notes_of(
            inbound@,
        ),
{
    let mut forwarded: usize = 0;
    let mut dropped: usize = 0;
    let mut index: usize = 0;
    let ghost before = producer.offered();
    proof {
        assert(inbound@.take(0) =~= Seq::<EventPayload>::empty());
        assert(payloads_of(producer.offered().skip(before.len() as int)) =~= notes_of(inbound@.take(0)));
    }
    while index < inbound.len()
        invariant
            index <= inbound.len(),
            before == old(producer).offered(),
            producer.capacity() == old(producer).capacity(),
            forwarded + dropped == notes_of(inbound@.take(index as int)).len(),
            notes_of(inbound@.take(index as int)).len() <= index,
            before.is_prefix_of(producer.offered()),
            payloads_of(producer.offered().skip(before.len() as int)) == notes_of(
                inbound@.take(index as int),
            ),
        decreases inbound.len() - index,
    {
        let payload = inbound[index];
        let ghost log = producer.offered();
        proof {
            assert(inbound@.take(index + 1).drop_last() =~= inbound@.take(index as int));
            assert(inbound@.take(index + 1).last() == payload);
        }
        match send_event(producer, payload) {
            Disposition::Forwarded => {
                forwarded = forwarded + 1;
            },
            Disposition::Dropped => {
                dropped = dropped + 1;
            },
            Disposition::Ignored => {},
        }
        proof {
            if payload.forwarded_kind() {
                assert(producer.offered() =~= log.push(producer.offered().last()));
                assert(payloads_of(producer.offered().skip(before.len() as int)) =~= payloads_of(
                    log.skip(before.len() as int),
                ).push(payload));
            }
        }
        index = index + 1;
    }
    proof {
        assert(inbound@.take(index as int) =~= inbound@);
    }
    CycleReport { forwarded, dropped }
}

} // verus!
