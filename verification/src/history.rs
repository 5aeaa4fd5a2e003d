//! The consumer side: an append-only log of the records taken out of the
//! channel, extended by one whole drain at a time: of a whole channel with
//! `accumulate`, of the consumer handle alone with `accumulate_from`.

use crate::channel::{BoundedChannel, ConsumerHandle};
use crate::event::EventRecord;
use vstd::prelude::*;

verus! {

/// Every record consumed so far, in the order of its arrival. Its view is
/// that sequence.
pub struct History {
    records: Vec<EventRecord>,
}

/// A history after a number of consumer invocations, given what each of them
/// drained: the batches appended one after another.
pub open spec fn accumulated(history: Seq<EventRecord>, batches: Seq<Seq<EventRecord>>) -> Seq<EventRecord>
    decreases batches.len(),
{
    if batches.len() == 0 {
        history
    } else {
        accumulated(history, batches.drop_last()) + batches.last()
    }
}

impl View for History {
    type V = Seq<EventRecord>;

    closed spec fn view(&self) -> Seq<EventRecord> {
        self.records@
    }
}

impl History {
    /// The empty history.
    pub fn new() -> (history: History)
        ensures
            history@ == Seq::<EventRecord>::empty(),
    {
        History { records: Vec::new() }
    }

    /// The number of records.
    pub fn len(&self) -> (n: usize)
        ensures
            n == self@.len(),
    {
        self.records.len()
    }

    /// The records, oldest first, for reading.
    pub fn records(&self) -> (records: &Vec<EventRecord>)
        ensures
            records@ == self@,
    {
        &self.records
    }

    /// Appends what one drain delivered, in the order delivered. Nothing that
    /// was in the history moves or leaves.
    pub fn absorb(&mut self, drained: Vec<EventRecord>)
        ensures
            final(self)@ == old(self)@ + drained@,
            old(self)@.is_prefix_of(final(self)@),
            final(self)@.len() == old(self)@.len() + drained@.len(),
    {
        let mut drained = drained;
        self.records.append(&mut drained);
    }

    /// One consumer invocation: drains the channel to empty and appends what
    /// came out. Returns the number of records appended. With nothing waiting
    /// the history stays as it was.
    pub fn accumulate(&mut self, channel: &mut BoundedChannel) -> (appended: usize)
        ensures
            final(self)@ == old(self)@ + old(channel)@,
            old(self)@.is_prefix_of(final(self)@),
            final(self)@.len() == old(self)@.len() + appended,
            appended == old(channel)@.len(),
            final(channel)@ == Seq::<EventRecord>::empty(),
            final(channel).capacity() == old(channel).capacity(),
            old(channel)@.len() == 0 ==> final(self)@ == old(self)@ && final(channel)@ == old(channel)@,
    {
        let drained = channel.drain_all();
        let appended = drained.len();
        self.absorb(drained);
        proof {
            if old(channel)@.len() == 0 {
                assert(old(self)@ + old(channel)@ =~= old(self)@);
                assert(old(channel)@ =~= Seq::<EventRecord>::empty());
            }
        }
        appended
    }

    /// One consumer invocation on the consumer handle alone: drains what
    /// waits, at most one channel's worth, and appends exactly the records
    /// that the drain took, in the order taken. Returns the number of records
    /// appended. Nothing that was in the history moves or leaves.
    pub fn accumulate_from(&mut self, consumer: &mut ConsumerHandle) -> (appended: usize)
        ensures
            final(consumer).capacity() == old(consumer).capacity(),
            appended <= old(consumer).capacity(),
            old(consumer).taken().is_prefix_of(final(consumer).taken()),
            final(consumer).taken().len() == old(consumer).taken().len() + appended,
            final(self)@ == old(self)@ + final(consumer).taken().skip(
                old(consumer).taken().len() as int,
            ),
            old(self)@.is_prefix_of(final(self)@),
            final(self)@.len() == old(self)@.len() + appended,
    {
        let drained = consumer.drain_all();
        let appended = drained.len();
        proof {
            assert(consumer.taken().skip(old(consumer).taken().len() as int) =~= drained@);
        }
        self.absorb(drained);
        appended
    }
}

} // verus!
