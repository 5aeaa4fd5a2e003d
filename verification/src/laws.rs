//! What holds of the channel and of the history over several operations.
//!
//! The channel's view is the sequence that `drain_all` returns, so each
//! statement about a view after some pushes is a statement about the next
//! drain.

use crate::adapter::accepted;
use crate::channel::pushed_all;
use crate::event::EventRecord;
use crate::history::accumulated;
use vstd::prelude::*;

verus! {

/// With no pop in between, a queue that holds no more than its capacity
/// keeps, of the records offered, the first that it has free slots for, behind
/// what it held.
pub proof fn lemma_pushed_all(queue: Seq<EventRecord>, capacity: nat, items: Seq<EventRecord>)
    requires
        queue.len() <= capacity,
    ensures
        pushed_all(queue, capacity, items) == queue + items.take(
            accepted(queue.len(), capacity, items.len()) as int,
        ),
    decreases items.len(),
{
    let kept = accepted(queue.len(), capacity, items.len()) as int;
    if items.len() == 0 {
        assert(queue + items.take(kept) =~= queue);
    } else {
        let init = items.drop_last();
        let kept_before = accepted(queue.len(), capacity, init.len()) as int;
        lemma_pushed_all(queue, capacity, init);
        if queue.len() + init.len() < capacity {
            assert(init.take(kept_before) =~= init);
            assert((queue + init).push(items.last()) =~= queue + items.take(kept));
        } else {
            assert(init.take(kept_before) =~= items.take(kept));
        }
    }
}

/// First in, first out: when each of a run of pushes succeeds and nothing is
/// popped meanwhile, the queue then holds what it held before, followed by
/// exactly the pushed records in the order pushed. From an empty channel the
/// next drain returns exactly those records.
pub proof fn law_fifo(queue: Seq<EventRecord>, capacity: nat, items: Seq<EventRecord>)
    requires
        forall|k: int|
            0 <= k < items.len() ==> (#[trigger] pushed_all(queue, capacity, items.take(k))).len()
                < capacity,
    ensures
        pushed_all(queue, capacity, items) == queue + items,
        queue.len() == 0 ==> pushed_all(queue, capacity, items) == items,
    decreases items.len(),
{
    if items.len() == 0 {
        assert(queue + items =~= queue);
    } else {
        let init = items.drop_last();
        assert(items.take(items.len() - 1) =~= init);
        assert forall|k: int| 0 <= k < init.len() implies (#[trigger] pushed_all(
            queue,
            capacity,
            init.take(k),
        )).len() < capacity by {
            assert(init.take(k) =~= items.take(k));
        }
        law_fifo(queue, capacity, init);
        assert((queue + init).push(items.last()) =~= queue + items);
    }
    if queue.len() == 0 {
        assert(queue + items =~= items);
    }
}

/// The capacity bound: of one record more than the capacity, pushed into an
/// empty channel with no pop in between, every push but the last succeeds,
/// the last finds the channel full, and the channel then holds the first
/// `capacity` records in the order pushed.
pub proof fn law_capacity_bound(capacity: nat, items: Seq<EventRecord>)
    requires
        items.len() == capacity + 1,
    ensures
        forall|k: int|
            0 <= k < capacity ==> (#[trigger] pushed_all(
                Seq::<EventRecord>::empty(),
                capacity,
                items.take(k),
            )).len() < capacity,
        pushed_all(Seq::<EventRecord>::empty(), capacity, items.take(capacity as int)).len()
            == capacity,
        pushed_all(Seq::<EventRecord>::empty(), capacity, items) == items.take(capacity as int),
{
    let empty = Seq::<EventRecord>::empty();
    assert forall|k: int| 0 <= k <= capacity implies (#[trigger] pushed_all(
        empty,
        capacity,
        items.take(k),
    )).len() == k by {
        lemma_pushed_all(empty, capacity, items.take(k));
        assert(items.take(k).take(k) =~= items.take(k));
    }
    lemma_pushed_all(empty, capacity, items);
    assert(empty + items.take(capacity as int) =~= items.take(capacity as int));
}

/// The number of records waiting never exceeds the capacity, whatever is
/// pushed.
pub proof fn law_occupancy_bounded(queue: Seq<EventRecord>, capacity: nat, items: Seq<EventRecord>)
    requires
        queue.len() <= capacity,
    ensures
        pushed_all(queue, capacity, items).len() <= capacity,
    decreases items.len(),
{
    if items.len() > 0 {
        law_occupancy_bounded(queue, capacity, items.drop_last());
    }
}

/// A consumer invocation that drains nothing leaves the history as it was,
/// however many such invocations follow one another.
pub proof fn law_empty_drain_is_idle(history: Seq<EventRecord>, batches: Seq<Seq<EventRecord>>)
    requires
        forall|k: int| 0 <= k < batches.len() ==> (#[trigger] batches[k]).len() == 0,
    ensures
        accumulated(history, batches) == history,
    decreases batches.len(),
{
    if batches.len() > 0 {
        law_empty_drain_is_idle(history, batches.drop_last());
        assert(history + batches.last() =~= history);
    }
}

/// The history only grows: after each consumer invocation it is at least as
/// long as after the one before, and begins with the whole of what it was
/// then.
pub proof fn law_history_grows(history: Seq<EventRecord>, batches: Seq<Seq<EventRecord>>, k: int)
    requires
        0 < k <= batches.len(),
    ensures
        accumulated(history, batches.take(k - 1)).len() <= accumulated(history, batches.take(k)).len(),
        accumulated(history, batches.take(k - 1)).is_prefix_of(accumulated(history, batches.take(k))),
        accumulated(history, batches.take(k)) == accumulated(history, batches.take(k - 1))
            + batches[k - 1],
{
    assert(batches.take(k).drop_last() =~= batches.take(k - 1));
    assert(batches.take(k).last() == batches[k - 1]);
}

/// The history after any number of consumer invocations begins with the
/// history before the first of them.
pub proof fn law_history_keeps_its_start(history: Seq<EventRecord>, batches: Seq<Seq<EventRecord>>)
    ensures
        history.is_prefix_of(accumulated(history, batches)),
    decreases batches.len(),
{
    if batches.len() > 0 {
        law_history_keeps_its_start(history, batches.drop_last());
    }
}

} // verus!
