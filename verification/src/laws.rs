//! What holds of every work queue, proved over the model.
//!
//! Each operation of [`crate::queue::WorkQueue`] is stated as one function of
//! [`QueueState`]; the facts here are about those functions, and so about
//! every run of the executable queue.

use crate::state::QueueState;
use vstd::prelude::*;

verus! {

/// Appending a run of items puts exactly those items behind the ones already
/// held, in the order given, and leaves the cursor where it was.
pub proof fn appended_all_is_concatenation<T>(state: QueueState<T>, items: Seq<T>)
    ensures
        state.appended_all(items).items == state.items + items,
        state.appended_all(items).position == state.position,
    decreases items.len(),
{
    if items.len() == 0 {
        assert(state.items + items =~= state.items);
    } else {
        appended_all_is_concatenation(state, items.drop_last());
        assert(state.items + items =~= (state.items + items.drop_last()).push(items.last()));
    }
}

/// A queue that was only ever added to holds as many pending items as were
/// added, namely those items in order, and has visited none.
pub proof fn only_adding_counts_every_item<T>(items: Seq<T>)
    ensures
        QueueState::<T>::empty().appended_all(items).remaining() == items.len(),
        QueueState::<T>::empty().appended_all(items).dirty_count() == 0,
        QueueState::<T>::empty().appended_all(items).pending() == items,
{
    let start = QueueState::<T>::empty();
    appended_all_is_concatenation(start, items);
    assert(start.items + items =~= items);
    assert(items.subrange(0, items.len() as int) =~= items);
}

/// Consuming from a queue with nothing pending yields no item and changes
/// neither count.
pub proof fn consuming_when_exhausted_changes_nothing<T>(state: QueueState<T>)
    requires
        state.remaining() == 0,
    ensures
        state.current() is None,
        state.consumed() == state,
        state.consumed().remaining() == state.remaining(),
        state.consumed().dirty_count() == state.dirty_count(),
{
}

/// Consuming from a queue with something pending yields the oldest pending
/// item, leaves one fewer pending and one more visited, and keeps the order of
/// the rest.
pub proof fn consuming_takes_the_oldest_pending<T>(state: QueueState<T>)
    requires
        state.remaining() > 0,
    ensures
        state.current() == Some(state.pending().first()),
        state.consumed().remaining() == state.remaining() - 1,
        state.consumed().dirty_count() == state.dirty_count() + 1,
        state.consumed().pending() == state.pending().drop_first(),
        state.consumed().items == state.items,
{
    assert(state.consumed().pending() =~= state.pending().drop_first());
}

/// The pending count is the number of pending items, and nothing is pending
/// exactly when the cursor stands on no item.
pub proof fn remaining_counts_pending<T>(state: QueueState<T>)
    ensures
        state.remaining() == state.pending().len(),
        state.remaining() == 0 <==> state.current() is None,
{
}

/// While the cursor is in bounds, an added item comes after every item that
/// was pending before it, and one more item is pending.
pub proof fn adding_keeps_pending_order<T>(state: QueueState<T>, item: T)
    requires
        state.in_bounds(),
    ensures
        state.appended(item).pending() == state.pending().push(item),
        state.appended(item).remaining() == state.remaining() + 1,
        state.appended(item).dirty_count() == state.dirty_count(),
{
    assert(state.appended(item).pending() =~= state.pending().push(item));
}

/// Compaction leaves no visited item behind and keeps the pending items as
/// they were, in number and in order.
pub proof fn compacting_keeps_pending<T>(state: QueueState<T>)
    ensures
        state.compacted().dirty_count() == 0,
        state.compacted().remaining() == state.remaining(),
        state.compacted().pending() == state.pending(),
        state.compacted().current() == state.current(),
        state.compacted().in_bounds(),
{
    assert(state.compacted().pending() =~= state.pending());
}

/// Compacting twice in a row is the same as compacting once.
pub proof fn compacting_twice_is_compacting_once<T>(state: QueueState<T>)
    ensures
        state.compacted().compacted() == state.compacted(),
{
    compacting_keeps_pending(state);
}

/// A cursor that is in bounds stays in bounds under every operation but a
/// blind advance, which keeps it in bounds only while something is pending.
pub proof fn cursor_stays_in_bounds<T>(state: QueueState<T>, item: T)
    requires
        state.in_bounds(),
    ensures
        QueueState::<T>::empty().in_bounds(),
        state.appended(item).in_bounds(),
        state.consumed().in_bounds(),
        state.compacted().in_bounds(),
        state.advanced().in_bounds() <==> state.remaining() > 0,
{
}

/// While the cursor is in bounds, the visited and the pending items together
/// are all the items held, and the raw cursor is the number of visited items.
pub proof fn visited_and_pending_make_the_whole<T>(state: QueueState<T>)
    requires
        state.in_bounds(),
    ensures
        state.visited() + state.pending() == state.items,
        state.visited().len() == state.dirty_count(),
        state.dirty_count() + state.remaining() == state.items.len(),
{
    assert(state.visited() + state.pending() =~= state.items);
}

} // verus!
