//! The mathematical model of a work queue: a sequence of items and a cursor.

use vstd::prelude::*;

verus! {

/// What a work queue is: all items it holds, oldest first, and the index of
/// the next item to visit.
///
/// Items below `position` have been visited; items from `position` on are
/// pending. The cursor may stand beyond the last item, in which case nothing
/// is pending.
pub struct QueueState<T> {
    pub items: Seq<T>,
    pub position: nat,
}

impl<T> QueueState<T> {
    /// The queue that holds nothing and has visited nothing.
    pub open spec fn empty() -> Self {
        QueueState { items: Seq::empty(), position: 0 }
    }

    /// The cursor stands on an item or directly behind the last one.
    pub open spec fn in_bounds(self) -> bool {
        self.position <= self.items.len()
    }

    /// The items not yet visited, oldest first.
    pub open spec fn pending(self) -> Seq<T> {
        if self.position <= self.items.len() {
            self.items.subrange(self.position as int, self.items.len() as int)
        } else {
            Seq::empty()
        }
    }

    /// The items already visited and not yet discarded, oldest first.
    pub open spec fn visited(self) -> Seq<T> {
        if self.position <= self.items.len() {
            self.items.subrange(0, self.position as int)
        } else {
            self.items
        }
    }

    /// How many items are pending: the length behind the cursor, never below zero.
    pub open spec fn remaining(self) -> nat {
        if self.items.len() > self.position {
            (self.items.len() - self.position) as nat
        } else {
            0
        }
    }

    /// The raw cursor. It counts the visited items while the cursor is in bounds.
    pub open spec fn dirty_count(self) -> nat {
        self.position
    }

    /// The item under the cursor, if the cursor stands on one.
    pub open spec fn current(self) -> Option<T> {
        if self.position < self.items.len() {
            Some(self.items[self.position as int])
        } else {
            None
        }
    }

    /// The state after `item` was put at the tail. The cursor stays.
    pub open spec fn appended(self, item: T) -> Self {
        QueueState { items: self.items.push(item), position: self.position }
    }

    /// The state after each of `items` was put at the tail, in order.
    pub open spec fn appended_all(self, items: Seq<T>) -> Self
        decreases items.len(),
    {
        if items.len() == 0 {
            self
        } else {
            self.appended_all(items.drop_last()).appended(items.last())
        }
    }

    /// The state after the cursor moved one step, whether or not it stood on an item.
    pub open spec fn advanced(self) -> Self {
        QueueState { items: self.items, position: self.position + 1 }
    }

    /// The state after one attempt to consume: the cursor moves one step if it
    /// stood on an item, and nothing changes otherwise.
    pub open spec fn consumed(self) -> Self {
        if self.position < self.items.len() {
            self.advanced()
        } else {
            self
        }
    }

    /// The state after compaction: the pending items alone, with the cursor on
    /// the first of them.
    pub open spec fn compacted(self) -> Self {
        QueueState { items: self.pending(), position: 0 }
    }
}

} // verus!
