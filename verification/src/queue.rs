//! The executable work queue.

use crate::state::QueueState;
use vstd::prelude::*;

verus! {

/// A queue of work items that are visited in insertion order and may be added
/// to while the visit is under way.
pub struct WorkQueue<T: Clone> {
    data: Vec<T>,
    current_index: usize,
}

impl<T: Clone> View for WorkQueue<T> {
    type V = QueueState<T>;

    closed spec fn view(&self) -> QueueState<T> {
        QueueState { items: self.data@, position: self.current_index as nat }
    }
}

impl<T: Clone> WorkQueue<T> {
    /// Makes a queue with no items and the cursor at the start.
    pub fn create() -> (queue: WorkQueue<T>)
        ensures
            queue@ == QueueState::<T>::empty(),
    {
        WorkQueue::<T> { data: Vec::<T>::new(), current_index: 0 }
    }

    /// Puts `item` behind every item already held. The cursor does not move.
    pub fn add(&mut self, item: T)
        ensures
            final(self)@ == old(self)@.appended(item),
    {
        self.data.push(item);
    }

    /// Returns a clone of the item under the cursor, or `None` where the
    /// cursor stands on no item.
    pub fn current_value(&self) -> (value: Option<T>)
        ensures
            match self@.current() {
                Some(item) => value matches Some(copy) && cloned(item, copy),
                None => value is None,
            },
    {
        if self.current_index < self.data.len() {
            Some(self.data[self.current_index].clone())
        } else {
            None
        }
    }

    /// Returns the item under the cursor by reference, or `None` where the
    /// cursor stands on no item.
    pub fn current_ref(&self) -> (item: Option<&T>)
        ensures
            match self@.current() {
                Some(held) => item == Some(&held),
                None => item is None,
            },
    {
        if self.current_index < self.data.len() {
            Some(&self.data[self.current_index])
        } else {
            None
        }
    }

    /// Returns a clone of the item under the cursor and moves the cursor past
    /// it. Where the cursor stands on no item, returns `None` and changes
    /// nothing.
    pub fn next_value(&mut self) -> (value: Option<T>)
        ensures
            final(self)@ == old(self)@.consumed(),
            match old(self)@.current() {
                Some(item) => value matches Some(copy) && cloned(item, copy),
                None => value is None,
            },
            old(self)@.remaining() == 0 ==> value is None
                && final(self)@.remaining() == old(self)@.remaining()
                && final(self)@.dirty_count() == old(self)@.dirty_count(),
            old(self)@.remaining() > 0 ==> value is Some
                && final(self)@.remaining() == old(self)@.remaining() - 1
                && final(self)@.dirty_count() == old(self)@.dirty_count() + 1,
    {
        if self.current_index < self.data.len() {
            let result = Some(self.data[self.current_index].clone());
            self.current_index += 1;
            result
        } else {
            None
        }
    }

    /// Returns the item under the cursor by reference and moves the cursor
    /// past it. Where the cursor stands on no item, returns `None` and changes
    /// nothing.
    pub fn next_ref(&mut self) -> (item: Option<&T>)
        ensures
            final(self)@ == old(self)@.consumed(),
            match old(self)@.current() {
                Some(held) => item == Some(&held),
                None => item is None,
            },
            old(self)@.remaining() == 0 ==> item is None
                && final(self)@.remaining() == old(self)@.remaining()
                && final(self)@.dirty_count() == old(self)@.dirty_count(),
            old(self)@.remaining() > 0 ==> item is Some
                && final(self)@.remaining() == old(self)@.remaining() - 1
                && final(self)@.dirty_count() == old(self)@.dirty_count() + 1,
    {
        if self.current_index < self.data.len() {
            let result = Some(&self.data[self.current_index]);
            self.current_index += 1;
            result
        } else {
            None
        }
    }

    /// Moves the cursor one step without looking at any item. The cursor may
    /// end up beyond the last item.
    pub fn increment(&mut self)
        requires
            old(self)@.position < usize::MAX,
        ensures
            final(self)@ == old(self)@.advanced(),
    {
        self.current_index += 1;
    }

    /// Discards the visited items and puts the cursor on the first pending one.
    pub fn clean(&mut self)
        ensures
            final(self)@ == old(self)@.compacted(),
            final(self)@.dirty_count() == 0,
            final(self)@.remaining() == old(self)@.remaining(),
    {
        let len: usize = self.data.len();
        let at: usize = if self.current_index < len { self.current_index } else { len };
        let kept = self.data.split_off(at);
        self.data = kept;
        self.current_index = 0;
        proof {
            assert(self.data@ =~= old(self)@.pending());
        }
    }

    /// Returns how many items are pending.
    pub fn remaining(&self) -> (count: usize)
        ensures
            count == self@.remaining(),
    {
        if self.data.len() > self.current_index {
            self.data.len() - self.current_index
        } else {
            0
        }
    }

    /// Returns the raw cursor: the number of visited items not yet discarded,
    /// as long as the cursor has not been moved beyond the last item.
    pub fn dirty_count(&self) -> (count: usize)
        ensures
            count == self@.dirty_count(),
    {
        self.current_index
    }
}

} // verus!
