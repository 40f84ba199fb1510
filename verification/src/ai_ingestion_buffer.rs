//! A bounded first-in, first-out buffer that carries setpoints from the planning
//! layer into the deterministic kernel loop. Neither operation ever waits: a push
//! into a full buffer hands the item back, a pop from an empty one returns `None`.

use vstd::prelude::*;
use std::collections::VecDeque;

verus! {

pub struct AiIngestionBuffer<T> {
    capacity: usize,
    queue: VecDeque<T>,
}

impl<T> View for AiIngestionBuffer<T> {
    /// The items waiting, oldest first.
    type V = Seq<T>;

    closed spec fn view(&self) -> Seq<T> {
        self.queue@
    }
}

impl<T> AiIngestionBuffer<T> {
    /// No more items wait than the capacity allows.
    pub closed spec fn well_formed(self) -> bool {
        self.queue@.len() <= self.capacity
    }

    /// The most items the buffer holds at once.
    pub closed spec fn capacity(self) -> nat {
        self.capacity as nat
    }

    /// An empty buffer that holds at most `capacity` items.
    pub fn new(capacity: usize) -> (res: Self)
        ensures
            res.well_formed(),
            res@ == Seq::<T>::empty(),
            res.capacity() == capacity,
    {
        AiIngestionBuffer { capacity, queue: VecDeque::new() }
    }

    /// Appends `sp` behind the waiting items; when the buffer is full it is
    /// left unchanged and `sp` is handed back.
    pub fn push(&mut self, sp: T) -> (res: Result<(), T>)
        requires
            old(self).well_formed(),
        ensures
            final(self).well_formed(),
            final(self).capacity() == old(self).capacity(),
            old(self)@.len() < old(self).capacity() ==> res is Ok && final(self)@ == old(self)@.push(sp),
            old(self)@.len() >= old(self).capacity() ==> res == Err::<(), T>(sp) && final(self)@
                == old(self)@,
    {
        if self.queue.len() < self.capacity {
            self.queue.push_back(sp);
            Ok(())
        } else {
            Err(sp)
        }
    }

    /// Removes and returns the oldest waiting item, or `None` when there is none.
    pub fn pop(&mut self) -> (res: Option<T>)
        requires
            old(self).well_formed(),
        ensures
            final(self).well_formed(),
            final(self).capacity() == old(self).capacity(),
            old(self)@.len() == 0 ==> res is None && final(self)@ == old(self)@,
            old(self)@.len() > 0 ==> res == Some(old(self)@[0]) && final(self)@ == old(self)@.drop_first(),
    {
        self.queue.pop_front()
    }

    /// The number of items waiting.
    pub fn len(&self) -> (res: usize)
        ensures
            res == self@.len(),
    {
        self.queue.len()
    }
}

/// Items leave the buffer in the order they entered: after pushing `x` into a
/// buffer with room and popping the whole earlier contents, `x` is what comes
/// out next.
pub proof fn lemma_first_in_first_out<T>(waiting: Seq<T>, x: T)
    ensures
        waiting.push(x).skip(waiting.len() as int)[0] == x,
        waiting.push(x).skip(waiting.len() as int).len() == 1,
{
}

} // verus!
