//! A generic first-in-first-out queue.
//!
//! The queue is a thin wrapper around a vector whose front is the next
//! element out.  Its abstract value is the sequence of queued elements in
//! front-to-back order: `enqueue` appends at the back, `dequeue` removes at
//! the front.

use vstd::prelude::*;

verus! {

/// A first-in-first-out queue; `self@` lists the elements front to back.
#[derive(Debug)]
pub struct Queue<T> {
    data: Vec<T>,
}

impl<T> View for Queue<T> {
    type V = Seq<T>;

    closed spec fn view(&self) -> Seq<T> {
        self.data@
    }
}

impl<T> Default for Queue<T> {
    /// An empty queue, as [`Queue::new`] builds it.
    fn default() -> (q: Queue<T>)
        ensures
            q@ == Seq::<T>::empty(),
    {
        Queue { data: Vec::new() }
    }
}

impl<T> Queue<T> {
    /// An empty queue.
    pub fn new() -> (q: Queue<T>)
        ensures
            q@ == Seq::<T>::empty(),
    {
        Queue { data: Vec::new() }
    }

    /// Whether no element is queued.
    pub fn is_empty(&self) -> (r: bool)
        ensures
            r <==> self@.len() == 0,
    {
        self.data.is_empty()
    }

    /// The number of queued elements.
    pub fn len(&self) -> (r: usize)
        ensures
            r == self@.len(),
    {
        self.data.len()
    }

    /// Remove every element.
    pub fn clear(&mut self)
        ensures
            final(self)@ == Seq::<T>::empty(),
    {
        self.data.clear();
    }

    /// Add `item` at the back of the queue.
    pub fn enqueue(&mut self, item: T)
        ensures
            final(self)@ == old(self)@.push(item),
    {
        self.data.push(item);
    }

    /// Remove and return the front element, or `None` when the queue is
    /// empty, which leaves it untouched.
    pub fn dequeue(&mut self) -> (r: Option<T>)
        ensures
            old(self)@.len() == 0 ==> r is None && final(self)@ == old(self)@,
            old(self)@.len() > 0 ==> r == Some(old(self)@.first()) && final(self)@ == old(self)@.drop_first(),
    {
        if self.data.len() == 0 {
            None
        } else {
            let item = self.data.remove(0);
            proof {
                assert(old(self)@.remove(0) =~= old(self)@.drop_first());
            }
            Some(item)
        }
    }

    /// Borrow the front element, or `None` when the queue is empty.
    pub fn peek(&self) -> (r: Option<&T>)
        ensures
            self@.len() == 0 ==> r is None,
            self@.len() > 0 ==> r.is_some() && *r.unwrap() == self@.first(),
    {
        self.data.as_slice().first()
    }

    /// Borrow the front element mutably, or `None` when the queue is empty.
    /// Writing through the returned reference replaces the front element.
    pub fn peek_mut(&mut self) -> (r: Option<&mut T>)
        ensures
            old(self)@.len() == 0 ==> r.is_none() && final(self)@ == Seq::<T>::empty(),
            old(self)@.len() > 0 ==> r.is_some() && *r.unwrap() == old(self)@.first() && final(self)@ == old(self)@.update(0, *final(r.unwrap())),
    {
        self.data.as_mut_slice().first_mut()
    }

    /// The queued elements as a vector, front to back.
    pub fn iter(&self) -> (r: Vec<T>) where T: Copy
        ensures
            r@ == self@,
    {
        let mut r: Vec<T> = Vec::new();
        let mut k: usize = 0;
        while k < self.data.len()
            invariant
                k <= self@.len(),
                r@ =~= self@.subrange(0, k as int),
            decreases self@.len() - k,
        {
            r.push(self.data[k]);
            k = k + 1;
        }
        proof {
            assert(r@ =~= self@);
        }
        r
    }

    /// Borrow every queued element mutably, as one slice running front to
    /// back.  Writes through the slice become the new queue contents.
    pub fn iter_mut(&mut self) -> (r: &mut [T])
        ensures
            r@ == old(self)@,
            final(self)@ == final(r)@,
    {
        self.data.as_mut_slice()
    }

    /// Consume the queue and hand its elements out, front to back.
    pub fn into_iter(self) -> (r: Vec<T>)
        ensures
            r@ == self@,
    {
        self.data
    }
}

} // verus!
