//! A generic last-in-first-out stack.
//!
//! The stack stores its elements in a vector whose end is the top: `push`
//! appends there, `pop` removes from there.  Its abstract value is the
//! sequence of elements in bottom-to-top order, so the last element of
//! `self@` is the next one out.

use vstd::prelude::*;

verus! {

/// A last-in-first-out stack; `self@` lists the elements bottom to top.
#[derive(Debug)]
pub struct Stack<T> {
    data: Vec<T>,
}

impl<T> View for Stack<T> {
    type V = Seq<T>;

    closed spec fn view(&self) -> Seq<T> {
        self.data@
    }
}

impl<T> Default for Stack<T> {
    /// An empty stack, as [`Stack::new`] builds it.
    fn default() -> (s: Stack<T>)
        ensures
            s@ == Seq::<T>::empty(),
    {
        Stack { data: Vec::new() }
    }
}

impl<T> Stack<T> {
    /// An empty stack.
    pub fn new() -> (s: Stack<T>)
        ensures
            s@ == Seq::<T>::empty(),
    {
        Stack { data: Vec::new() }
    }

    /// Whether no element is on the stack.
    pub fn is_empty(&self) -> (r: bool)
        ensures
            r <==> self@.len() == 0,
    {
        self.data.is_empty()
    }

    /// The number of stacked elements.
    pub fn len(&self) -> (r: usize)
        ensures
            r == self@.len(),
    {
        self.data.len()
    }

    /// Remove every element.
    pub fn clear(&mut self)
        ensures
            final(self)@ == Seq::<T>::empty(),
    {
        self.data.clear();
    }

    /// Put `item` on top of the stack.
    pub fn push(&mut self, item: T)
        ensures
            final(self)@ == old(self)@.push(item),
    {
        self.data.push(item);
    }

    /// Remove and return the top element, or `None` when the stack is
    /// empty, which leaves it untouched.
    pub fn pop(&mut self) -> (r: Option<T>)
        ensures
            old(self)@.len() == 0 ==> r is None && final(self)@ == old(self)@,
            old(self)@.len() > 0 ==> r == Some(old(self)@.last()) && final(self)@ == old(self)@.drop_last(),
    {
        self.data.pop()
    }

    /// Borrow the top element, or `None` when the stack is empty.
    pub fn peek(&self) -> (r: Option<&T>)
        ensures
            self@.len() == 0 ==> r is None,
            self@.len() > 0 ==> r.is_some() && *r.unwrap() == self@.last(),
    {
        self.data.as_slice().last()
    }

    /// Borrow the top element mutably, or `None` when the stack is empty.
    /// Writing through the returned reference replaces the top element.
    pub fn peek_mut(&mut self) -> (r: Option<&mut T>)
        ensures
            old(self)@.len() == 0 ==> r.is_none() && final(self)@ == Seq::<T>::empty(),
            old(self)@.len() > 0 ==> r.is_some() && *r.unwrap() == old(self)@.last() && final(self)@ == old(self)@.update(old(self)@.len() - 1, *final(r.unwrap())),
    {
        self.data.as_mut_slice().last_mut()
    }

    /// The stacked elements as a vector, top first (last in, first out).
    pub fn iter(&self) -> (r: Vec<T>) where T: Copy
        ensures
            r@ == self@.reverse(),
    {
        let mut r: Vec<T> = Vec::new();
        let n = self.data.len();
        let mut k: usize = 0;
        while k < n
            invariant
                n == self@.len(),
                k <= n,
                r@.len() == k,
                forall|m: int| 0 <= m < k ==> r@[m] == self@[n - 1 - m],
            decreases n - k,
        {
            r.push(self.data[n - 1 - k]);
            k = k + 1;
        }
        proof {
            assert(r@ =~= self@.reverse());
        }
        r
    }

    /// Borrow every stacked element mutably, as one slice running bottom to
    /// top (the reverse of [`Stack::iter`]'s order).  Writes through the
    /// slice become the new stack contents.
    pub fn iter_mut(&mut self) -> (r: &mut [T])
        ensures
            r@ == old(self)@,
            final(self)@ == final(r)@,
    {
        self.data.as_mut_slice()
    }

    /// Consume the stack and hand its elements out, top first.
    pub fn into_iter(self) -> (r: Vec<T>)
        ensures
            r@ == self@.reverse(),
    {
        let mut data = self.data;
        let ghost orig: Seq<T> = data@;
        let mut r: Vec<T> = Vec::new();
        proof {
            assert(orig.subrange(0, orig.len() as int) =~= orig);
        }
        while data.len() > 0
            invariant
                r@.len() + data@.len() == orig.len(),
                data@ == orig.subrange(0, data@.len() as int),
                forall|m: int| 0 <= m < r@.len() ==> r@[m] == orig[orig.len() - 1 - m],
            decreases data@.len(),
        {
            let item = data.pop().unwrap();
            proof {
                assert(data@ =~= orig.subrange(0, data@.len() as int));
            }
            r.push(item);
        }
        proof {
            assert(r@ =~= orig.reverse());
        }
        r
    }
}

} // verus!
