//! A first-in-first-out queue of samples or events, modelled as the sequence
//! of its elements.

use std::collections::VecDeque;

use vstd::prelude::*;

verus! {

/// A plain FIFO queue.
#[derive(Debug)]
pub struct Fifo<T> {
    deque: VecDeque<T>,
}

impl<T> View for Fifo<T> {
    type V = Seq<T>;

    closed spec fn view(&self) -> Seq<T> {
        self.deque@
    }
}

impl<T> Fifo<T> {
    pub fn new() -> (r: Fifo<T>)
        ensures
            r@ == Seq::<T>::empty(),
    {
        let r = Fifo { deque: VecDeque::new() };
        proof {
            assert(r@ =~= Seq::<T>::empty());
        }
        r
    }

    /// Append one element at the back.
    pub fn push_back(&mut self, v: T)
        ensures
            final(self)@ == old(self)@.push(v),
    {
        self.deque.push_back(v);
    }

    /// Take the oldest element, if any.
    pub fn pop_front(&mut self) -> (r: Option<T>)
        ensures
            match r {
                Some(x) => old(self)@.len() > 0 && x == old(self)@[0] && final(self)@ == old(
                    self,
                )@.skip(1),
                None => old(self)@.len() == 0 && final(self)@ == old(self)@,
            },
    {
        let r = self.deque.pop_front();
        proof {
            if old(self)@.len() > 0 {
                assert(old(self).deque@.subrange(1, old(self).deque@.len() as int) =~= old(
                    self,
                )@.skip(1));
            }
        }
        r
    }

    /// How many elements are queued.
    pub fn len(&self) -> (r: usize)
        ensures
            r == self@.len(),
    {
        self.deque.len()
    }
}

} // verus!
