//! A concrete finite producer backed by a vector, yielding its elements in
//! order. It serves as the initial producer wrapped by a `QueueIter`.

use std::collections::VecDeque;
use vstd::prelude::*;

verus! {

use crate::{produce_result, produce_step, Producer};

/// A finite producer that yields the elements of a vector front to back.
pub struct VecProducer<T> {
    items: VecDeque<T>,
}

impl<T> VecProducer<T> {
    /// Create a producer that yields the elements of `items` in order.
    pub fn new(items: Vec<T>) -> (p: VecProducer<T>)
        ensures
            p.remaining() == items@,
    {
        let mut items = items;
        let mut fed: VecDeque<T> = VecDeque::new();
        let ghost all: Seq<T> = items@;
        while items.len() > 0
            invariant
                fed@ + items@ == all,
            decreases items.len(),
        {
            let item = items.remove(0);
            fed.push_back(item);
            proof {
                assert(fed@ + items@ =~= all);
            }
        }
        let p = VecProducer { items: fed };
        proof {
            assert(p.remaining() =~= all);
        }
        p
    }

    /// Create a producer with nothing to yield.
    pub fn empty() -> (p: VecProducer<T>)
        ensures
            p.remaining() == Seq::<T>::empty(),
    {
        VecProducer { items: VecDeque::new() }
    }
}

impl<T> Producer<T> for VecProducer<T> {
    closed spec fn remaining(&self) -> Seq<T> {
        self.items@
    }

    fn produce_next(&mut self) -> (r: Option<T>)
        ensures
            r == produce_result(old(self).remaining()),
            final(self).remaining() == produce_step(old(self).remaining()),
    {
        self.items.pop_front()
    }
}

} // verus!
