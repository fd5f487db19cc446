//! An iterator-like adapter that lets new elements be appended ("enqueued")
//! to the tail of a sequence of elements at any time, including after the
//! sequence has reported that nothing is available. A "nothing available"
//! answer is therefore not terminal: a later enqueue makes a later production
//! call yield again.

use std::collections::VecDeque;
use vstd::prelude::*;

pub mod laws;
pub mod producer;

verus! {

/// The upcoming sequence after enqueuing `item`: the tail is extended.
pub open spec fn enqueue_step<T>(s: Seq<T>, item: T) -> Seq<T> {
    s.push(item)
}

/// The upcoming sequence after one production call: the head is removed if
/// there is one, and nothing changes otherwise.
pub open spec fn produce_step<T>(s: Seq<T>) -> Seq<T> {
    if s.len() > 0 {
        s.drop_first()
    } else {
        s
    }
}

/// What one production call returns when the upcoming sequence is `s`: the
/// head if there is one, and "nothing available" otherwise.
pub open spec fn produce_result<T>(s: Seq<T>) -> Option<T> {
    if s.len() > 0 {
        Some(s[0])
    } else {
        None
    }
}

/// A source of elements, drawn one at a time. `remaining` is the sequence of
/// elements it has still to yield; a production call yields the head of that
/// sequence, or reports that nothing remains.
pub trait Producer<T>: Sized {
    /// The elements this producer has still to yield, in order.
    spec fn remaining(&self) -> Seq<T>;

    /// Draw the next element, or report that none remain.
    fn produce_next(&mut self) -> (r: Option<T>)
        ensures
            r == produce_result(old(self).remaining()),
            final(self).remaining() == produce_step(old(self).remaining()),
    ;
}

/// A producer of elements allowing for enqueuing elements to its end.
/// Elements can be added anytime, even after a production call has reported
/// that nothing is available: a later call can then yield again.
pub struct QueueIter<I, T> where I: Producer<T> {
    initial: I,
    next: VecDeque<T>,
}

impl<I, T> QueueIter<I, T> where I: Producer<T> {
    /// The elements still to be produced: what remains of the initial
    /// producer, then the enqueued elements in enqueue order.
    pub closed spec fn upcoming(&self) -> Seq<T> {
        self.initial.remaining() + self.next@
    }

    /// Enqueue an element to the end of this producer.
    pub fn enqueue(&mut self, item: T)
        ensures
            final(self).upcoming() == enqueue_step(old(self).upcoming(), item),
    {
        self.next.push_back(item);
        proof {
            assert(self.upcoming() =~= enqueue_step(old(self).upcoming(), item));
        }
    }

    /// Produce the next element: the head of the upcoming sequence, or
    /// `None` when nothing is available right now. `None` is not terminal;
    /// after a further `enqueue` the next call yields again.
    pub fn produce_next(&mut self) -> (r: Option<T>)
        ensures
            r == produce_result(old(self).upcoming()),
            final(self).upcoming() == produce_step(old(self).upcoming()),
    {
        match self.initial.produce_next() {
            Some(item) => {
                proof {
                    assert(self.upcoming() =~= produce_step(old(self).upcoming()));
                }
                Some(item)
            }
            None => {
                let r = self.next.pop_front();
                proof {
                    assert(old(self).upcoming() =~= old(self).next@);
                    assert(self.upcoming() =~= self.next@);
                }
                r
            }
        }
    }
}

/// Create a `QueueIter` over the given initial producer, with nothing
/// enqueued yet.
pub fn queue_iter<I, T>(initial: I) -> (q: QueueIter<I, T>) where I: Producer<T>
    ensures
        q.upcoming() == initial.remaining(),
{
    let q = QueueIter { initial, next: VecDeque::new() };
    proof {
        assert(q.upcoming() =~= q.initial.remaining());
    }
    q
}

/// Extension method `queue_iter` for any producer.
pub trait IteratorExt<T>: Producer<T> {
    /// Create a `QueueIter` allowing for enqueuing elements to the end of
    /// this producer.
    fn queue_iter(self) -> (q: QueueIter<Self, T>)
        ensures
            q.upcoming() == self.remaining(),
    ;
}

impl<I, T> IteratorExt<T> for I where I: Producer<T> {
    fn queue_iter(self) -> (q: QueueIter<I, T>) {
        queue_iter(self)
    }
}

} // verus!
