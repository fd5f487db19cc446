//! The laws of the queueing behaviour, stated over the same step functions
//! that the contracts of `enqueue` and `produce_next` use. An interaction
//! with a `QueueIter` is modelled as a sequence of operations, each either an
//! enqueue or a production call, applied to the upcoming sequence.

use vstd::prelude::*;

verus! {

use crate::{enqueue_step, produce_result, produce_step};

/// One externally visible operation on the queueing producer: enqueuing an
/// element, or making one production call.
pub enum Op<T> {
    Enqueue(T),
    Produce,
}

/// The upcoming sequence left after starting from `s` and applying the
/// operations `ops` in order.
pub open spec fn run_state<T>(s: Seq<T>, ops: Seq<Op<T>>) -> Seq<T>
    decreases ops.len(),
{
    if ops.len() == 0 {
        s
    } else {
        match ops[0] {
            Op::Enqueue(item) => run_state(enqueue_step(s, item), ops.drop_first()),
            Op::Produce => run_state(produce_step(s), ops.drop_first()),
        }
    }
}

/// The elements produced while starting from `s` and applying the operations
/// `ops` in order, in the order they were produced.
pub open spec fn run_output<T>(s: Seq<T>, ops: Seq<Op<T>>) -> Seq<T>
    decreases ops.len(),
{
    if ops.len() == 0 {
        Seq::empty()
    } else {
        match ops[0] {
            Op::Enqueue(item) => run_output(enqueue_step(s, item), ops.drop_first()),
            Op::Produce => {
                if s.len() > 0 {
                    seq![s[0]] + run_output(produce_step(s), ops.drop_first())
                } else {
                    run_output(s, ops.drop_first())
                }
            }
        }
    }
}

/// The elements enqueued by the operations `ops`, in enqueue order.
pub open spec fn enqueued<T>(ops: Seq<Op<T>>) -> Seq<T>
    decreases ops.len(),
{
    if ops.len() == 0 {
        Seq::empty()
    } else {
        match ops[0] {
            Op::Enqueue(item) => seq![item] + enqueued(ops.drop_first()),
            Op::Produce => enqueued(ops.drop_first()),
        }
    }
}

/// Accounting law: however enqueues and production calls are interleaved,
/// the elements produced so far followed by the elements still upcoming are
/// exactly the initial elements in order followed by the enqueued elements
/// in enqueue order. Enqueuing only ever extends the tail.
pub proof fn lemma_accounting<T>(s: Seq<T>, ops: Seq<Op<T>>)
    ensures
        run_output(s, ops) + run_state(s, ops) == s + enqueued(ops),
    decreases ops.len(),
{
    if ops.len() == 0 {
        assert(run_output(s, ops) + run_state(s, ops) =~= s + enqueued(ops));
    } else {
        let rest = ops.drop_first();
        match ops[0] {
            Op::Enqueue(item) => {
                lemma_accounting(enqueue_step(s, item), rest);
                assert(enqueue_step(s, item) + enqueued(rest) =~= s + enqueued(ops));
            }
            Op::Produce => {
                lemma_accounting(produce_step(s), rest);
                if s.len() > 0 {
                    let tail = produce_step(s);
                    assert(run_output(s, ops) + run_state(s, ops) =~= seq![s[0]] + (run_output(
                        tail,
                        rest,
                    ) + run_state(tail, rest)));
                    assert(seq![s[0]] + (tail + enqueued(rest)) =~= s + enqueued(ops));
                }
            }
        }
    }
}

/// Full-drain law: once nothing is upcoming any more, the total production
/// output is exactly the initial elements followed by the enqueued elements
/// in enqueue order, however the operations were interleaved.
pub proof fn lemma_full_drain<T>(s: Seq<T>, ops: Seq<Op<T>>)
    requires
        run_state(s, ops).len() == 0,
    ensures
        run_output(s, ops) == s + enqueued(ops),
{
    lemma_accounting(s, ops);
    assert(run_output(s, ops) + run_state(s, ops) =~= run_output(s, ops));
}

/// The upcoming sequence after `n` production calls with no enqueues
/// in between.
pub open spec fn produce_n<T>(s: Seq<T>, n: nat) -> Seq<T>
    decreases n,
{
    if n == 0 {
        s
    } else {
        produce_n(produce_step(s), (n - 1) as nat)
    }
}

/// Production calls with no enqueues in between remove elements from the
/// head one at a time.
pub proof fn lemma_produce_n_skips<T>(s: Seq<T>, n: nat)
    requires
        n <= s.len(),
    ensures
        produce_n(s, n) == s.skip(n as int),
    decreases n,
{
    if n == 0 {
        assert(produce_n(s, n) =~= s.skip(0));
    } else {
        lemma_produce_n_skips(produce_step(s), (n - 1) as nat);
        assert(s.drop_first().skip(n as int - 1) =~= s.skip(n as int));
    }
}

/// Surfacing law: enqueue an element, then make production calls until it
/// surfaces; the call that reaches it returns exactly that element,
/// unchanged, and nothing is upcoming after it.
pub proof fn lemma_enqueue_surfaces<T>(s: Seq<T>, item: T)
    ensures
        produce_result(produce_n(enqueue_step(s, item), s.len())) == Some(item),
        produce_step(produce_n(enqueue_step(s, item), s.len())).len() == 0,
{
    lemma_produce_n_skips(enqueue_step(s, item), s.len());
    assert(enqueue_step(s, item).skip(s.len() as int) =~= seq![item]);
}

/// Boundary law: with nothing enqueued, enough production calls yield
/// exactly the initial elements in order, and every further call finds
/// nothing available.
pub proof fn lemma_no_enqueues<T>(s: Seq<T>, ops: Seq<Op<T>>)
    requires
        forall|i: int| 0 <= i < ops.len() ==> ops[i] is Produce,
        ops.len() >= s.len(),
    ensures
        run_output(s, ops) == s,
        run_state(s, ops).len() == 0,
        produce_result(run_state(s, ops)) is None,
    decreases ops.len(),
{
    if ops.len() == 0 {
        assert(run_output(s, ops) =~= s);
    } else {
        let rest = ops.drop_first();
        assert(ops[0] is Produce);
        lemma_no_enqueues(produce_step(s), rest);
        if s.len() > 0 {
            assert(run_output(s, ops) =~= seq![s[0]] + run_output(produce_step(s), rest));
            assert(seq![s[0]] + s.drop_first() =~= s);
        }
    }
}

/// Resumption law: when a production call has just found nothing available,
/// enqueuing an element makes the very next production call return exactly
/// that element, and nothing more is upcoming after it.
pub proof fn lemma_resumption<T>(s: Seq<T>, item: T)
    requires
        s.len() == 0,
    ensures
        produce_result(s) is None,
        produce_result(enqueue_step(s, item)) == Some(item),
        produce_step(enqueue_step(s, item)).len() == 0,
{
}

} // verus!
