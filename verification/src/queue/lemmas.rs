//! What follows from the contracts of the containers: laws that relate
//! several operations, proved over the model.

use super::error::QueueError;
use super::model::{
    added_by, after_adds, after_op, after_ops, after_removals, head_of, is_removal_run,
    peek_outcome, removed_by, rest_of, BufferState, QueueOp,
};
use vstd::prelude::*;

verus! {

/// Adding elements one by one appends them, in order, behind what was there.
pub proof fn lemma_after_adds<T>(s: Seq<T>, items: Seq<T>)
    ensures
        after_adds(s, items) == s + items,
    decreases items.len(),
{
    if items.len() > 0 {
        lemma_after_adds(s.push(items.first()), items.drop_first());
    }
}

/// Removing `n` elements takes away the `n` oldest, and everything once `n`
/// reaches the number of elements.
pub proof fn lemma_after_removals<T>(s: Seq<T>, n: nat)
    ensures
        n <= s.len() ==> after_removals(s, n) == s.skip(n as int),
        n >= s.len() ==> after_removals(s, n) == Seq::<T>::empty(),
    decreases n,
{
    if n > 0 {
        lemma_after_removals(rest_of(s), (n - 1) as nat);
    }
}

/// First in, first out: after `items` were added to an empty queue, the
/// removal that follows `k` earlier ones hands out `items[k]`, and the one
/// that follows `items.len()` earlier ones fails with `Empty`.
pub proof fn lemma_fifo_order<T>(items: Seq<T>, k: nat)
    requires
        k <= items.len(),
    ensures
        head_of(after_removals(after_adds(Seq::empty(), items), k)) == if k < items.len() {
            Ok::<T, QueueError>(items[k as int])
        } else {
            Err::<T, QueueError>(QueueError::Empty)
        },
{
    lemma_after_adds(Seq::<T>::empty(), items);
    lemma_after_removals(items, k);
}

/// A queue that took `items.len()` elements since it was empty and gave `m`
/// of them back holds the difference.
pub proof fn lemma_size_after_adds_and_removals<T>(items: Seq<T>, m: nat)
    requires
        m <= items.len(),
    ensures
        after_removals(after_adds(Seq::empty(), items), m).len() == items.len() - m,
{
    lemma_after_adds(Seq::<T>::empty(), items);
    lemma_after_removals(items, m);
}

/// An unbounded queue neither loses, nor makes up, nor reorders anything:
/// whatever additions and removals are carried out on it, in whatever order,
/// the elements handed out followed by the elements still held are the
/// elements held at the start followed by the elements added.
pub proof fn lemma_queue_keeps_order<T>(s: Seq<T>, ops: Seq<QueueOp<T>>)
    ensures
        removed_by(s, ops) + after_ops(s, ops) == s + added_by(ops),
    decreases ops.len(),
{
    if ops.len() > 0 {
        let next = after_op(s, ops.first());
        let later = ops.drop_first();
        lemma_queue_keeps_order(next, later);
        if ops.first() is Remove && s.len() > 0 {
            // The head goes out first: it stands before all that goes out
            // later, and before all that stays.
            let head = seq![s.first()];
            let out = removed_by(next, later);
            let left = after_ops(next, later);
            assert((head + out) + left =~= head + (out + left));
        }
    }
}

/// The size of an unbounded queue is what it was at the start, plus the
/// number of additions, less the number of removals that found an element.
pub proof fn lemma_queue_size<T>(s: Seq<T>, ops: Seq<QueueOp<T>>)
    ensures
        after_ops(s, ops).len() == s.len() + added_by(ops).len() - removed_by(s, ops).len(),
{
    lemma_queue_keeps_order(s, ops);
    assert((removed_by(s, ops) + after_ops(s, ops)).len() == (s + added_by(ops)).len());
}

/// Peeking and removing agree on the head: on the same contents either both
/// fail with `Empty`, or peeking gives a clone of the very element that a
/// removal would hand out.
pub proof fn lemma_peek_agrees_with_removal<T: Clone>(s: Seq<T>, peeked: Result<T, QueueError>)
    requires
        peek_outcome(s, peeked),
    ensures
        peeked is Err <==> head_of(s) is Err,
        peeked is Err ==> peeked == Err::<T, QueueError>(QueueError::Empty),
        peeked is Ok ==> cloned(head_of(s).unwrap(), peeked.unwrap()),
{
}

/// Additions to a buffer append at the tail and keep the newest elements
/// that fit: after `items` were added, the buffer holds what it held before
/// followed by `items`, less as many of the oldest as exceed the capacity.
pub proof fn lemma_buffer_after_adds<T>(s: BufferState<T>, items: Seq<T>)
    requires
        s.wf(),
    ensures
        s.after_adds(items).wf(),
        s.after_adds(items).capacity == s.capacity,
        s.after_adds(items).default_value == s.default_value,
        s.after_adds(items).elements == (s.elements + items).skip(
            if s.elements.len() + items.len() <= s.capacity {
                0
            } else {
                s.elements.len() + items.len() - s.capacity
            },
        ),
    decreases items.len(),
{
    if items.len() > 0 {
        lemma_buffer_after_adds(s.after_add(items.first()), items.drop_first());
    }
}

/// Filling a buffer made without a default value: of the elements `items`
/// added in turn to the empty buffer, the first `capacity` displace nothing
/// and each raises the size by one. From then on the size stays at the
/// capacity, and each addition displaces the oldest element, the one added
/// `capacity` additions before it. The addition that follows the first
/// `capacity` ones thus hands back the first element added.
pub proof fn lemma_plain_buffer_fill<T>(capacity: nat, items: Seq<T>, k: int)
    requires
        0 <= k < items.len(),
    ensures
        ({
            let before = BufferState::<T>::empty(capacity).after_adds(items.take(k));
            &&& before.elements.len() == if k < capacity { k } else { capacity as int }
            &&& before.evicted_by_add(items[k]) == if k < capacity {
                None
            } else {
                Some(items[k - capacity])
            }
            &&& before.after_add(items[k]).elements.len() == if k < capacity {
                k + 1
            } else {
                capacity as int
            }
        }),
{
    lemma_buffer_after_adds(BufferState::<T>::empty(capacity), items.take(k));
}

/// One removal from a buffer that refills with `value` and is full of clones
/// of it, where the capacity is not zero: the removal hands out a clone of
/// `value`, and the buffer is left full of clones of `value` again.
pub proof fn lemma_backfill_removal<T: Clone>(s: BufferState<T>, next: BufferState<T>, value: T)
    requires
        s.is_filled_with(value),
        s.capacity > 0,
        s.removal_leads_to(next),
    ensures
        head_of(s.elements) is Ok,
        cloned(value, head_of(s.elements).unwrap()),
        next.capacity == s.capacity,
        next.is_filled_with(value),
{
    assert forall|i: int| 0 <= i < next.elements.len() implies cloned(
        value,
        #[trigger] next.elements[i],
    ) by {
        if i < next.elements.len() - 1 {
            // All but the last stood in `s` already, one place further back.
            assert(next.elements[i] == s.elements.drop_first()[i]);
        }
    }
}

/// Any number of removals from a buffer that was made full of clones of its
/// default value `value`, where the capacity is not zero: in every state that
/// the buffer passes through it is full, so its size never drops below the
/// capacity, and the next removal succeeds and hands out a clone of `value`.
pub proof fn lemma_backfill_removals<T: Clone>(states: Seq<BufferState<T>>, value: T, k: int)
    requires
        is_removal_run(states),
        0 <= k < states.len(),
        states[0].is_filled_with(value),
        states[0].capacity > 0,
    ensures
        states[k].capacity == states[0].capacity,
        states[k].is_filled_with(value),
        head_of(states[k].elements) is Ok,
        cloned(value, head_of(states[k].elements).unwrap()),
    decreases k,
{
    if k > 0 {
        lemma_backfill_removals(states, value, k - 1);
        lemma_backfill_removal(states[k - 1], states[k], value);
    }
}

} // verus!
