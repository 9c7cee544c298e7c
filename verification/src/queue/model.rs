//! The mathematical model of the containers.
//!
//! A queue is modelled by the sequence of its elements, oldest first. A
//! circular buffer is modelled by a [`BufferState`]: that sequence together
//! with the capacity and the optional default value. The executable
//! operations in [`super::queues`] state their contracts over the functions
//! of this module, and [`super::lemmas`] proves what follows from them.

use super::error::QueueError;
use vstd::prelude::*;

verus! {

/// What a removal from the contents `s` hands out: the oldest element, or
/// `Empty` where there is none.
pub open spec fn head_of<T>(s: Seq<T>) -> Result<T, QueueError> {
    if s.len() == 0 {
        Err(QueueError::Empty)
    } else {
        Ok(s.first())
    }
}

/// What is left of the contents `s` once its oldest element is gone; nothing
/// changes where there is none.
pub open spec fn rest_of<T>(s: Seq<T>) -> Seq<T> {
    if s.len() == 0 {
        s
    } else {
        s.drop_first()
    }
}

/// Whether `r` is an answer that peeking into the contents `s` may give:
/// `Empty` where `s` has no element, otherwise a clone of the oldest one.
pub open spec fn peek_outcome<T: Clone>(s: Seq<T>, r: Result<T, QueueError>) -> bool {
    match head_of(s) {
        Ok(head) => r is Ok && cloned(head, r.unwrap()),
        Err(e) => r == Err::<T, QueueError>(e),
    }
}

/// The contents of an unbounded queue that held `s` after each of `items`
/// was added, in order.
pub open spec fn after_adds<T>(s: Seq<T>, items: Seq<T>) -> Seq<T>
    decreases items.len(),
{
    if items.len() == 0 {
        s
    } else {
        after_adds(s.push(items.first()), items.drop_first())
    }
}

/// The contents of an unbounded queue that held `s` after `n` removals.
pub open spec fn after_removals<T>(s: Seq<T>, n: nat) -> Seq<T>
    decreases n,
{
    if n == 0 {
        s
    } else {
        after_removals(rest_of(s), (n - 1) as nat)
    }
}

/// One operation on an unbounded queue.
pub enum QueueOp<T> {
    /// Adds the value at the tail.
    Add(T),
    /// Removes the head, or fails where there is none.
    Remove,
}

/// The contents of an unbounded queue that held `s` after `op`.
pub open spec fn after_op<T>(s: Seq<T>, op: QueueOp<T>) -> Seq<T> {
    match op {
        QueueOp::Add(val) => s.push(val),
        QueueOp::Remove => rest_of(s),
    }
}

/// The contents of an unbounded queue that held `s` after each of `ops`, in
/// order.
pub open spec fn after_ops<T>(s: Seq<T>, ops: Seq<QueueOp<T>>) -> Seq<T>
    decreases ops.len(),
{
    if ops.len() == 0 {
        s
    } else {
        after_ops(after_op(s, ops.first()), ops.drop_first())
    }
}

/// The values that the additions among `ops` put in, in order.
pub open spec fn added_by<T>(ops: Seq<QueueOp<T>>) -> Seq<T>
    decreases ops.len(),
{
    if ops.len() == 0 {
        Seq::empty()
    } else {
        match ops.first() {
            QueueOp::Add(val) => seq![val] + added_by(ops.drop_first()),
            QueueOp::Remove => added_by(ops.drop_first()),
        }
    }
}

/// The values that the removals among `ops` hand out, in order, when `ops`
/// are carried out on a queue that holds `s`. A removal that finds the queue
/// empty hands out nothing.
pub open spec fn removed_by<T>(s: Seq<T>, ops: Seq<QueueOp<T>>) -> Seq<T>
    decreases ops.len(),
{
    if ops.len() == 0 {
        Seq::empty()
    } else {
        let later = removed_by(after_op(s, ops.first()), ops.drop_first());
        match (ops.first(), head_of(s)) {
            (QueueOp::Remove, Ok(head)) => seq![head] + later,
            _ => later,
        }
    }
}

/// The state of a circular buffer.
pub struct BufferState<T> {
    /// The stored elements, oldest first.
    pub elements: Seq<T>,
    /// The most elements the buffer holds at a time; fixed when it is made.
    pub capacity: nat,
    /// The value that every removal puts in at the tail, where there is one.
    pub default_value: Option<T>,
}

impl<T> BufferState<T> {
    /// The invariant of a buffer: it never holds more than its capacity, and
    /// one with a default value is always full.
    pub open spec fn wf(self) -> bool {
        &&& self.elements.len() <= self.capacity
        &&& self.default_value is Some ==> self.elements.len() == self.capacity
    }

    /// The empty buffer of the given capacity, without a default value.
    pub open spec fn empty(capacity: nat) -> Self {
        BufferState { elements: Seq::empty(), capacity, default_value: None }
    }

    /// Whether the buffer has no room left, so that the next addition
    /// displaces an element.
    pub open spec fn is_full(self) -> bool {
        self.elements.len() >= self.capacity
    }

    /// The element that adding `val` displaces: none while there is room,
    /// otherwise the head of the buffer once `val` stands at its tail.
    pub open spec fn evicted_by_add(self, val: T) -> Option<T> {
        if self.is_full() {
            Some(self.elements.push(val).first())
        } else {
            None
        }
    }

    /// The state after `val` was added: `val` stands at the tail, and the
    /// head has left if there was no room.
    pub open spec fn after_add(self, val: T) -> Self {
        BufferState {
            elements: if self.is_full() {
                self.elements.push(val).drop_first()
            } else {
                self.elements.push(val)
            },
            ..self
        }
    }

    /// The state after each of `items` was added, in order.
    pub open spec fn after_adds(self, items: Seq<T>) -> Self
        decreases items.len(),
    {
        if items.len() == 0 {
            self
        } else {
            self.after_add(items.first()).after_adds(items.drop_first())
        }
    }
}

impl<T: Clone> BufferState<T> {
    /// Whether every stored element is a clone of `value`.
    pub open spec fn holds_clones_of(self, value: T) -> bool {
        forall|i: int| 0 <= i < self.elements.len() ==> cloned(value, #[trigger] self.elements[i])
    }

    /// Whether the buffer is one that refills with `value` and holds nothing
    /// but clones of it, up to its capacity.
    pub open spec fn is_filled_with(self, value: T) -> bool {
        &&& self.default_value == Some(value)
        &&& self.elements.len() == self.capacity
        &&& self.holds_clones_of(value)
    }

    /// Whether `next` is a state in which a removal may leave the buffer.
    ///
    /// An empty buffer stays as it is. Otherwise the head leaves; capacity
    /// and default value stay. Without a default value the rest moves up and
    /// that is all. With one, a fresh clone of it is put in at the tail
    /// before the head leaves, so that the size stays what it was.
    pub open spec fn removal_leads_to(self, next: Self) -> bool {
        if self.elements.len() == 0 {
            next == self
        } else {
            &&& next.capacity == self.capacity
            &&& next.default_value == self.default_value
            &&& match self.default_value {
                None => next.elements == self.elements.drop_first(),
                Some(value) => {
                    &&& next.elements.len() == self.elements.len()
                    &&& next.elements.drop_last() == self.elements.drop_first()
                    &&& cloned(value, next.elements.last())
                },
            }
        }
    }
}

/// Whether `states` lists, in order, the states that a buffer passes through
/// while one element after another is removed from it.
pub open spec fn is_removal_run<T: Clone>(states: Seq<BufferState<T>>) -> bool {
    forall|i: int|
        0 <= i < states.len() - 1 ==> (#[trigger] states[i]).removal_leads_to(states[i + 1])
}

} // verus!
