//! The queue trait and its two implementations: an unbounded FIFO queue and
//! a circular buffer of fixed capacity.

use super::error::QueueError;
use super::lemmas::lemma_after_adds;
use super::model::{after_adds, head_of, peek_outcome, rest_of, BufferState};
use vstd::prelude::*;

verus! {

/// Defines methods that would be expected on a queue data structure.
///
/// The contract of each method is stated over [`IsQueue::elements`], the
/// stored elements from the oldest to the newest. It says what holds of every
/// queue; an implementation adds what it alone decides (whether an `add`
/// displaces the head, what a removal puts in its place).
pub trait IsQueue<T: Clone> {
    /// The stored elements, oldest first.
    spec fn elements(&self) -> Seq<T>;

    /// The invariant of the implementing type. Its constructors establish it
    /// and every method keeps it.
    spec fn wf(&self) -> bool;

    /// Adds a new value at the tail of the queue. Where that displaces an
    /// element, it is the head, and it is handed back.
    fn add(&mut self, val: T) -> (r: Result<Option<T>, QueueError>)
        requires
            old(self).wf(),
        ensures
            final(self).wf(),
            r is Ok,
            r.unwrap() is None ==> final(self).elements() == old(self).elements().push(val),
            r.unwrap() is Some ==> r.unwrap() == Some(old(self).elements().push(val).first())
                && final(self).elements() == old(self).elements().push(val).drop_first(),
    ;

    /// Removes the head of the queue and returns it. What follows the head
    /// moves up; at most one element is put in behind it.
    fn remove(&mut self) -> (r: Result<T, QueueError>)
        requires
            old(self).wf(),
        ensures
            final(self).wf(),
            r == head_of(old(self).elements()),
            r is Err ==> final(self).elements() == old(self).elements(),
            r is Ok ==> (final(self).elements() == old(self).elements().drop_first() || (
                final(self).elements().len() == old(self).elements().len()
                    && final(self).elements().drop_last() == old(self).elements().drop_first())),
    ;

    /// Peeks at the head of the queue: returns a clone of it and leaves the
    /// queue as it is.
    fn peek(&self) -> (r: Result<T, QueueError>)
        requires
            self.wf(),
        ensures
            peek_outcome(self.elements(), r),
    ;

    /// Gets the size of the queue.
    fn size(&self) -> (n: usize)
        requires
            self.wf(),
        ensures
            n == self.elements().len(),
    ;
}

/// An unbounded first-in, first-out queue.
#[derive(Debug)]
pub struct Queue<T: Clone> {
    queue: Vec<T>,
}

impl<T: Clone> View for Queue<T> {
    type V = Seq<T>;

    /// The queued elements, oldest first.
    closed spec fn view(&self) -> Seq<T> {
        self.queue@
    }
}

impl<T: Clone> Queue<T> {
    /// Create a new queue.
    pub fn new() -> (q: Queue<T>)
        ensures
            q@ == Seq::<T>::empty(),
    {
        Queue { queue: Vec::new() }
    }

    /// Creates a queue that holds `items`, as if each had been added in
    /// turn: the first of `items` is the first to be removed.
    pub fn from_elements(items: Vec<T>) -> (q: Queue<T>)
        ensures
            q@ == items@,
            q@ == after_adds(Seq::empty(), items@),
    {
        proof {
            lemma_after_adds(Seq::<T>::empty(), items@);
        }
        Queue { queue: items }
    }
}

impl<T: Clone> Default for Queue<T> {
    /// An empty queue, as [`Queue::new`] makes it.
    fn default() -> (q: Queue<T>)
        ensures
            q@ == Seq::<T>::empty(),
    {
        Queue { queue: Vec::new() }
    }
}

impl<T: Clone> IsQueue<T> for Queue<T> {
    open spec fn elements(&self) -> Seq<T> {
        self@
    }

    open spec fn wf(&self) -> bool {
        true
    }

    /// Appends `val`. A queue is unbounded: nothing is ever displaced.
    fn add(&mut self, val: T) -> (r: Result<Option<T>, QueueError>)
        ensures
            r == Ok::<Option<T>, QueueError>(None),
            final(self)@ == old(self)@.push(val),
    {
        self.queue.push(val);
        Ok(None)
    }

    /// Takes the oldest element out, or fails with `Empty` and changes
    /// nothing.
    fn remove(&mut self) -> (r: Result<T, QueueError>)
        ensures
            r == head_of(old(self)@),
            final(self)@ == rest_of(old(self)@),
    {
        if !self.queue.is_empty() {
            Ok(self.queue.remove(0usize))
        } else {
            Err(QueueError::Empty)
        }
    }

    fn peek(&self) -> (r: Result<T, QueueError>) {
        match self.queue.first() {
            Some(val) => Ok(val.clone()),
            None => Err(QueueError::Empty),
        }
    }

    fn size(&self) -> (n: usize) {
        self.queue.len()
    }
}

/// A first-in, first-out buffer of fixed capacity.
///
/// Made with [`CircularBuffer::new`] it starts empty, and an addition to the
/// full buffer displaces the oldest element. Made with
/// [`CircularBuffer::with_default`] it starts full of clones of a default
/// value, and every removal puts a fresh clone in at the tail, so that it
/// stays full.
#[derive(Debug)]
pub struct CircularBuffer<T: Clone> {
    queue: Vec<T>,
    capacity: usize,
    default_value: Option<T>,
}

impl<T: Clone> View for CircularBuffer<T> {
    type V = BufferState<T>;

    /// The stored elements, the capacity and the default value.
    closed spec fn view(&self) -> BufferState<T> {
        BufferState {
            elements: self.queue@,
            capacity: self.capacity as nat,
            default_value: self.default_value,
        }
    }
}

impl<T: Clone> CircularBuffer<T> {
    /// Creates an empty buffer that holds up to `capacity` elements and has
    /// no default value.
    pub fn new(capacity: usize) -> (b: CircularBuffer<T>)
        ensures
            b.wf(),
            b@ == BufferState::<T>::empty(capacity as nat),
    {
        CircularBuffer { queue: Vec::new(), capacity, default_value: None }
    }

    /// Creates a buffer of the given capacity that is full of clones of
    /// `default_value` and refills with it.
    pub fn with_default(capacity: usize, default_value: T) -> (b: CircularBuffer<T>)
        ensures
            b.wf(),
            b@.capacity == capacity,
            b@.is_filled_with(default_value),
    {
        let mut queue: Vec<T> = Vec::new();
        while queue.len() < capacity
            invariant
                queue@.len() <= capacity,
                forall|i: int| 0 <= i < queue@.len() ==> cloned(default_value, #[trigger] queue@[i]),
            decreases capacity - queue@.len(),
        {
            queue.push(default_value.clone());
        }
        CircularBuffer { queue, capacity, default_value: Some(default_value) }
    }

    /// The capacity that the buffer was made with.
    pub fn capacity(&self) -> (c: usize)
        ensures
            c == self@.capacity,
    {
        self.capacity
    }
}

impl<T: Clone> IsQueue<T> for CircularBuffer<T> {
    open spec fn elements(&self) -> Seq<T> {
        self@.elements
    }

    open spec fn wf(&self) -> bool {
        self@.wf()
    }

    /// Adds an element to a circular buffer. A full buffer gives up its
    /// oldest element for it.
    fn add(&mut self, val: T) -> (r: Result<Option<T>, QueueError>)
        ensures
            r == Ok::<Option<T>, QueueError>(old(self)@.evicted_by_add(val)),
            final(self)@ == old(self)@.after_add(val),
    {
        if self.queue.len() < self.capacity {
            self.queue.push(val);
            Ok(None)
        } else {
            self.queue.push(val);
            Ok(Some(self.queue.remove(0usize)))
        }
    }

    /// Takes the oldest element out, or fails with `Empty` and changes
    /// nothing. A buffer with a default value first puts a fresh clone of it
    /// in at the tail.
    fn remove(&mut self) -> (r: Result<T, QueueError>)
        ensures
            r == head_of(old(self)@.elements),
            old(self)@.removal_leads_to(final(self)@),
    {
        if !self.queue.is_empty() {
            if let Some(val) = self.default_value.clone() {
                self.queue.push(val);
            };
            Ok(self.queue.remove(0usize))
        } else {
            Err(QueueError::Empty)
        }
    }

    fn peek(&self) -> (r: Result<T, QueueError>) {
        match self.queue.first() {
            Some(val) => Ok(val.clone()),
            None => Err(QueueError::Empty),
        }
    }

    fn size(&self) -> (n: usize)
        ensures
            n <= self@.capacity,
    {
        self.queue.len()
    }
}

} // verus!
