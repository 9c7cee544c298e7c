use vstd::prelude::*;

verus! {

/// Why an operation on a queue or buffer could not be carried out.
#[derive(Debug, Clone, Copy, PartialEq, Eq, Structural)]
pub enum QueueError {
    /// The container holds no element to hand out.
    Empty,
}

impl QueueError {
    /// A short description of the error, for messages and logs.
    pub fn message(&self) -> (text: &'static str)
        ensures
            text@ == match *self {
                QueueError::Empty => "the queue is empty"@,
            },
    {
        match self {
            QueueError::Empty => "the queue is empty",
        }
    }
}

} // verus!
