//! What `push` and `pop` answer when they cannot do their work.

use vstd::prelude::*;

verus! {

/// Why an item could not be taken from the queue.
#[derive(Clone, Copy, Debug, PartialEq, Eq, Structural)]
pub enum PopError {
    /// The queue holds nothing at the moment; a later attempt may succeed.
    Empty,
    /// The queue holds nothing and is closed: nothing will come any more.
    Closed,
}

impl PopError {
    /// Whether the queue was only empty for the moment.
    pub fn is_empty(&self) -> (r: bool)
        ensures
            r == (*self == PopError::Empty),
    {
        match self {
            PopError::Empty => true,
            PopError::Closed => false,
        }
    }

    /// Whether the queue was empty and closed.
    pub fn is_closed(&self) -> (r: bool)
        ensures
            r == (*self == PopError::Closed),
    {
        match self {
            PopError::Empty => false,
            PopError::Closed => true,
        }
    }
}

/// Why an item could not be put into the queue. Either way the item comes
/// back unchanged.
#[derive(Debug, PartialEq, Eq)]
pub enum PushError<T> {
    /// The queue is at its capacity; a later attempt may succeed.
    Full(T),
    /// The queue is closed: it takes no items any more.
    Closed(T),
}

impl<T> PushError<T> {
    /// The item that was refused.
    pub open spec fn value(self) -> T {
        match self {
            PushError::Full(value) => value,
            PushError::Closed(value) => value,
        }
    }

    /// Gives back the item that was refused.
    pub fn into_inner(self) -> (value: T)
        ensures
            value == self.value(),
    {
        match self {
            PushError::Full(value) => value,
            PushError::Closed(value) => value,
        }
    }

    /// Whether the queue was at its capacity.
    pub fn is_full(&self) -> (r: bool)
        ensures
            r == (*self is Full),
    {
        match self {
            PushError::Full(_) => true,
            PushError::Closed(_) => false,
        }
    }

    /// Whether the queue was closed.
    pub fn is_closed(&self) -> (r: bool)
        ensures
            r == (*self is Closed),
    {
        match self {
            PushError::Full(_) => false,
            PushError::Closed(_) => true,
        }
    }
}

} // verus!
