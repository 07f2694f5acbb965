//! The queue.

use vstd::prelude::*;
use core::marker::PhantomData;
use portable_atomic::AtomicUsize;
use crate::error::{PopError, PushError};
use crate::state::{State, decode, max_count, CLOSED};
use crate::sync::{fetch_or, into_inner, load, new_word, update};
use crate::transition::{
    Step, close_answer, pop_answer, pop_refusal, push_answer, push_refusal,
};

verus! {

/// An element type without payload: since a value of it holds no bits, one
/// can be made from nothing wherever the queue owes one.
pub trait ZeroSized: Sized {
    /// A value of the type.
    fn instance() -> Self;
}

impl ZeroSized for () {
    fn instance() -> Self {
        ()
    }
}

/// A concurrent queue of items without payload.
///
/// The queue stores no item. It counts them: `push` lets its item go without
/// running the destructor, and `pop` makes a new one. The items that are left
/// at the end get their destructor from [`Zst::drop`]; a queue that merely
/// goes out of scope forgets them.
///
/// All operations take `&self` and may run on any number of threads at once.
/// None of them blocks. Each takes effect in one atomic step on the state
/// word, and its contract speaks of the word that this step found: what the
/// word was is for the other threads to decide.
pub struct Zst<T> {
    /// The element type.
    marker: PhantomData<T>,
    /// The state word: the lowest bit says whether the queue is closed, the
    /// rest is the number of items.
    state: AtomicUsize,
    /// The capacity, if the queue is bounded.
    capacity: Option<usize>,
}

impl<T> Zst<T> {
    /// The capacity that the queue was made with.
    pub closed spec fn spec_capacity(&self) -> Option<usize> {
        self.capacity
    }

    #[verifier::type_invariant]
    spec fn positive_capacity(&self) -> bool {
        self.capacity != Some(0usize)
    }

    /// Makes an empty, open queue: bounded by `capacity` if there is one.
    ///
    /// The capacity must be positive, and the element type must be of size
    /// zero.
    pub fn new(capacity: Option<usize>) -> (queue: Self)
        requires
            capacity != Some(0usize),
            vstd::layout::size_of::<T>() == 0,
        ensures
            queue.capacity() == capacity,
    {
        Zst { marker: PhantomData, state: new_word(0), capacity }
    }

    /// Attempts to put an item into the queue.
    ///
    /// The answer is the one that belongs to the state found at the moment of
    /// the attempt. A refused item comes back unchanged.
    pub fn push(&self, value: T) -> (answer: Result<(), PushError<T>>)
        ensures
            exists|word: usize|
                answer == push_answer(#[trigger] decode(word), self.capacity(), value),
            answer matches Err(error) ==> error.value() == value,
    {
        match update(&self.state, Step::Push, self.capacity) {
            Ok(previous) => {
                assert(push_answer(decode(previous), self.capacity(), value) == Ok::<
                    (),
                    PushError<T>,
                >(()));
                core::mem::forget(value);
                Ok(())
            },
            Err(previous) => {
                let error = push_refusal(previous, value);
                assert(push_answer(decode(previous), self.capacity(), value) == Err::<
                    (),
                    PushError<T>,
                >(error));
                Err(error)
            },
        }
    }

    /// Whether the queue holds no item.
    pub fn is_empty(&self) -> (empty: bool)
        ensures
            exists|word: usize| empty == (#[trigger] decode(word)).is_empty(),
    {
        State::from(load(&self.state)).is_empty()
    }

    /// Whether the queue is bounded and holds as many items as it may.
    pub fn is_full(&self) -> (full: bool)
        ensures
            exists|word: usize| full == (#[trigger] decode(word)).is_full(self.capacity()),
            full ==> self.capacity() is Some,
    {
        State::from(load(&self.state)).is_full(self.capacity)
    }

    /// The number of items in the queue.
    pub fn len(&self) -> (count: usize)
        ensures
            exists|word: usize| count == (#[trigger] decode(word)).count,
            count <= max_count(),
    {
        State::from(load(&self.state)).count
    }

    /// The capacity of the queue, if it is bounded.
    #[verifier::when_used_as_spec(spec_capacity)]
    pub fn capacity(&self) -> (capacity: Option<usize>)
        ensures
            capacity == self.spec_capacity(),
            capacity != Some(0usize),
    {
        proof {
            use_type_invariant(self);
        }
        self.capacity
    }

    /// Closes the queue, and says whether it was open before.
    pub fn close(&self) -> (closing: bool)
        ensures
            exists|word: usize| closing == close_answer(#[trigger] decode(word)),
    {
        let state = State::from(fetch_or(&self.state, CLOSED));
        !state.closed
    }

    /// Whether the queue is closed.
    pub fn is_closed(&self) -> (closed: bool)
        ensures
            exists|word: usize| closed == (#[trigger] decode(word)).closed,
    {
        State::from(load(&self.state)).closed
    }
}

impl<T: ZeroSized> Zst<T> {
    /// Attempts to take an item from the queue.
    ///
    /// The answer is the one that belongs to the state found at the moment of
    /// the attempt.
    pub fn pop(&self) -> (answer: Result<T, PopError>)
        ensures
            exists|word: usize|
                match pop_answer(#[trigger] decode(word)) {
                    Ok(()) => answer is Ok,
                    Err(error) => answer == Err::<T, PopError>(error),
                },
    {
        match update(&self.state, Step::Pop, self.capacity) {
            Ok(previous) => {
                assert(pop_answer(decode(previous)) is Ok);
                Ok(T::instance())
            },
            Err(previous) => {
                let error = pop_refusal(previous);
                assert(pop_answer(decode(previous)) == Err::<(), PopError>(error));
                Err(error)
            },
        }
    }

    /// Destroys the queue, and makes and drops one item for each that it
    /// still counts, so that every item pushed has its destructor run once.
    pub fn drop(self) {
        let count: usize = State::from(into_inner(self.state)).count;
        let mut dropped: usize = 0;
        while dropped < count
            invariant
                dropped <= count,
            decreases count - dropped,
        {
            let _item: T = T::instance();
            dropped = dropped + 1;
        }
    }
}

} // verus!
