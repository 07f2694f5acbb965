//! The transitions of the state word.
//!
//! Each operation of the queue is one atomic step from the state it finds to
//! the state it leaves. This module says, for every state that an operation
//! may find, what it answers and where the step leads.

use vstd::prelude::*;
use crate::error::{PopError, PushError};
use crate::state::{State, decode, encode, max_count, REFCOUNT_SHIFT};

verus! {

/// The two steps that the queue may refuse.
#[derive(Clone, Copy, Debug, PartialEq, Eq, Structural)]
pub enum Step {
    /// One more item.
    Push,
    /// One item less.
    Pop,
}

/// Whether one more item would bring the count to the largest value that the
/// word can carry. The queue stops one short of it.
pub open spec fn saturated(state: State) -> bool {
    state.count + 1 >= max_count()
}

/// The state after one more item, or `None` where the queue takes none:
/// when it is closed, full, or saturated.
pub open spec fn push_next(state: State, capacity: Option<usize>) -> Option<State> {
    if state.closed || state.is_full(capacity) || saturated(state) {
        None
    } else {
        Some(State { count: (state.count + 1) as usize, closed: state.closed })
    }
}

/// The state after one item less, or `None` where the queue holds none.
pub open spec fn pop_next(state: State) -> Option<State> {
    if state.count == 0 {
        None
    } else {
        Some(State { count: (state.count - 1) as usize, closed: state.closed })
    }
}

/// The state after closing: the same count, closed.
pub open spec fn close_next(state: State) -> State {
    State { count: state.count, closed: true }
}

/// The word that a step leads to from the word it finds, or `None` where the
/// step is refused.
pub open spec fn next_word(step: Step, capacity: Option<usize>, word: usize) -> Option<usize> {
    let next = match step {
        Step::Push => push_next(decode(word), capacity),
        Step::Pop => pop_next(decode(word)),
    };
    match next {
        Some(state) => Some(encode(state)),
        None => None,
    }
}

/// What `push` answers when it finds the queue in `state`: it refuses a
/// closed queue first, then a full one, and gives the item back either way.
pub open spec fn push_answer<T>(state: State, capacity: Option<usize>, value: T) -> Result<
    (),
    PushError<T>,
> {
    if state.closed {
        Err(PushError::Closed(value))
    } else if state.is_full(capacity) || saturated(state) {
        Err(PushError::Full(value))
    } else {
        Ok(())
    }
}

/// What `pop` answers when it finds the queue in `state`, apart from the item
/// itself.
pub open spec fn pop_answer(state: State) -> Result<(), PopError> {
    if state.count > 0 {
        Ok(())
    } else if state.closed {
        Err(PopError::Closed)
    } else {
        Err(PopError::Empty)
    }
}

/// What `close` answers when it finds the queue in `state`: whether this call
/// is the one that closes it.
pub open spec fn close_answer(state: State) -> bool {
    !state.closed
}

impl State {
    /// Whether the queue holds no item.
    pub open spec fn spec_is_empty(self) -> bool {
        self.count == 0
    }

    /// Whether a queue of this capacity holds as many items as it may. An
    /// unbounded queue is never full.
    pub open spec fn spec_is_full(self, capacity: Option<usize>) -> bool {
        capacity matches Some(limit) && self.count >= limit
    }

    /// Whether the queue holds no item.
    #[verifier::when_used_as_spec(spec_is_empty)]
    pub fn is_empty(self) -> (empty: bool)
        ensures
            empty == self.spec_is_empty(),
    {
        self.count == 0
    }

    /// Whether a queue of this capacity holds as many items as it may.
    #[verifier::when_used_as_spec(spec_is_full)]
    pub fn is_full(self, capacity: Option<usize>) -> (full: bool)
        ensures
            full == self.spec_is_full(capacity),
    {
        if let Some(limit) = capacity {
            self.count >= limit
        } else {
            false
        }
    }

    /// The state after one more item, if the queue takes one.
    pub fn after_push(self, capacity: Option<usize>) -> (next: Option<State>)
        ensures
            next == push_next(self, capacity),
    {
        if self.closed {
            return None;
        }
        if self.is_full(capacity) {
            return None;
        }
        let top: usize = usize::MAX;
        assert(top >> 1 == top / 2) by (bit_vector);
        if self.count >= (top >> REFCOUNT_SHIFT) - 1 {
            return None;
        }
        Some(State { count: self.count + 1, closed: self.closed })
    }

    /// The state after one item less, if the queue holds one.
    pub fn after_pop(self) -> (next: Option<State>)
        ensures
            next == pop_next(self),
    {
        if self.count == 0 {
            return None;
        }
        Some(State { count: self.count - 1, closed: self.closed })
    }
}

/// Takes one step from `word`: the word to store in its place, or `None`
/// where the step is refused and the word stays.
pub fn advance(step: Step, capacity: Option<usize>, word: usize) -> (next: Option<usize>)
    ensures
        next == next_word(step, capacity, word),
{
    let state = State::from(word);
    let next = match step {
        Step::Push => state.after_push(capacity),
        Step::Pop => state.after_pop(),
    };
    match next {
        Some(state) => Some(usize::from(state)),
        None => None,
    }
}

/// Why a push that found `previous` was refused: the queue was closed, or
/// else it was full. The item comes back in the answer.
pub fn push_refusal<T>(previous: usize, value: T) -> (error: PushError<T>)
    ensures
        error == (if decode(previous).closed {
            PushError::Closed(value)
        } else {
            PushError::Full(value)
        }),
{
    if State::from(previous).closed {
        PushError::Closed(value)
    } else {
        PushError::Full(value)
    }
}

/// Why a pop that found `previous` was refused: the queue was closed, or
/// else it was only empty.
pub fn pop_refusal(previous: usize) -> (error: PopError)
    ensures
        error == (if decode(previous).closed {
            PopError::Closed
        } else {
            PopError::Empty
        }),
{
    if State::from(previous).closed {
        PopError::Closed
    } else {
        PopError::Empty
    }
}

/// The word that a step stores stands for the state that the step leads to.
pub proof fn lemma_next_word(step: Step, capacity: Option<usize>, word: usize)
    ensures
        match step {
            Step::Push => match push_next(decode(word), capacity) {
                Some(next) => next_word(step, capacity, word) matches Some(stored) && decode(
                    stored,
                ) == next,
                None => next_word(step, capacity, word) is None,
            },
            Step::Pop => match pop_next(decode(word)) {
                Some(next) => next_word(step, capacity, word) matches Some(stored) && decode(
                    stored,
                ) == next,
                None => next_word(step, capacity, word) is None,
            },
        },
{
}

/// A step is taken exactly when the answer is `Ok`.
pub proof fn lemma_answer_and_step<T>(state: State, capacity: Option<usize>, value: T)
    ensures
        push_answer(state, capacity, value) is Ok <==> push_next(state, capacity) is Some,
        pop_answer(state) is Ok <==> pop_next(state) is Some,
{
}

} // verus!
