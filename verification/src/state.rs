//! The state word: how a count and a closed flag share one `usize`.

use vstd::prelude::*;
use vstd::std_specs::convert::FromSpecImpl;

verus! {

/// The bit of the state word that records that the queue is closed.
pub const CLOSED: usize = 1;

/// How far the count is shifted to the left inside the state word.
pub const REFCOUNT_SHIFT: usize = 1;

/// What one state word says about the queue.
#[derive(Clone, Copy, Debug, PartialEq, Eq, Structural)]
pub struct State {
    /// The number of items in the queue.
    pub count: usize,
    /// Whether the queue is closed.
    pub closed: bool,
}

/// The largest count that a state word can carry beside the closed flag.
pub open spec fn max_count() -> usize {
    (usize::MAX / 2) as usize
}

/// The state of a new queue: empty and open.
pub open spec fn initial() -> State {
    State { count: 0, closed: false }
}

/// The state that a word stands for: the low bit is the closed flag, the rest
/// is the count.
pub open spec fn decode(word: usize) -> State {
    State { count: (word / 2) as usize, closed: word % 2 == 1 }
}

/// The word that stands for a state: twice the count, plus one if closed.
/// A count above `max_count()` does not fit and is truncated to the word's
/// width, as a left shift does.
pub open spec fn encode(state: State) -> usize {
    (state.count * 2 + if state.closed { 1int } else { 0int }) as usize
}

impl From<usize> for State {
    fn from(word: usize) -> (state: Self) {
        assert(word >> 1 == word / 2) by (bit_vector);
        assert((word & 1 != 0) == (word % 2 == 1)) by (bit_vector);
        Self { count: word >> REFCOUNT_SHIFT, closed: word & CLOSED != 0 }
    }
}

impl FromSpecImpl<usize> for State {
    open spec fn obeys_from_spec() -> bool {
        true
    }

    open spec fn from_spec(word: usize) -> Self {
        decode(word)
    }
}

impl From<State> for usize {
    fn from(state: State) -> (word: Self) {
        let count: usize = state.count;
        let flag: usize = if state.closed { CLOSED } else { 0 };
        assert(flag <= 1 ==> (count << 1 | flag) == (count * 2 + flag) as usize) by (bit_vector);
        count << REFCOUNT_SHIFT | flag
    }
}

impl FromSpecImpl<State> for usize {
    open spec fn obeys_from_spec() -> bool {
        true
    }

    open spec fn from_spec(state: State) -> Self {
        encode(state)
    }
}

/// A word stands for one state only: taking the state of a word and the word
/// of that state gives the word back.
pub proof fn lemma_encode_decode(word: usize)
    ensures
        encode(decode(word)) == word,
        decode(word).count <= max_count(),
{
}

/// A state whose count fits has a word of its own: taking the word of the
/// state and the state of that word gives the state back.
pub proof fn lemma_decode_encode(state: State)
    requires
        state.count <= max_count(),
    ensures
        decode(encode(state)) == state,
{
}

/// Setting the closed bit of a word closes the state it stands for and keeps
/// the count.
pub proof fn lemma_closed_bit(word: usize)
    ensures
        decode(word | CLOSED) == (State { count: decode(word).count, closed: true }),
{
    assert((word | 1) / 2 == word / 2) by (bit_vector);
    assert((word | 1) % 2 == 1) by (bit_vector);
}

} // verus!
