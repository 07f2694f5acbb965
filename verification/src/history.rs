//! Histories: the state of a queue after a sequence of calls, and what holds
//! of it whatever the calls were.
//!
//! Every call on the queue takes effect in one atomic step, so each run of a
//! shared queue is one sequence of calls in the order of their steps.

use vstd::prelude::*;
use crate::error::{PopError, PushError};
use crate::state::{State, initial, max_count};
use crate::transition::{close_answer, close_next, pop_answer, pop_next, push_answer, push_next};

verus! {

/// A call that may change the state.
#[derive(Clone, Copy, Debug, PartialEq, Eq, Structural)]
pub enum Call {
    /// `push`
    Push,
    /// `pop`
    Pop,
    /// `close`
    Close,
}

/// The three phases in the life of a queue.
#[derive(Clone, Copy, Debug, PartialEq, Eq, Structural)]
pub enum Phase {
    /// Not closed: items go in and come out.
    Open,
    /// Closed with items left: they still come out, none goes in.
    ClosedNonempty,
    /// Closed and drained: nothing goes in or comes out any more.
    ClosedEmpty,
}

/// The phase that a state belongs to.
pub open spec fn phase(state: State) -> Phase {
    if !state.closed {
        Phase::Open
    } else if state.count > 0 {
        Phase::ClosedNonempty
    } else {
        Phase::ClosedEmpty
    }
}

/// The states that a queue of this capacity can be in: the count stays under
/// the largest that the word can carry, and within the capacity.
pub open spec fn valid(state: State, capacity: Option<usize>) -> bool {
    &&& state.count < max_count()
    &&& capacity matches Some(limit) ==> state.count <= limit
}

/// Whether a call that finds `state` does what it was made for: a push or pop
/// that is not refused, a close that closes.
pub open spec fn served(state: State, capacity: Option<usize>, call: Call) -> bool {
    match call {
        Call::Push => push_next(state, capacity) is Some,
        Call::Pop => pop_next(state) is Some,
        Call::Close => close_answer(state),
    }
}

/// The state that a call leaves: a refused push or pop leaves the state as
/// it found it.
pub open spec fn after(state: State, capacity: Option<usize>, call: Call) -> State {
    match call {
        Call::Push => match push_next(state, capacity) {
            Some(next) => next,
            None => state,
        },
        Call::Pop => match pop_next(state) {
            Some(next) => next,
            None => state,
        },
        Call::Close => close_next(state),
    }
}

/// The state after `calls`, made one after the other on a queue in `state`.
pub open spec fn run_from(state: State, capacity: Option<usize>, calls: Seq<Call>) -> State
    decreases calls.len(),
{
    if calls.len() == 0 {
        state
    } else {
        after(run_from(state, capacity, calls.drop_last()), capacity, calls.last())
    }
}

/// The state of a new queue after `calls`.
pub open spec fn run(capacity: Option<usize>, calls: Seq<Call>) -> State {
    run_from(initial(), capacity, calls)
}

/// How many of the calls of one kind among `calls` were served, on a new
/// queue.
pub open spec fn served_count(capacity: Option<usize>, calls: Seq<Call>, kind: Call) -> nat
    decreases calls.len(),
{
    if calls.len() == 0 {
        0
    } else {
        let before = calls.drop_last();
        let one: nat = if calls.last() == kind && served(run(capacity, before), capacity, kind) {
            1
        } else {
            0
        };
        served_count(capacity, before, kind) + one
    }
}

/// `n` calls of one kind.
pub open spec fn repeat(call: Call, n: nat) -> Seq<Call> {
    Seq::new(n, |i: int| call)
}

/// No call leads out of the valid states.
pub proof fn lemma_after_valid(state: State, capacity: Option<usize>, call: Call)
    requires
        valid(state, capacity),
    ensures
        valid(after(state, capacity, call), capacity),
{
}

/// The count of a queue is never negative and never above its capacity,
/// whatever calls were made on it.
pub proof fn lemma_run_valid(capacity: Option<usize>, calls: Seq<Call>)
    ensures
        valid(run(capacity, calls), capacity),
        0 <= run(capacity, calls).count,
        capacity matches Some(limit) ==> run(capacity, calls).count <= limit,
    decreases calls.len(),
{
    if calls.len() > 0 {
        lemma_run_valid(capacity, calls.drop_last());
        lemma_after_valid(run(capacity, calls.drop_last()), capacity, calls.last());
    }
}

/// A queue is empty exactly when its length is zero, and full exactly when
/// its length is its capacity.
pub proof fn lemma_empty_and_full(state: State, capacity: Option<usize>)
    requires
        valid(state, capacity),
    ensures
        state.is_empty() <==> state.count == 0,
        state.is_full(capacity) <==> capacity == Some(state.count),
{
}

/// Closing is final. `close` leaves the queue closed with the items it had,
/// and whatever calls follow, the queue is still closed after them and
/// another `close` answers `false`.
pub proof fn lemma_close_once(state: State, capacity: Option<usize>, calls: Seq<Call>)
    ensures
        close_next(state) == (State { count: state.count, closed: true }),
        run_from(close_next(state), capacity, calls).closed,
        !close_answer(run_from(close_next(state), capacity, calls)),
{
    lemma_closed_stays(close_next(state), capacity, calls);
}

/// The phases follow one another in one direction. An open queue stays open
/// until `close`, which is always served there. A closed queue with items
/// serves pops only, each of which takes one item, and nothing else changes
/// it. A closed and drained queue serves no call and never changes again.
pub proof fn lemma_phases(state: State, capacity: Option<usize>, call: Call)
    ensures
        ({
            let next = after(state, capacity, call);
            match phase(state) {
                Phase::Open => match call {
                    Call::Close => served(state, capacity, call) && phase(next) != Phase::Open,
                    _ => phase(next) == Phase::Open,
                },
                Phase::ClosedNonempty => match call {
                    Call::Pop => served(state, capacity, call) && next.closed && next.count
                        == state.count - 1,
                    _ => !served(state, capacity, call) && next == state,
                },
                Phase::ClosedEmpty => !served(state, capacity, call) && next == state,
            }
        }),
{
}

/// A closed queue stays closed, whatever calls follow.
pub proof fn lemma_closed_stays(state: State, capacity: Option<usize>, calls: Seq<Call>)
    requires
        state.closed,
    ensures
        run_from(state, capacity, calls).closed,
    decreases calls.len(),
{
    if calls.len() > 0 {
        lemma_closed_stays(state, capacity, calls.drop_last());
    }
}

/// The items in a queue are those that were pushed and not popped: at any
/// moment the count is the number of pushes served less the number of pops
/// served. So no item is popped that was not pushed, none is popped twice,
/// and what is left when the queue is destroyed is the difference.
pub proof fn lemma_count_balance(capacity: Option<usize>, calls: Seq<Call>)
    ensures
        run(capacity, calls).count + served_count(capacity, calls, Call::Pop) == served_count(
            capacity,
            calls,
            Call::Push,
        ),
        served_count(capacity, calls, Call::Pop) <= served_count(capacity, calls, Call::Push),
    decreases calls.len(),
{
    if calls.len() > 0 {
        lemma_count_balance(capacity, calls.drop_last());
        lemma_run_valid(capacity, calls.drop_last());
    }
}

/// A pop that follows a served push is served, and leaves the queue as it was
/// before the push.
pub proof fn lemma_push_then_pop(state: State, capacity: Option<usize>)
    requires
        valid(state, capacity),
        push_next(state, capacity) is Some,
    ensures
        pop_answer(push_next(state, capacity).unwrap()) is Ok,
        pop_next(push_next(state, capacity).unwrap()) == Some(state),
{
}

/// `n` pushes on a new queue of capacity `limit` are all served, as long as
/// `n` is within the capacity and under the largest count that the state
/// word can carry.
pub proof fn lemma_fill(limit: usize, n: nat)
    requires
        n <= limit,
        n < max_count(),
    ensures
        run(Some(limit), repeat(Call::Push, n)) == (State { count: n as usize, closed: false }),
        served_count(Some(limit), repeat(Call::Push, n), Call::Push) == n,
    decreases n,
{
    let calls = repeat(Call::Push, n);
    if n > 0 {
        lemma_fill(limit, (n - 1) as nat);
        assert(calls.drop_last() =~= repeat(Call::Push, (n - 1) as nat));
    }
}

/// A bounded queue that holds as many items as its capacity refuses the next
/// push as full; after one pop, one push is served and fills it again.
pub proof fn lemma_full_then_pop_then_push<T>(state: State, limit: usize, value: T)
    requires
        valid(state, Some(limit)),
        limit >= 1,
        !state.closed,
        state.count == limit,
    ensures
        push_answer(state, Some(limit), value) == Err::<(), PushError<T>>(PushError::Full(value)),
        pop_answer(state) is Ok,
        push_answer(pop_next(state).unwrap(), Some(limit), value) is Ok,
        push_next(pop_next(state).unwrap(), Some(limit)) == Some(state),
{
}

/// A closed queue refuses every push as closed and gives the item back, but
/// still serves as many pops as it holds items; the pop after the last item
/// is refused as closed.
pub proof fn lemma_closed_drains<T>(state: State, capacity: Option<usize>, n: nat, value: T)
    requires
        state.closed,
        n <= state.count,
    ensures
        run_from(state, capacity, repeat(Call::Pop, n)) == (State {
            count: (state.count - n) as usize,
            closed: true,
        }),
        n < state.count ==> pop_answer(run_from(state, capacity, repeat(Call::Pop, n))) is Ok,
        n == state.count ==> pop_answer(run_from(state, capacity, repeat(Call::Pop, n))) == Err::<
            (),
            PopError,
        >(PopError::Closed),
        push_answer(run_from(state, capacity, repeat(Call::Pop, n)), capacity, value) == Err::<
            (),
            PushError<T>,
        >(PushError::Closed(value)),
    decreases n,
{
    let calls = repeat(Call::Pop, n);
    if n > 0 {
        lemma_closed_drains(state, capacity, (n - 1) as nat, value);
        assert(calls.drop_last() =~= repeat(Call::Pop, (n - 1) as nat));
    }
}

} // verus!
