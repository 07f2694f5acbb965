//! A non-blocking multi-producer multi-consumer queue for elements that carry
//! no payload.
//!
//! Such a queue needs no storage: one atomic word records how many items it
//! holds and whether it has been closed, and every operation is one atomic
//! step of that word.
//!
//! - [`state`] lays the count and the closed flag out in the word.
//! - [`transition`] says, for each state that an operation may find, what it
//!   answers and which state it leaves.
//! - [`history`] follows the state through any sequence of calls and proves
//!   what holds of it throughout: the count stays within the capacity, it is
//!   the number of items pushed and not yet popped, and a closed queue stays
//!   closed and can still be drained.
//! - [`sync`] holds the atomic word. Its operations are taken on trust, and
//!   they claim nothing of what the word holds, since any thread may change
//!   it at any time.
//! - [`zst`] is the queue: each operation takes one step on the shared word
//!   and answers as [`transition`] says for the state it found.
//! - [`error`] holds the answers of a refused `push` or `pop`.

pub mod error;
pub mod history;
pub mod state;
pub mod sync;
pub mod transition;
pub mod zst;
