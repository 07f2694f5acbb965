//! The atomic word, and the few operations on it that the queue uses.
//!
//! The word is shared by every producer and consumer, so nothing here says
//! what it holds: a caller learns only what one operation found in it.

use vstd::prelude::*;
use portable_atomic::AtomicUsize;
use crate::transition::{Step, advance, next_word};

verus! {

/// `portable_atomic::AtomicUsize`, whose inside is left to its own crate.
#[verifier::external_type_specification]
#[verifier::external_body]
pub struct ExAtomicUsize(portable_atomic::AtomicUsize);

/// `AtomicUsize::new`: a fresh atomic word. Nothing is claimed of it.
#[verifier::external_body]
pub(crate) fn new_word(word: usize) -> (cell: AtomicUsize) {
    AtomicUsize::new(word)
}

/// `AtomicUsize::load` with `Acquire`: the word found in the cell. Nothing
/// is claimed of it, since other threads may store at any time.
#[verifier::external_body]
pub(crate) fn load(cell: &AtomicUsize) -> (word: usize) {
    cell.load(portable_atomic::Ordering::Acquire)
}

/// `AtomicUsize::fetch_or` with `SeqCst`: sets `bits` in the cell and returns
/// the word found there before. Nothing is claimed of that word.
#[verifier::external_body]
pub(crate) fn fetch_or(cell: &AtomicUsize, bits: usize) -> (previous: usize) {
    cell.fetch_or(bits, portable_atomic::Ordering::SeqCst)
}

/// `AtomicUsize::fetch_update` with `SeqCst`, handed `advance` as the
/// function to apply. It answers `Ok` with the word it replaced if the
/// function gave a new word for it, and `Err` with the word it found if the
/// function gave none; the contract claims this much and nothing of the
/// word itself.
#[verifier::external_body]
pub(crate) fn update(cell: &AtomicUsize, step: Step, capacity: Option<usize>) -> (observed: Result<
    usize,
    usize,
>)
    ensures
        match observed {
            Ok(previous) => next_word(step, capacity, previous) is Some,
            Err(previous) => next_word(step, capacity, previous) is None,
        },
{
    cell.fetch_update(
        portable_atomic::Ordering::SeqCst,
        portable_atomic::Ordering::SeqCst,
        |word| advance(step, capacity, word),
    )
}

/// `AtomicUsize::into_inner`: the word that the cell held when its owner gave
/// it up. Nothing is claimed of it.
#[verifier::external_body]
pub(crate) fn into_inner(cell: AtomicUsize) -> (word: usize) {
    cell.into_inner()
}

/// `core::mem::forget`: takes a value and never runs its destructor.
pub assume_specification<T>[ core::mem::forget ](value: T);

} // verus!
