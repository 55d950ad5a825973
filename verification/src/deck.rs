//! The deck: an ordered collection of flashcards.

use vstd::prelude::*;

use crate::card::Flashcard;
use crate::errors::ReviewError;

verus! {

/// An ordered sequence of flashcards. Insertion order is the canonical
/// display order; user-facing positions are 1-based, indices in here are
/// 0-based.
pub struct DeckState {
    pub cards: Vec<Flashcard>,
}

impl DeckState {
    /// Creates an empty deck.
    pub fn new() -> (deck: Self)
        ensures
            deck.cards@.len() == 0,
    {
        Self { cards: Vec::new() }
    }

    /// Appends a card at the end of the deck.
    pub fn add_card(&mut self, flashcard: Flashcard)
        ensures
            final(self).cards@ == old(self).cards@.push(flashcard),
    {
        self.cards.push(flashcard);
    }

    /// Removes and returns the card at `index` (0-based).
    ///
    /// On a valid index the deck shrinks by one, the cards before `index`
    /// keep their places, the cards after it move down by one, and the
    /// removed card is returned. On an invalid index nothing changes and
    /// `OutOfBounds` is reported.
    pub fn remove_card(&mut self, index: usize) -> (r: Result<Flashcard, ReviewError>)
        ensures
            index < old(self).cards@.len() ==> r == Ok::<Flashcard, ReviewError>(
                old(self).cards@[index as int],
            ) && final(self).cards@ == old(self).cards@.remove(index as int),
            index >= old(self).cards@.len() ==> r == Err::<Flashcard, ReviewError>(
                ReviewError::OutOfBounds,
            ) && final(self).cards@ == old(self).cards@,
    {
        if index < self.cards.len() {
            Ok(self.cards.remove(index))
        } else {
            Err(ReviewError::OutOfBounds)
        }
    }

    /// Borrows the card at `index` (0-based); the index must be in bounds.
    pub fn get_card(&self, index: usize) -> (card: &Flashcard)
        requires
            index < self.cards@.len(),
        ensures
            *card == self.cards@[index as int],
    {
        &self.cards[index]
    }

    /// The number of cards in the deck.
    pub fn len(&self) -> (n: usize)
        ensures
            n == self.cards@.len(),
    {
        self.cards.len()
    }
}

/// Removing a valid index `k` from a deck of size `n` yields size `n - 1`,
/// and the card that stood at `k` is no longer at any position it would be
/// found at: every card before `k` stays put and every card after `k` moves
/// down by one.
pub proof fn law_remove_shrinks(cards: Seq<Flashcard>, k: int)
    requires
        0 <= k < cards.len(),
    ensures
        cards.remove(k).len() == cards.len() - 1,
        forall|j: int| 0 <= j < k ==> cards.remove(k)[j] == cards[j],
        forall|j: int| k <= j < cards.len() - 1 ==> cards.remove(k)[j] == cards[j + 1],
{
}

} // verus!
