//! Flashcards and their sampling weights.

use vstd::prelude::*;

verus! {

/// A single flashcard.
///
/// The front and back text are immutable once the card is created (there is
/// no edit operation). The two counters record how often the card was
/// answered correctly and incorrectly in learn mode; they start at zero,
/// only ever increase, and are never reset.
#[derive(Debug)]
pub struct Flashcard {
    pub front: String,
    pub back: String,
    pub correct: u32,
    pub incorrect: u32,
}

/// The sampling weight of a card, as an exact positive rational `num / den`.
#[derive(Clone, Copy, PartialEq, Eq, Structural, Debug)]
pub struct Weight {
    pub num: u64,
    pub den: u64,
}

impl Flashcard {
    /// Total number of recorded answers for this card.
    pub open spec fn spec_attempts(self) -> int {
        self.correct + self.incorrect
    }

    /// The card's exact sampling weight: `3 / 1` for a card that was never
    /// answered (a prior favouring unseen cards), otherwise the
    /// Laplace-smoothed error rate `(incorrect + 1) / (correct + incorrect)`.
    pub open spec fn spec_weight(self) -> Weight {
        if self.spec_attempts() == 0 {
            Weight { num: 3, den: 1 }
        } else {
            Weight {
                num: (self.incorrect + 1) as u64,
                den: (self.correct + self.incorrect) as u64,
            }
        }
    }

    /// Creates a fresh card with the given faces and zeroed counters.
    pub fn from(front: String, back: String) -> (card: Self)
        ensures
            card.front == front,
            card.back == back,
            card.correct == 0,
            card.incorrect == 0,
    {
        Self { front, back, correct: 0, incorrect: 0 }
    }

    /// Records one correct answer; no other field changes.
    pub fn mark_correct(&mut self)
        requires
            old(self).correct < u32::MAX,
        ensures
            final(self).correct == old(self).correct + 1,
            final(self).incorrect == old(self).incorrect,
            final(self).front == old(self).front,
            final(self).back == old(self).back,
    {
        self.correct = self.correct + 1;
    }

    /// Records one incorrect answer; no other field changes.
    pub fn mark_incorrect(&mut self)
        requires
            old(self).incorrect < u32::MAX,
        ensures
            final(self).incorrect == old(self).incorrect + 1,
            final(self).correct == old(self).correct,
            final(self).front == old(self).front,
            final(self).back == old(self).back,
    {
        self.incorrect = self.incorrect + 1;
    }

    /// Computes the card's sampling weight.
    ///
    /// A card with zero attempts weighs exactly `3 / 1`; a card with
    /// `correct = c` and `incorrect = i`, `c + i > 0`, weighs exactly
    /// `(i + 1) / (c + i)`. The weight is always positive.
    pub fn weight(&self) -> (w: Weight)
        ensures
            w == self.spec_weight(),
            self.spec_attempts() == 0 ==> w.num == 3 && w.den == 1,
            self.spec_attempts() > 0 ==> w.num == self.incorrect + 1 && w.den
                == self.correct + self.incorrect,
            w.num > 0,
            w.den > 0,
    {
        let attempts: u64 = self.correct as u64 + self.incorrect as u64;
        if attempts == 0 {
            Weight { num: 3, den: 1 }
        } else {
            Weight { num: self.incorrect as u64 + 1, den: attempts }
        }
    }
}

impl Clone for Flashcard {
    /// A clone is equal to the original, field by field.
    fn clone(&self) -> (res: Self)
        ensures
            res == *self,
    {
        Flashcard {
            front: self.front.clone(),
            back: self.back.clone(),
            correct: self.correct,
            incorrect: self.incorrect,
        }
    }
}

/// Marking a fresh card correct once and incorrect once yields counters
/// `correct = 1, incorrect = 1` and a recomputed weight of exactly
/// `(1 + 1) / (1 + 1)`, that is `1`.
pub proof fn law_one_correct_one_incorrect(card: Flashcard)
    requires
        card.correct == 1,
        card.incorrect == 1,
    ensures
        card.spec_weight().num == 2,
        card.spec_weight().den == 2,
        card.spec_weight().num == card.spec_weight().den,
{
}

} // verus!
