//! Adaptive learn mode: answer cards and let the weighted selector decide
//! what to show next.
//!
//! Answering is mandatory: the only ways forward are `Correct` and
//! `Incorrect`, each of which scores the card being answered, redraws the
//! next card from the weighted distribution over the updated deck, and
//! resets the visible side to the front. The surrounding program owns the
//! blocking loop and writes the mutated statistics back into the persisted
//! deck when the loop ends.

use vstd::prelude::*;

use crate::card::Flashcard;
use crate::deck::DeckState;
use crate::errors::ReviewError;
use crate::rng::SplitMix64;
use crate::rng::spec_advance;
use crate::rng::spec_draw128;
use crate::select::select_weighted;
use crate::select::spec_prefix_weight;
use crate::select::spec_total_weight;
use crate::select::total_weight;
use crate::session::Intent;
use crate::session::Side;

verus! {

/// The deck after scoring one answer: the card at `i` with the matching
/// counter incremented, every other card untouched.
pub open spec fn spec_mark(deck: Seq<Flashcard>, i: int, answered_correctly: bool) -> Seq<
    Flashcard,
> {
    let c = deck[i];
    let m = if answered_correctly {
        Flashcard { correct: (c.correct + 1) as u32, ..c }
    } else {
        Flashcard { incorrect: (c.incorrect + 1) as u32, ..c }
    };
    deck.update(i, m)
}

/// Holds when `i` is the index the weighted distribution over `deck`
/// assigns to the draw made from `state`: the draw, reduced modulo the
/// total scaled weight, falls in the cumulative bracket of `i`.
pub open spec fn spec_drawn_index(deck: Seq<Flashcard>, state: u64, i: int) -> bool {
    let draw = spec_draw128(state) % spec_total_weight(deck);
    &&& 0 <= i < deck.len()
    &&& spec_prefix_weight(deck, i) <= draw < spec_prefix_weight(deck, i + 1)
}

/// Scoring a fresh card once correct and once incorrect leaves it with
/// `correct = 1, incorrect = 1`, and its recomputed weight is exactly
/// `(1 + 1) / (1 + 1)`, that is `1`; the other cards are untouched.
pub proof fn law_score_fresh_card_both_ways(deck: Seq<Flashcard>, i: int)
    requires
        0 <= i < deck.len(),
        deck[i].correct == 0,
        deck[i].incorrect == 0,
    ensures
        ({
            let scored = spec_mark(spec_mark(deck, i, true), i, false);
            &&& scored.len() == deck.len()
            &&& scored[i].correct == 1
            &&& scored[i].incorrect == 1
            &&& scored[i].spec_weight().num == 2
            &&& scored[i].spec_weight().den == 2
            &&& forall|j: int| 0 <= j < deck.len() && j != i ==> scored[j] == deck[j]
        }),
{
}

/// The state of one learn session. It owns a snapshot of the deck's cards
/// for the loop's lifetime; the scored counters are read back out of
/// `deck` when the session ends.
pub struct LearnApp {
    pub should_exit: bool,
    pub deck: Vec<Flashcard>,
    pub show_side: Side,
    pub index: usize,
}

impl LearnApp {
    /// A session is well-formed when its deck is non-empty and its cursor
    /// points at a card.
    pub open spec fn wf(self) -> bool {
        &&& self.deck@.len() > 0
        &&& self.index < self.deck@.len()
    }

    /// Starts learn mode on a deck. A deck with zero cards refuses to
    /// start: `EmptyDeck` is reported and nothing is touched, the
    /// generator included. Otherwise the session opens on a first card
    /// drawn from the weighted distribution, front side up.
    pub fn start(deck_state: &DeckState, rng: &mut SplitMix64) -> (r: Result<Self, ReviewError>)
        ensures
            deck_state.cards@.len() == 0 ==> r == Err::<Self, ReviewError>(ReviewError::EmptyDeck)
                && *final(rng) == *old(rng),
            deck_state.cards@.len() > 0 ==> {
                &&& r is Ok
                &&& r->Ok_0.wf()
                &&& r->Ok_0.deck@ == deck_state.cards@
                &&& r->Ok_0.show_side == Side::Front
                &&& !r->Ok_0.should_exit
                &&& spec_drawn_index(deck_state.cards@, old(rng).state, r->Ok_0.index as int)
                &&& final(rng).state == spec_advance(spec_advance(old(rng).state))
            },
    {
        if deck_state.cards.len() == 0 {
            return Err(ReviewError::EmptyDeck);
        }
        let deck = deck_state.cards.clone();
        proof {
            assert forall|i: int| 0 <= i < deck_state.cards@.len() implies deck@[i]
                == deck_state.cards@[i] by {
                assert(cloned::<Flashcard>(deck_state.cards@[i], deck@[i]));
            }
            assert(deck@ =~= deck_state.cards@);
        }
        let total = total_weight(&deck);
        let draw = rng.next_below(total);
        let index = select_weighted(&deck, draw);
        Ok(Self { should_exit: false, deck, show_side: Side::Front, index })
    }

    /// The pure transition of the learn loop: one intent in, the next
    /// state out.
    ///
    /// `Quit` sets the exit flag; `Flip` toggles the visible side.
    /// `Correct` and `Incorrect` score the card being answered, draw the
    /// next card from the weighted distribution over the updated deck, and
    /// reset the visible side to the front. There is no skip: `Next`,
    /// `Previous` and `Unknown` leave everything unchanged and report
    /// `UnrecognizedInput`.
    pub fn handle_intent(&mut self, intent: Intent, rng: &mut SplitMix64) -> (r: Result<
        (),
        ReviewError,
    >)
        requires
            old(self).wf(),
            intent is Correct ==> old(self).deck@[old(self).index as int].correct < u32::MAX,
            intent is Incorrect ==> old(self).deck@[old(self).index as int].incorrect < u32::MAX,
        ensures
            final(self).wf(),
            final(self).deck@.len() == old(self).deck@.len(),
            intent is Quit ==> r is Ok && *final(rng) == *old(rng) && *final(self) == (LearnApp {
                should_exit: true,
                ..*old(self)
            }),
            intent is Flip ==> r is Ok && *final(rng) == *old(rng) && *final(self) == (LearnApp {
                show_side: old(self).show_side.spec_toggle(),
                ..*old(self)
            }),
            (intent is Correct || intent is Incorrect) ==> {
                let marked = spec_mark(old(self).deck@, old(self).index as int, intent is Correct);
                &&& r is Ok
                &&& final(self).deck@ == marked
                &&& final(self).show_side == Side::Front
                &&& final(self).should_exit == old(self).should_exit
                &&& spec_drawn_index(marked, old(rng).state, final(self).index as int)
                &&& final(rng).state == spec_advance(spec_advance(old(rng).state))
            },
            (intent is Next || intent is Previous || intent is Unknown) ==> r == Err::<
                (),
                ReviewError,
            >(ReviewError::UnrecognizedInput) && *final(self) == *old(self) && *final(rng) == *old(
                rng,
            ),
    {
        match intent {
            Intent::Quit => {
                self.should_exit = true;
                Ok(())
            },
            Intent::Flip => {
                self.show_side = self.show_side.toggle();
                Ok(())
            },
            Intent::Correct => {
                self.deck[self.index].mark_correct();
                self.redraw(rng);
                Ok(())
            },
            Intent::Incorrect => {
                self.deck[self.index].mark_incorrect();
                self.redraw(rng);
                Ok(())
            },
            _ => Err(ReviewError::UnrecognizedInput),
        }
    }

    /// Draws the next card from the weighted distribution over the current
    /// deck and shows its front.
    fn redraw(&mut self, rng: &mut SplitMix64)
        requires
            old(self).deck@.len() > 0,
        ensures
            final(self).deck@ == old(self).deck@,
            final(self).should_exit == old(self).should_exit,
            final(self).show_side == Side::Front,
            final(self).wf(),
            spec_drawn_index(old(self).deck@, old(rng).state, final(self).index as int),
            final(rng).state == spec_advance(spec_advance(old(rng).state)),
    {
        let total = total_weight(&self.deck);
        let draw = rng.next_below(total);
        self.index = select_weighted(&self.deck, draw);
        self.show_side = Side::Front;
    }

    /// The text of the face currently shown.
    pub fn visible_text(&self) -> (text: &String)
        requires
            self.wf(),
        ensures
            self.show_side is Front ==> text@ == self.deck@[self.index as int].front@,
            self.show_side is Back ==> text@ == self.deck@[self.index as int].back@,
    {
        let card = &self.deck[self.index];
        match self.show_side {
            Side::Front => &card.front,
            Side::Back => &card.back,
        }
    }

    /// The running correct and incorrect counts of the card being
    /// reviewed.
    pub fn counts(&self) -> (c: (u32, u32))
        requires
            self.wf(),
        ensures
            c.0 == self.deck@[self.index as int].correct,
            c.1 == self.deck@[self.index as int].incorrect,
    {
        let card = &self.deck[self.index];
        (card.correct, card.incorrect)
    }

    /// The 1-based position of the cursor and the deck size, for progress
    /// display.
    pub fn progress(&self) -> (p: (usize, usize))
        requires
            self.wf(),
        ensures
            p.0 == self.index + 1,
            p.1 == self.deck@.len(),
            1 <= p.0 <= p.1,
    {
        let n = self.deck.len();
        (self.index + 1, n)
    }
}

} // verus!
