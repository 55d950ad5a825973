//! Sequential flip mode: step through the deck one card at a time.
//!
//! Navigation moves the cursor by one position, clamped at both ends of the
//! deck (no wraparound), and no correctness is recorded. The surrounding
//! program owns the blocking loop: it reads one input event, maps it to an
//! `Intent`, calls `handle_intent`, renders the new state, and repeats until
//! `should_exit` is set.

use vstd::prelude::*;

use crate::card::Flashcard;
use crate::deck::DeckState;
use crate::errors::ReviewError;
use crate::session::Intent;
use crate::session::Side;

verus! {

/// The order in which flip mode walks the deck.
#[derive(Clone, Copy, PartialEq, Eq, Structural, Debug)]
pub enum Order {
    Sequential,
}

/// The state of one sequential flip session. It owns a snapshot of the
/// deck's cards for the loop's lifetime.
pub struct FlipApp {
    pub should_exit: bool,
    pub deck: Vec<Flashcard>,
    pub order: Order,
    pub show_side: Side,
    pub index: usize,
}

impl FlipApp {
    /// A session is well-formed when its deck is non-empty and its cursor
    /// points at a card.
    pub open spec fn wf(self) -> bool {
        &&& self.deck@.len() > 0
        &&& self.index < self.deck@.len()
    }

    /// Builds a session over a snapshot of the deck, starting at the first
    /// card with the front side up. The deck must be non-empty; `start`
    /// checks that and is what the command layer calls.
    pub fn new(deck_state: &DeckState, order: Order) -> (app: Self)
        requires
            deck_state.cards@.len() > 0,
        ensures
            app.wf(),
            app.deck@ == deck_state.cards@,
            app.order == order,
            app.index == 0,
            app.show_side == Side::Front,
            !app.should_exit,
    {
        let deck = deck_state.cards.clone();
        proof {
            assert forall|i: int| 0 <= i < deck_state.cards@.len() implies deck@[i]
                == deck_state.cards@[i] by {
                assert(cloned::<Flashcard>(deck_state.cards@[i], deck@[i]));
            }
            assert(deck@ =~= deck_state.cards@);
        }
        Self { should_exit: false, deck, index: 0, order, show_side: Side::Front }
    }

    /// Starts flip mode on a deck. A deck with zero cards refuses to start:
    /// `EmptyDeck` is reported and nothing is touched. Otherwise the
    /// session of `new` is returned.
    pub fn start(deck_state: &DeckState, order: Order) -> (r: Result<Self, ReviewError>)
        ensures
            deck_state.cards@.len() == 0 ==> r == Err::<Self, ReviewError>(ReviewError::EmptyDeck),
            deck_state.cards@.len() > 0 ==> {
                &&& r is Ok
                &&& r->Ok_0.wf()
                &&& r->Ok_0.deck@ == deck_state.cards@
                &&& r->Ok_0.order == order
                &&& r->Ok_0.index == 0
                &&& r->Ok_0.show_side == Side::Front
                &&& !r->Ok_0.should_exit
            },
    {
        if deck_state.cards.len() == 0 {
            Err(ReviewError::EmptyDeck)
        } else {
            Ok(Self::new(deck_state, order))
        }
    }

    /// Toggles the visible side; nothing else changes.
    pub fn flip_card(&mut self)
        ensures
            *final(self) == (FlipApp { show_side: old(self).show_side.spec_toggle(), ..*old(self) }),
    {
        self.show_side = self.show_side.toggle();
    }

    /// The pure transition of the flip loop: one intent in, the next state
    /// out.
    ///
    /// `Quit` sets the exit flag; `Flip` toggles the visible side; `Next`
    /// and `Previous` move the cursor by one, clamped at the deck's ends
    /// (at the last index `Next` changes nothing, at index 0 `Previous`
    /// changes nothing), and toggle the visible side when they do move.
    /// Cards are never mutated in flip mode. Any other intent leaves the
    /// state unchanged and reports `UnrecognizedInput`.
    pub fn handle_intent(&mut self, intent: Intent) -> (r: Result<(), ReviewError>)
        requires
            old(self).wf(),
        ensures
            final(self).wf(),
            final(self).deck@ == old(self).deck@,
            final(self).order == old(self).order,
            intent is Quit ==> r is Ok && *final(self) == (FlipApp {
                should_exit: true,
                ..*old(self)
            }),
            intent is Flip ==> r is Ok && *final(self) == (FlipApp {
                show_side: old(self).show_side.spec_toggle(),
                ..*old(self)
            }),
            intent is Next ==> r is Ok && (if old(self).index + 1 < old(self).deck@.len() {
                *final(self) == (FlipApp {
                    index: (old(self).index + 1) as usize,
                    show_side: old(self).show_side.spec_toggle(),
                    ..*old(self)
                })
            } else {
                *final(self) == *old(self)
            }),
            intent is Previous ==> r is Ok && (if old(self).index > 0 {
                *final(self) == (FlipApp {
                    index: (old(self).index - 1) as usize,
                    show_side: old(self).show_side.spec_toggle(),
                    ..*old(self)
                })
            } else {
                *final(self) == *old(self)
            }),
            (intent is Correct || intent is Incorrect || intent is Unknown) ==> r == Err::<
                (),
                ReviewError,
            >(ReviewError::UnrecognizedInput) && *final(self) == *old(self),
    {
        match intent {
            Intent::Quit => {
                self.should_exit = true;
                Ok(())
            },
            Intent::Flip => {
                self.flip_card();
                Ok(())
            },
            Intent::Next => {
                if self.index < self.deck.len() - 1 {
                    self.index = self.index + 1;
                    self.flip_card();
                }
                Ok(())
            },
            Intent::Previous => {
                if self.index > 0 {
                    self.index = self.index - 1;
                    self.flip_card();
                }
                Ok(())
            },
            _ => Err(ReviewError::UnrecognizedInput),
        }
    }

    /// The text of the face currently shown.
    pub fn visible_text(&self) -> (text: &String)
        requires
            self.wf(),
        ensures
            self.show_side is Front ==> text@ == self.deck@[self.index as int].front@,
            self.show_side is Back ==> text@ == self.deck@[self.index as int].back@,
    {
        let card = &self.deck[self.index];
        match self.show_side {
            Side::Front => &card.front,
            Side::Back => &card.back,
        }
    }

    /// The 1-based position of the cursor and the deck size, for progress
    /// display.
    pub fn progress(&self) -> (p: (usize, usize))
        requires
            self.wf(),
        ensures
            p.0 == self.index + 1,
            p.1 == self.deck@.len(),
            1 <= p.0 <= p.1,
    {
        let n = self.deck.len();
        (self.index + 1, n)
    }
}

} // verus!
