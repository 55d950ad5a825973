use flashcards::card::Flashcard;
use flashcards::deck::DeckState;
use flashcards::errors::ReviewError;
use flashcards::flip::FlipApp;
use flashcards::flip::Order;
use flashcards::learn::LearnApp;
use flashcards::rng::SplitMix64;
use flashcards::session::Intent;
use flashcards::session::Side;
use flashcards::session::intent_from_command;
use flashcards::session::intent_from_key;
use flashcards::session::str_eq;

fn deck_of(cards: &[(&str, &str)]) -> DeckState {
    let mut deck = DeckState::new();
    for (front, back) in cards {
        deck.add_card(Flashcard::from(front.to_string(), back.to_string()));
    }
    deck
}

#[test]
fn flip_mode_on_empty_deck_refuses_to_start() {
    let deck = DeckState::new();
    let r = FlipApp::start(&deck, Order::Sequential);
    assert!(matches!(r, Err(ReviewError::EmptyDeck)));
    // the deck itself was not touched
    assert_eq!(deck.len(), 0);
}

#[test]
fn learn_mode_on_empty_deck_refuses_to_start_and_leaves_rng_alone() {
    let deck = DeckState::new();
    let mut rng = SplitMix64::new(7);
    let before = rng.state;
    let r = LearnApp::start(&deck, &mut rng);
    assert!(matches!(r, Err(ReviewError::EmptyDeck)));
    assert_eq!(rng.state, before);
}

#[test]
fn flip_session_opens_on_first_card_front_side_up() {
    let deck = deck_of(&[("one", "1"), ("two", "2")]);
    let app = FlipApp::new(&deck, Order::Sequential);
    assert!(!app.should_exit);
    assert_eq!(app.index, 0);
    assert!(matches!(app.show_side, Side::Front));
    assert_eq!(app.visible_text().as_str(), "one");
    assert_eq!(app.progress(), (1, 2));
}

#[test]
fn flip_toggles_are_involutive() {
    let deck = deck_of(&[("one", "1")]);
    let mut app = FlipApp::new(&deck, Order::Sequential);
    let before = app.show_side;
    app.flip_card();
    app.flip_card();
    assert_eq!(app.show_side, before);
    // and from the other side as well
    app.flip_card();
    let flipped = app.show_side;
    app.flip_card();
    app.flip_card();
    assert_eq!(app.show_side, flipped);
}

#[test]
fn flip_shows_the_back_and_flipping_again_shows_the_front() {
    let deck = deck_of(&[("one", "1")]);
    let mut app = FlipApp::new(&deck, Order::Sequential);
    app.handle_intent(Intent::Flip).unwrap();
    assert_eq!(app.visible_text().as_str(), "1");
    app.handle_intent(Intent::Flip).unwrap();
    assert_eq!(app.visible_text().as_str(), "one");
}

#[test]
fn next_advances_and_toggles_the_visible_side() {
    let deck = deck_of(&[("one", "1"), ("two", "2")]);
    let mut app = FlipApp::new(&deck, Order::Sequential);
    app.handle_intent(Intent::Next).unwrap();
    assert_eq!(app.index, 1);
    assert!(matches!(app.show_side, Side::Back));
}

#[test]
fn next_at_last_index_changes_nothing() {
    let deck = deck_of(&[("one", "1"), ("two", "2")]);
    let mut app = FlipApp::new(&deck, Order::Sequential);
    app.handle_intent(Intent::Next).unwrap();
    assert_eq!(app.index, 1);
    let side_before = app.show_side;
    app.handle_intent(Intent::Next).unwrap();
    assert_eq!(app.index, 1);
    assert_eq!(app.show_side, side_before);
}

#[test]
fn previous_at_index_zero_changes_nothing() {
    let deck = deck_of(&[("one", "1"), ("two", "2")]);
    let mut app = FlipApp::new(&deck, Order::Sequential);
    let side_before = app.show_side;
    app.handle_intent(Intent::Previous).unwrap();
    assert_eq!(app.index, 0);
    assert_eq!(app.show_side, side_before);
}

#[test]
fn previous_steps_back_and_toggles_the_visible_side() {
    let deck = deck_of(&[("one", "1"), ("two", "2")]);
    let mut app = FlipApp::new(&deck, Order::Sequential);
    app.handle_intent(Intent::Next).unwrap();
    app.handle_intent(Intent::Previous).unwrap();
    assert_eq!(app.index, 0);
    assert!(matches!(app.show_side, Side::Front));
}

#[test]
fn quit_sets_the_exit_flag_and_nothing_else() {
    let deck = deck_of(&[("one", "1")]);
    let mut app = FlipApp::new(&deck, Order::Sequential);
    app.handle_intent(Intent::Quit).unwrap();
    assert!(app.should_exit);
    assert_eq!(app.index, 0);
    assert!(matches!(app.show_side, Side::Front));
}

#[test]
fn flip_mode_rejects_learn_intents_without_state_change() {
    let deck = deck_of(&[("one", "1")]);
    let mut app = FlipApp::new(&deck, Order::Sequential);
    for intent in [Intent::Correct, Intent::Incorrect, Intent::Unknown] {
        let r = app.handle_intent(intent);
        assert!(matches!(r, Err(ReviewError::UnrecognizedInput)));
        assert_eq!(app.index, 0);
        assert!(!app.should_exit);
        assert!(matches!(app.show_side, Side::Front));
    }
}

#[test]
fn cards_are_never_mutated_in_flip_mode() {
    let deck = deck_of(&[("one", "1"), ("two", "2")]);
    let mut app = FlipApp::new(&deck, Order::Sequential);
    for intent in [Intent::Flip, Intent::Next, Intent::Previous, Intent::Next, Intent::Quit] {
        let _ = app.handle_intent(intent);
    }
    for i in 0..2 {
        assert_eq!(app.deck[i].correct, 0);
        assert_eq!(app.deck[i].incorrect, 0);
    }
}

#[test]
fn learn_correct_scores_the_answered_card_and_shows_a_front() {
    let deck = deck_of(&[("one", "1"), ("two", "2")]);
    let mut rng = SplitMix64::new(3);
    let mut app = LearnApp::start(&deck, &mut rng).unwrap();
    let answered = app.index;
    app.handle_intent(Intent::Flip, &mut rng).unwrap();
    assert!(matches!(app.show_side, Side::Back));
    app.handle_intent(Intent::Correct, &mut rng).unwrap();
    assert_eq!(app.deck[answered].correct, 1);
    assert_eq!(app.deck[answered].incorrect, 0);
    assert!(matches!(app.show_side, Side::Front));
    assert!(app.index < 2);
}

#[test]
fn learn_incorrect_scores_the_answered_card() {
    let deck = deck_of(&[("one", "1"), ("two", "2")]);
    let mut rng = SplitMix64::new(3);
    let mut app = LearnApp::start(&deck, &mut rng).unwrap();
    let answered = app.index;
    app.handle_intent(Intent::Incorrect, &mut rng).unwrap();
    assert_eq!(app.deck[answered].incorrect, 1);
    assert_eq!(app.deck[answered].correct, 0);
}

#[test]
fn learn_mode_has_no_skip() {
    let deck = deck_of(&[("one", "1")]);
    let mut rng = SplitMix64::new(3);
    let mut app = LearnApp::start(&deck, &mut rng).unwrap();
    let rng_before = rng.state;
    for intent in [Intent::Next, Intent::Previous, Intent::Unknown] {
        let r = app.handle_intent(intent, &mut rng);
        assert!(matches!(r, Err(ReviewError::UnrecognizedInput)));
        assert_eq!(app.index, 0);
        assert_eq!(app.deck[0].correct, 0);
        assert_eq!(app.deck[0].incorrect, 0);
        assert_eq!(rng.state, rng_before);
    }
}

#[test]
fn learn_quit_sets_the_exit_flag() {
    let deck = deck_of(&[("one", "1")]);
    let mut rng = SplitMix64::new(3);
    let mut app = LearnApp::start(&deck, &mut rng).unwrap();
    app.handle_intent(Intent::Quit, &mut rng).unwrap();
    assert!(app.should_exit);
}

#[test]
fn learn_counts_report_the_active_card() {
    let deck = deck_of(&[("one", "1")]);
    let mut rng = SplitMix64::new(3);
    let mut app = LearnApp::start(&deck, &mut rng).unwrap();
    assert_eq!(app.counts(), (0, 0));
    app.handle_intent(Intent::Incorrect, &mut rng).unwrap();
    app.handle_intent(Intent::Incorrect, &mut rng).unwrap();
    app.handle_intent(Intent::Correct, &mut rng).unwrap();
    assert_eq!(app.counts(), (1, 2));
}

#[test]
fn keys_map_to_sequential_intents() {
    assert_eq!(intent_from_key('q'), Intent::Quit);
    assert_eq!(intent_from_key('f'), Intent::Flip);
    assert_eq!(intent_from_key('n'), Intent::Next);
    assert_eq!(intent_from_key('b'), Intent::Previous);
    assert_eq!(intent_from_key('x'), Intent::Unknown);
    assert_eq!(intent_from_key(' '), Intent::Unknown);
}

#[test]
fn commands_map_to_learn_intents() {
    for s in ["flip", "f", "show", "s"] {
        assert_eq!(intent_from_command(s), Intent::Flip);
    }
    for s in ["yes", "y"] {
        assert_eq!(intent_from_command(s), Intent::Correct);
    }
    for s in ["no", "n"] {
        assert_eq!(intent_from_command(s), Intent::Incorrect);
    }
    for s in ["quit", "q"] {
        assert_eq!(intent_from_command(s), Intent::Quit);
    }
    for s in ["", "skip", "FLIP", "flip ", "next"] {
        assert_eq!(intent_from_command(s), Intent::Unknown);
    }
}

#[test]
fn str_eq_compares_character_sequences() {
    assert!(str_eq("", ""));
    assert!(str_eq("abc", "abc"));
    assert!(!str_eq("abc", "abd"));
    assert!(!str_eq("abc", "ab"));
    assert!(!str_eq("", "a"));
}
