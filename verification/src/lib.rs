//! A personal flashcard study library.
//!
//! A deck of front/back cards supports adding, removing and listing cards,
//! and two review modes: an adaptive learn mode that picks the next card by
//! weighted sampling over each card's answer history, and a sequential flip
//! mode that steps through the deck one card at a time.
//!
//! Persistence, terminal rendering and input reading are collaborators that
//! live outside this crate: the library exposes pure state transitions and
//! plain data, and the surrounding program feeds it input events and renders
//! the views it returns.
//!
//! A deck file is read once at startup and written once at shutdown by the
//! surrounding program; concurrent invocations against the same file are out
//! of scope and may race.

pub mod card;
pub mod deck;
pub mod errors;
pub mod flip;
pub mod learn;
pub mod rng;
pub mod select;
pub mod session;
