//! The error taxonomy of the library.

use vstd::prelude::*;

verus! {

/// Everything that can go wrong inside the review core.
///
/// These conditions are structural: they are reported to the user at the
/// command boundary and never crash the process. Failures of the persistence
/// collaborator are not represented here; they belong to the surrounding
/// program.
#[derive(Clone, Copy, PartialEq, Eq, Structural, Debug)]
pub enum ReviewError {
    /// A removal or access used an index outside `[0, len)`.
    OutOfBounds,
    /// A review session was started on a deck with zero cards.
    EmptyDeck,
    /// Weighted selection was invoked on an empty card sequence.
    InvalidDistribution,
    /// An input event did not map to any known command; non-fatal.
    UnrecognizedInput,
}

impl ReviewError {
    /// A user-facing description of the error.
    pub fn message(&self) -> (msg: String)
        ensures
            self is OutOfBounds ==> msg@ == "Index out of bounds"@,
            self is EmptyDeck ==> msg@ == "Deck is empty"@,
            self is InvalidDistribution ==> msg@ == "Invalid weight distribution"@,
            self is UnrecognizedInput ==> msg@ == "Command does not exist"@,
    {
        match self {
            ReviewError::OutOfBounds => "Index out of bounds".to_owned(),
            ReviewError::EmptyDeck => "Deck is empty".to_owned(),
            ReviewError::InvalidDistribution => "Invalid weight distribution".to_owned(),
            ReviewError::UnrecognizedInput => "Command does not exist".to_owned(),
        }
    }
}

} // verus!
