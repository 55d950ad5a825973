//! Shared review-session vocabulary: card faces and input intents.

use vstd::prelude::*;

use vstd::string::StrSliceExecFns;

verus! {

/// Which face of the current card is shown.
#[derive(Clone, Copy, PartialEq, Eq, Structural, Debug)]
pub enum Side {
    Front,
    Back,
}

impl Side {
    /// The other face.
    pub open spec fn spec_toggle(self) -> Side {
        match self {
            Side::Front => Side::Back,
            Side::Back => Side::Front,
        }
    }

    /// Flips to the other face.
    pub fn toggle(&self) -> (side: Self)
        ensures
            side == self.spec_toggle(),
    {
        match self {
            Side::Front => Side::Back,
            Side::Back => Side::Front,
        }
    }
}

/// Toggling a side twice returns to the original side: the flip operation
/// is involutive.
pub proof fn law_toggle_involutive(side: Side)
    ensures
        side.spec_toggle().spec_toggle() == side,
{
}

/// A normalized user action, derived from raw input by the input provider.
#[derive(Clone, Copy, PartialEq, Eq, Structural, Debug)]
pub enum Intent {
    /// Toggle the visible side of the current card.
    Flip,
    /// The current card was answered correctly (learn mode).
    Correct,
    /// The current card was answered incorrectly (learn mode).
    Incorrect,
    /// Step to the following card (sequential flip mode).
    Next,
    /// Step to the preceding card (sequential flip mode).
    Previous,
    /// Leave the review loop.
    Quit,
    /// The input matched no known command.
    Unknown,
}

/// The intent a single key press carries in sequential flip mode.
pub open spec fn spec_intent_of_key(key: char) -> Intent {
    if key == 'q' {
        Intent::Quit
    } else if key == 'f' {
        Intent::Flip
    } else if key == 'n' {
        Intent::Next
    } else if key == 'b' {
        Intent::Previous
    } else {
        Intent::Unknown
    }
}

/// Maps one key press to its sequential-mode intent; any key outside
/// `q`, `f`, `n`, `b` is `Unknown`, never an error.
pub fn intent_from_key(key: char) -> (intent: Intent)
    ensures
        intent == spec_intent_of_key(key),
{
    if key == 'q' {
        Intent::Quit
    } else if key == 'f' {
        Intent::Flip
    } else if key == 'n' {
        Intent::Next
    } else if key == 'b' {
        Intent::Previous
    } else {
        Intent::Unknown
    }
}

/// The intent a text command carries in learn mode. `no` answers the
/// current card incorrectly; there is no skip, so sequential navigation
/// words are unknown here.
pub open spec fn spec_intent_of_command(s: Seq<char>) -> Intent {
    if s == "flip"@ || s == "f"@ || s == "show"@ || s == "s"@ {
        Intent::Flip
    } else if s == "yes"@ || s == "y"@ {
        Intent::Correct
    } else if s == "no"@ || s == "n"@ {
        Intent::Incorrect
    } else if s == "quit"@ || s == "q"@ {
        Intent::Quit
    } else {
        Intent::Unknown
    }
}

/// Compares two strings character by character.
pub fn str_eq(a: &str, b: &str) -> (r: bool)
    ensures
        r == (a@ == b@),
{
    let alen = a.unicode_len();
    let blen = b.unicode_len();
    if alen != blen {
        return false;
    }
    let mut i: usize = 0;
    while i < alen
        invariant
            alen == a@.len(),
            blen == b@.len(),
            alen == blen,
            0 <= i <= alen,
            forall|j: int| 0 <= j < i ==> a@[j] == b@[j],
        decreases alen - i,
    {
        if a.get_char(i) != b.get_char(i) {
            return false;
        }
        i = i + 1;
    }
    proof {
        assert(a@ =~= b@);
    }
    true
}

/// Maps one line of text to its learn-mode intent; unrecognized text maps
/// to `Unknown`, never an error.
pub fn intent_from_command(s: &str) -> (intent: Intent)
    ensures
        intent == spec_intent_of_command(s@),
{
    if str_eq(s, "flip") || str_eq(s, "f") || str_eq(s, "show") || str_eq(s, "s") {
        Intent::Flip
    } else if str_eq(s, "yes") || str_eq(s, "y") {
        Intent::Correct
    } else if str_eq(s, "no") || str_eq(s, "n") {
        Intent::Incorrect
    } else if str_eq(s, "quit") || str_eq(s, "q") {
        Intent::Quit
    } else {
        Intent::Unknown
    }
}

} // verus!
