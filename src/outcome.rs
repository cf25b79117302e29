use vstd::prelude::*;

use crate::text::same_text;

verus! {

/// The classified label of one sampling tick, reduced to the closed set that
/// the counters know about. Any other label counts as `Nothing`.
#[derive(Clone, Copy, Debug, PartialEq, Eq, Structural)]
pub enum Outcome {
    Victory,
    Defeat,
    Draw,
    /// The `none` label: no result screen is on display.
    Nothing,
}

/// The outcome that a label stands for: the three counted words, and
/// `Nothing` for `none` and for every label outside the closed set.
pub open spec fn outcome_of(label: Seq<char>) -> Outcome {
    if label == "victory"@ {
        Outcome::Victory
    } else if label == "defeat"@ {
        Outcome::Defeat
    } else if label == "draw"@ {
        Outcome::Draw
    } else {
        Outcome::Nothing
    }
}

/// The text of the label that names an outcome.
pub open spec fn label_of(o: Outcome) -> Seq<char> {
    match o {
        Outcome::Victory => "victory"@,
        Outcome::Defeat => "defeat"@,
        Outcome::Draw => "draw"@,
        Outcome::Nothing => "none"@,
    }
}

impl Outcome {
    /// Whether this outcome is one of the counted ones.
    pub open spec fn is_counted(self) -> bool {
        self != Outcome::Nothing
    }

    /// Reads a label; an unrecognised one reads as `Nothing`.
    pub fn from_label(label: &str) -> (r: Outcome)
        ensures
            r == outcome_of(label@),
    {
        if same_text(label, "victory") {
            Outcome::Victory
        } else if same_text(label, "defeat") {
            Outcome::Defeat
        } else if same_text(label, "draw") {
            Outcome::Draw
        } else {
            Outcome::Nothing
        }
    }

    /// The label that names this outcome.
    pub fn label(&self) -> (r: String)
        ensures
            r@ == label_of(*self),
    {
        match self {
            Outcome::Victory => String::from_str("victory"),
            Outcome::Defeat => String::from_str("defeat"),
            Outcome::Draw => String::from_str("draw"),
            Outcome::Nothing => String::from_str("none"),
        }
    }
}

} // verus!
