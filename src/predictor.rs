use vstd::prelude::*;

use std::collections::HashMap;

use crate::text::{
    contains_text, decimal, decimal_text, has_infix, lower_of, lowercase, same_text,
};

verus! {

broadcast use vstd::std_specs::hash::group_hash_axioms;

/// Why the classifier could not be loaded or run.
#[derive(Clone, Debug, PartialEq, Eq)]
pub enum PredictionError {
    ModelLoad(String),
    LabelMapLoad(String),
    Inference(String),
}

/// The text that describes an error of each kind.
pub open spec fn prediction_error_text(e: PredictionError) -> Seq<char> {
    match e {
        PredictionError::ModelLoad(m) => "Model load error: "@ + m@,
        PredictionError::LabelMapLoad(m) => "Label map load error: "@ + m@,
        PredictionError::Inference(m) => "Inference error: "@ + m@,
    }
}

impl PredictionError {
    /// A sentence for logs and for people.
    pub fn message(&self) -> (r: String)
        ensures
            r@ == prediction_error_text(*self),
    {
        match self {
            PredictionError::ModelLoad(m) => String::from_str("Model load error: ").concat(
                m.as_str(),
            ),
            PredictionError::LabelMapLoad(m) => String::from_str("Label map load error: ").concat(
                m.as_str(),
            ),
            PredictionError::Inference(m) => String::from_str("Inference error: ").concat(
                m.as_str(),
            ),
        }
    }
}

/// The value that `entries` gives `key`: that of the last entry for it.
pub open spec fn lookup(entries: Seq<(Seq<char>, Seq<char>)>, key: Seq<char>) -> Option<Seq<char>>
    decreases entries.len(),
{
    if entries.len() == 0 {
        None
    } else if entries.last().0 == key {
        Some(entries.last().1)
    } else {
        lookup(entries.drop_last(), key)
    }
}

/// Which outcome label a classifier class stands for, as configured; a
/// later entry for the same class wins.
#[derive(Clone, Debug)]
pub struct ClassMap {
    entries: Vec<(String, String)>,
}

impl ClassMap {
    /// The entries as plain text, oldest first.
    pub closed spec fn entries(&self) -> Seq<(Seq<char>, Seq<char>)> {
        self.entries@.map_values(|e: (String, String)| (e.0@, e.1@))
    }

    /// The outcome label configured for `class`, if any.
    pub open spec fn spec_get(&self, class: Seq<char>) -> Option<Seq<char>> {
        lookup(self.entries(), class)
    }

    /// A map without entries.
    pub fn new() -> (r: Self)
        ensures
            r.entries() == Seq::<(Seq<char>, Seq<char>)>::empty(),
            forall|c: Seq<char>| #[trigger] r.spec_get(c) is None,
    {
        let r = ClassMap { entries: Vec::new() };
        assert(r.entries() =~= Seq::<(Seq<char>, Seq<char>)>::empty());
        r
    }

    /// Maps `class` to `outcome`, in place of any earlier value.
    pub fn insert(&mut self, class: String, outcome: String)
        ensures
            final(self).entries() == old(self).entries().push((class@, outcome@)),
            final(self).spec_get(class@) == Some(outcome@),
            forall|c: Seq<char>| c != class@ ==> #[trigger] final(self).spec_get(c) == old(self).spec_get(c),
    {
        let ghost k = class@;
        let ghost v = outcome@;
        self.entries.push((class, outcome));
        assert(self.entries() =~= old(self).entries().push((k, v)));
        assert(self.entries().drop_last() =~= old(self).entries());
    }

    /// How many entries there are.
    pub fn len(&self) -> (r: usize)
        ensures
            r == self.entries().len(),
    {
        self.entries.len()
    }

    /// A copy of the entries, oldest first.
    pub fn pairs(&self) -> (r: Vec<(String, String)>)
        ensures
            r@.len() == self.entries().len(),
            forall|j: int| 0 <= j < r@.len() ==> (#[trigger] r@[j].0@, r@[j].1@) == self.entries()[j],
    {
        let mut out: Vec<(String, String)> = Vec::new();
        let mut i: usize = 0;
        while i < self.entries.len()
            invariant
                i <= self.entries@.len(),
                out@.len() == i,
                forall|j: int| 0 <= j < i ==> (#[trigger] out@[j].0@, out@[j].1@) == self.entries()[j],
            decreases self.entries@.len() - i,
        {
            let k = self.entries[i].0.clone();
            let v = self.entries[i].1.clone();
            out.push((k, v));
            i = i + 1;
        }
        out
    }

    /// The outcome label configured for `class`, if any.
    pub fn get(&self, class: &str) -> (r: Option<String>)
        ensures
            r matches Some(v) ==> self.spec_get(class@) == Some(v@),
            r is None ==> self.spec_get(class@) is None,
    {
        let mut i: usize = self.entries.len();
        assert(self.entries().subrange(0, i as int) =~= self.entries());
        while i > 0
            invariant
                i <= self.entries@.len(),
                lookup(self.entries().subrange(0, i as int), class@) == self.spec_get(class@),
            decreases i,
        {
            let ghost front = self.entries().subrange(0, i as int);
            assert(front.drop_last() =~= self.entries().subrange(0, i - 1));
            assert(front.last() == (self.entries@[i - 1].0@, self.entries@[i - 1].1@));
            if same_text(self.entries[i - 1].0.as_str(), class) {
                return Some(self.entries[i - 1].1.clone());
            }
            i = i - 1;
        }
        None
    }
}

/// The outcome label that a lower-cased class name falls back to: `victory`
/// or `defeat` when the name holds that word (`victory` first), else `none`.
pub open spec fn fallback_outcome(lower: Seq<char>) -> Seq<char> {
    if has_infix(lower, "victory"@) {
        "victory"@
    } else if has_infix(lower, "defeat"@) {
        "defeat"@
    } else {
        "none"@
    }
}

/// The outcome label of a class: the configured one, else the fallback of
/// the lower-cased name.
pub open spec fn class_outcome(class: Seq<char>, configured: Option<Seq<char>>) -> Seq<char> {
    match configured {
        Some(o) => o,
        None => fallback_outcome(lower_of(class)),
    }
}

/// The fallback outcome label of a class name that is already lower case.
pub fn outcome_for_lowered(lower: &str) -> (r: String)
    ensures
        r@ == fallback_outcome(lower@),
{
    if contains_text(lower, "victory") {
        String::from_str("victory")
    } else if contains_text(lower, "defeat") {
        String::from_str("defeat")
    } else {
        String::from_str("none")
    }
}

/// The outcome label of a classifier class under the configured map.
pub fn class_to_outcome(class: &str, class_map: &ClassMap) -> (r: String)
    ensures
        r@ == class_outcome(class@, class_map.spec_get(class@)),
{
    match class_map.get(class) {
        Some(mapped) => mapped,
        None => {
            let lower = lowercase(class);
            outcome_for_lowered(lower.as_str())
        },
    }
}

/// The label of output index `idx`: the one the label map gives, else
/// `unknown_` and the index.
pub open spec fn index_label(labels: Map<usize, String>, idx: usize) -> Seq<char> {
    if labels.contains_key(idx) {
        labels[idx]@
    } else {
        "unknown_"@ + decimal_text(idx as nat)
    }
}

/// The class label of output index `idx`.
pub fn label_for_index(labels: &HashMap<usize, String>, idx: usize) -> (r: String)
    ensures
        r@ == index_label(labels@, idx),
{
    match labels.get(&idx) {
        Some(l) => l.clone(),
        None => String::from_str("unknown_").concat(decimal(idx as u64).as_str()),
    }
}

} // verus!
