//! The three priority labels.

use vstd::prelude::*;
use vstd::string::*;

use crate::text::{lowercased, same_text, to_lowercase};

verus! {

/// How urgent a task is. The labels carry no order.
#[derive(Clone, Copy, Debug, PartialEq, Eq, Structural)]
pub enum Priority {
    /// Shown and stored as `Low`; also what an unreadable answer gives.
    Low,
    /// Shown and stored as `Medium`.
    Medium,
    /// Shown and stored as `High`.
    High,
}

impl Priority {
    /// The label under which the priority is shown and stored.
    pub open spec fn label(self) -> Seq<char> {
        match self {
            Priority::Low => "Low"@,
            Priority::Medium => "Medium"@,
            Priority::High => "High"@,
        }
    }

    /// The priority whose label is exactly `text`, if there is one.
    pub open spec fn of_label(text: Seq<char>) -> Option<Priority> {
        if text == "Low"@ {
            Some(Priority::Low)
        } else if text == "Medium"@ {
            Some(Priority::Medium)
        } else if text == "High"@ {
            Some(Priority::High)
        } else {
            None
        }
    }

    /// The priority that the lowercase word `word` names, if it names one.
    pub open spec fn of_keyword(word: Seq<char>) -> Option<Priority> {
        if word == "low"@ {
            Some(Priority::Low)
        } else if word == "medium"@ {
            Some(Priority::Medium)
        } else if word == "high"@ {
            Some(Priority::High)
        } else {
            None
        }
    }

    /// The priority that a typed answer stands for: the answer is lowercased
    /// and then read as a keyword.
    pub open spec fn of_answer(answer: Seq<char>) -> Option<Priority> {
        Priority::of_keyword(lowercased(answer))
    }

    /// The label as an owned string.
    pub fn to_string(&self) -> (s: String)
        ensures
            s@ == self.label(),
    {
        match self {
            Priority::High => "High".to_owned(),
            Priority::Medium => "Medium".to_owned(),
            Priority::Low => "Low".to_owned(),
        }
    }

    /// Reads a stored label. Only the three labels, in their exact casing, are
    /// accepted.
    pub fn from_label(text: &str) -> (r: Option<Priority>)
        ensures
            r == Priority::of_label(text@),
    {
        if same_text(text, "Low") {
            Some(Priority::Low)
        } else if same_text(text, "Medium") {
            Some(Priority::Medium)
        } else if same_text(text, "High") {
            Some(Priority::High)
        } else {
            None
        }
    }

    /// Reads a lowercase keyword: `low`, `medium` or `high`.
    pub fn from_keyword(word: &str) -> (r: Option<Priority>)
        ensures
            r == Priority::of_keyword(word@),
    {
        if same_text(word, "low") {
            Some(Priority::Low)
        } else if same_text(word, "medium") {
            Some(Priority::Medium)
        } else if same_text(word, "high") {
            Some(Priority::High)
        } else {
            None
        }
    }

    /// Reads a typed answer in any casing. `None` means that the answer names
    /// no priority; the caller decides what to fall back to.
    pub fn from_answer(answer: &str) -> (r: Option<Priority>)
        ensures
            r == Priority::of_answer(answer@),
    {
        let word = to_lowercase(answer);
        Priority::from_keyword(word.as_str())
    }
}

/// Reading a label back gives the priority it was written from, so the three
/// labels are pairwise distinct; and a text is read as a priority only if it
/// is that priority's label.
pub proof fn law_label_reads_back(p: Priority, text: Seq<char>)
    ensures
        Priority::of_label(p.label()) == Some(p),
        Priority::of_label(text) == Some(p) <==> text == p.label(),
{
    reveal_strlit("Low");
    reveal_strlit("Medium");
    reveal_strlit("High");
    assert("Medium"@.len() == 6);
    assert("High"@.len() == 4);
}

} // verus!
