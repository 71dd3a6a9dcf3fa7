//! The stage of a mentoring relationship and its stored label.

use vstd::prelude::*;
use crate::text::same_text;

verus! {

/// How active the relationship with a mentee is.
#[derive(Debug, Clone, Copy, PartialEq, Eq, Structural)]
pub enum Status {
    Archived,
    Cold,
    Warm,
    Hot,
}

/// The status that a stored label stands for, if it is one of the four labels.
pub open spec fn status_of_label(s: Seq<char>) -> Option<Status> {
    if s == "hot"@ {
        Some(Status::Hot)
    } else if s == "warm"@ {
        Some(Status::Warm)
    } else if s == "cold"@ {
        Some(Status::Cold)
    } else if s == "archived"@ {
        Some(Status::Archived)
    } else {
        None
    }
}

/// The four labels, hottest first.
pub open spec fn status_labels() -> Seq<Seq<char>> {
    seq!["hot"@, "warm"@, "cold"@, "archived"@]
}

impl Status {
    /// The lower-case label under which the status is stored.
    pub open spec fn label(self) -> Seq<char> {
        match self {
            Status::Hot => "hot"@,
            Status::Warm => "warm"@,
            Status::Cold => "cold"@,
            Status::Archived => "archived"@,
        }
    }

    /// The place of the status in a listing: hot first, archived last.
    pub open spec fn rank(self) -> nat {
        match self {
            Status::Hot => 1,
            Status::Warm => 2,
            Status::Cold => 3,
            Status::Archived => 4,
        }
    }

    /// The name of the status as it is shown.
    pub open spec fn title(self) -> Seq<char> {
        match self {
            Status::Hot => "Hot"@,
            Status::Warm => "Warm"@,
            Status::Cold => "Cold"@,
            Status::Archived => "Archived"@,
        }
    }

    /// The name of the status as it is shown.
    pub fn name(&self) -> (r: &'static str)
        ensures
            r@ == self.title(),
    {
        match self {
            Status::Hot => "Hot",
            Status::Warm => "Warm",
            Status::Cold => "Cold",
            Status::Archived => "Archived",
        }
    }

    /// The stored label of the status.
    pub fn as_str(&self) -> (r: &'static str)
        ensures
            r@ == self.label(),
    {
        match self {
            Status::Hot => "hot",
            Status::Warm => "warm",
            Status::Cold => "cold",
            Status::Archived => "archived",
        }
    }

    /// Reads a stored label; any other text gives `None`.
    pub fn from_str(s: &str) -> (r: Option<Status>)
        ensures
            r == status_of_label(s@),
    {
        if same_text(s, "hot") {
            Some(Status::Hot)
        } else if same_text(s, "warm") {
            Some(Status::Warm)
        } else if same_text(s, "cold") {
            Some(Status::Cold)
        } else if same_text(s, "archived") {
            Some(Status::Archived)
        } else {
            None
        }
    }

    /// The status of a stored row: the one its label stands for, and warm
    /// where the label is none of the four.
    pub fn from_stored(label: &str) -> (r: Status)
        ensures
            r == (match status_of_label(label@) {
                Some(s) => s,
                None => Status::Warm,
            }),
    {
        match Status::from_str(label) {
            Some(s) => s,
            None => Status::Warm,
        }
    }

    /// The labels offered for selection, hottest first.
    pub fn variants() -> (r: Vec<&'static str>)
        ensures
            r@.len() == 4,
            forall|i: int| 0 <= i < 4 ==> (#[trigger] r@[i])@ == status_labels()[i],
    {
        let mut r: Vec<&'static str> = Vec::new();
        r.push(Status::Hot.as_str());
        r.push(Status::Warm.as_str());
        r.push(Status::Cold.as_str());
        r.push(Status::Archived.as_str());
        r
    }
}

/// Reading back the label of a status gives that status, and only a status's
/// own label reads as it.
pub proof fn label_round_trip(s: Status)
    ensures
        status_of_label(s.label()) == Some(s),
        forall|t: Seq<char>| status_of_label(t) == Some(s) ==> t == s.label(),
{
    reveal_strlit("hot");
    reveal_strlit("warm");
    reveal_strlit("cold");
    reveal_strlit("archived");
    assert("hot"@.len() == 3);
    assert("warm"@.len() == 4);
    assert("archived"@.len() == 8);
    assert("warm"@[0] == 'w');
    assert("cold"@[0] == 'c');
}

} // verus!
