//! What is decided once a key is found: whether to keep it, and where.

use crate::error::SearchError;
use crate::text::same_text;
use vstd::prelude::*;

verus! {

/// A text without the white space at its two ends, as `str::trim` gives it.
pub uninterp spec fn trimmed(text: Seq<char>) -> Seq<char>;

/// A text with every letter in lower case, as `str::to_lowercase` gives it.
pub uninterp spec fn lowercased(text: Seq<char>) -> Seq<char>;

/// `str::trim` gives the part of a text between its leading and trailing
/// white space. The part depends on the text alone.
pub assume_specification[ str::trim ](text: &str) -> (inner: &str)
    ensures
        inner@ == trimmed(text@),
;

/// `str::to_lowercase` gives the lower-case form of a text. The form
/// depends on the text alone.
pub assume_specification[ str::to_lowercase ](text: &str) -> (lower: String)
    ensures
        lower@ == lowercased(text@),
;

/// Whether a found key is written to storage.
#[derive(Clone, Copy, Debug, PartialEq, Eq, Structural)]
pub enum PersistDecision {
    Save,
    Discard,
}

/// The decision that an answer stands for, once it is trimmed and in lower
/// case: `y` and `yes` mean saving, anything else means not saving.
pub open spec fn decision_of(normalized: Seq<char>) -> PersistDecision {
    if normalized == "y"@ || normalized == "yes"@ {
        PersistDecision::Save
    } else {
        PersistDecision::Discard
    }
}

impl PersistDecision {
    /// The decision for an answer that is already trimmed and in lower case.
    pub fn from_normalized(answer: &str) -> (decision: PersistDecision)
        ensures
            decision == decision_of(answer@),
    {
        if same_text(answer, "y") || same_text(answer, "yes") {
            PersistDecision::Save
        } else {
            PersistDecision::Discard
        }
    }

    /// The decision for an answer as it was typed: white space around it and
    /// the case of its letters do not count.
    pub fn from_answer(answer: &str) -> (decision: PersistDecision)
        ensures
            decision == decision_of(lowercased(trimmed(answer@))),
    {
        let normalized = answer.trim().to_lowercase();
        PersistDecision::from_normalized(normalized.as_str())
    }

    pub fn is_save(&self) -> (save: bool)
        ensures
            save == (*self == PersistDecision::Save),
    {
        match self {
            PersistDecision::Save => true,
            PersistDecision::Discard => false,
        }
    }
}

/// Where the key files go.
#[derive(Debug)]
pub enum KeyDirectory<P> {
    /// The directory that was asked for.
    Given(P),
    /// The key directory below this home directory.
    UnderHome(P),
}

/// Picks the directory for the key files: the one asked for, else the key
/// directory below the home directory. With neither there is nowhere to go.
pub fn key_directory<P>(given: Option<P>, home: Option<P>) -> (directory: Result<
    KeyDirectory<P>,
    SearchError,
>)
    ensures
        match (given, home) {
            (Some(path), _) => directory matches Ok(KeyDirectory::Given(chosen)) && chosen == path,
            (None, Some(path)) => directory matches Ok(KeyDirectory::UnderHome(chosen)) && chosen
                == path,
            (None, None) => directory matches Err(SearchError::HomeDirectory),
        },
{
    match given {
        Some(path) => Ok(KeyDirectory::Given(path)),
        None => match home {
            Some(path) => Ok(KeyDirectory::UnderHome(path)),
            None => Err(SearchError::HomeDirectory),
        },
    }
}

/// The name of the key directory below a home directory.
pub fn home_key_directory_name() -> (name: &'static str)
    ensures
        name@ == ".ssh"@,
{
    ".ssh"
}

} // verus!
