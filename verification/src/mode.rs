//! The three operations of the program.

use crate::json::same_text;
use vstd::prelude::*;

verus! {

/// What the program is asked to do.
#[derive(Clone, Copy, Debug, PartialEq, Eq, Structural)]
pub enum Mode {
    /// Fetch the dataset and write the table of players.
    Fetch,
    /// Run a query against the written tables.
    Query,
    /// List the written tables.
    Check,
}

impl Mode {
    /// The mode that `word` names, if it names one.
    pub open spec fn named(word: Seq<char>) -> Option<Mode> {
        if word == "fetch"@ {
            Some(Mode::Fetch)
        } else if word == "query"@ {
            Some(Mode::Query)
        } else if word == "check"@ {
            Some(Mode::Check)
        } else {
            None
        }
    }

    /// Reads a mode from its name: `fetch`, `query` or `check`.
    pub fn parse(word: &str) -> (mode: Option<Mode>)
        ensures
            mode == Mode::named(word@),
    {
        if same_text(word, "fetch") {
            Some(Mode::Fetch)
        } else if same_text(word, "query") {
            Some(Mode::Query)
        } else if same_text(word, "check") {
            Some(Mode::Check)
        } else {
            None
        }
    }

    /// Whether the mode needs the text of a query.
    pub fn needs_query(self) -> (needed: bool)
        ensures
            needed == (self == Mode::Query),
    {
        match self {
            Mode::Query => true,
            _ => false,
        }
    }
}

} // verus!
