//! What the settings store answers, and what its answers mean.
//!
//! The store keeps named integers; the counter uses the one named
//! `DefaultCount`. The store itself is the caller's: a handler says which
//! access it needs, the caller performs it and hands back the answer.

use crate::error::{CounterError, ErrorView};
use vstd::prelude::*;

verus! {

/// The answer to reading the default count.
#[derive(Clone, Debug, PartialEq, Eq)]
pub enum Fetched {
    /// The setting's row, with its value if it holds one.
    Row { value: Option<i64> },
    /// The store has no row for the setting.
    NoRow,
    /// The store could not be read.
    Failed { reason: String },
}

/// The answer to writing the default count.
#[derive(Clone, Debug, PartialEq, Eq)]
pub enum Stored {
    /// The statement ran.
    Done,
    /// The store could not be written.
    Failed { reason: String },
}

/// An answer to a read, with the store's words as a sequence of characters.
pub enum FetchedView {
    Row { value: Option<int> },
    NoRow,
    Failed { reason: Seq<char> },
}

/// An answer to a write, with the store's words as a sequence of characters.
pub enum StoredView {
    Done,
    Failed { reason: Seq<char> },
}

impl View for Fetched {
    type V = FetchedView;

    open spec fn view(&self) -> FetchedView {
        match self {
            Fetched::Row { value: Some(value) } => FetchedView::Row { value: Some(*value as int) },
            Fetched::Row { value: None } => FetchedView::Row { value: None },
            Fetched::NoRow => FetchedView::NoRow,
            Fetched::Failed { reason } => FetchedView::Failed { reason: reason@ },
        }
    }
}

impl View for Stored {
    type V = StoredView;

    open spec fn view(&self) -> StoredView {
        match self {
            Stored::Done => StoredView::Done,
            Stored::Failed { reason } => StoredView::Failed { reason: reason@ },
        }
    }
}

/// The name of the setting that holds the default count.
pub fn setting_name() -> (name: &'static str)
    ensures
        name@ == "DefaultCount"@,
{
    "DefaultCount"
}

/// The default count that an answer of the store gives: the value of the
/// row. A missing row and a row without a value are a missing default, not
/// a default of zero; a failed read is the store's failure.
pub open spec fn default_of(fetched: FetchedView) -> Result<int, ErrorView> {
    match fetched {
        FetchedView::Row { value: Some(value) } => Ok(value),
        FetchedView::Row { value: None } => Err(ErrorView::MissingDefault),
        FetchedView::NoRow => Err(ErrorView::MissingDefault),
        FetchedView::Failed { reason } => Err(ErrorView::Store { reason }),
    }
}

/// The view of a count or the failure to get one.
pub open spec fn count_view(outcome: Result<i64, CounterError>) -> Result<int, ErrorView> {
    match outcome {
        Ok(count) => Ok(count as int),
        Err(error) => Err(error@),
    }
}

/// The default count, from the store's answer to reading it.
pub fn default(fetched: Fetched) -> (count: Result<i64, CounterError>)
    ensures
        count_view(count) == default_of(fetched@),
{
    match fetched {
        Fetched::Row { value: Some(value) } => Ok(value),
        Fetched::Row { value: None } => Err(CounterError::MissingDefault),
        Fetched::NoRow => Err(CounterError::MissingDefault),
        Fetched::Failed { reason } => Err(CounterError::Store { reason }),
    }
}

} // verus!
