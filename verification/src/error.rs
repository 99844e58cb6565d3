//! The ways in which a request to the counter resource fails.

use vstd::prelude::*;

verus! {

/// A failed request. Every failure is reported to the client in the same
/// way: as a server error that carries the failure's description.
#[derive(Clone, Debug, PartialEq, Eq)]
pub enum CounterError {
    /// The submitted action is none of the four that the resource knows.
    InvalidAction { action: String },
    /// The settings store holds no default count.
    MissingDefault,
    /// The settings store could not be read or written.
    Store { reason: String },
    /// The address that the reply was to carry is not a URI.
    InvalidUrl { reason: String },
}

/// What the contracts say of a failure: its kind, the action that was
/// refused, and the store's own words. The wording with which an address was
/// refused belongs to the URI parser and is left out.
pub enum ErrorView {
    InvalidAction { action: Seq<char> },
    MissingDefault,
    Store { reason: Seq<char> },
    InvalidUrl,
}

impl View for CounterError {
    type V = ErrorView;

    open spec fn view(&self) -> ErrorView {
        match self {
            CounterError::InvalidAction { action } => ErrorView::InvalidAction { action: action@ },
            CounterError::MissingDefault => ErrorView::MissingDefault,
            CounterError::Store { reason } => ErrorView::Store { reason: reason@ },
            CounterError::InvalidUrl { .. } => ErrorView::InvalidUrl,
        }
    }
}

/// The status code of every failure: internal server error.
pub const FAILURE_STATUS: u16 = 500;

/// The text of the response that reports a failure with the given
/// description.
pub open spec fn report_text(description: Seq<char>) -> Seq<char> {
    "Something went wrong: "@ + description
}

/// The body of the response that reports a failure with the given
/// description.
pub fn report(description: &str) -> (text: String)
    ensures
        text@ == report_text(description@),
{
    let mut text = "Something went wrong: ".to_owned();
    text.append(description);
    text
}

impl CounterError {
    /// The description of the failure.
    pub open spec fn description(&self) -> Seq<char> {
        match self {
            CounterError::InvalidAction { action } => action@ + " is not a valid action"@,
            CounterError::MissingDefault => "No `DefaultCount` in database"@,
            CounterError::Store { reason } => reason@,
            CounterError::InvalidUrl { reason } => reason@,
        }
    }

    /// Describes the failure.
    pub fn message(&self) -> (text: String)
        ensures
            text@ == self.description(),
    {
        match self {
            CounterError::InvalidAction { action } => {
                let mut text = action.clone();
                text.append(" is not a valid action");
                text
            },
            CounterError::MissingDefault => "No `DefaultCount` in database".to_owned(),
            CounterError::Store { reason } => reason.clone(),
            CounterError::InvalidUrl { reason } => reason.clone(),
        }
    }

    /// The status code with which the failure is reported. Bad input from
    /// the client is reported like a fault of the server.
    pub fn status(&self) -> (code: u16)
        ensures
            code == FAILURE_STATUS,
    {
        FAILURE_STATUS
    }

    /// The body of the response that reports the failure.
    pub fn body(&self) -> (text: String)
        ensures
            text@ == report_text(self.description()),
    {
        let message = self.message();
        report(message.as_str())
    }
}

} // verus!
