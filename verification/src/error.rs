//! The failures a run can end with.

use vstd::prelude::*;
use vstd::std_specs::convert::FromSpecImpl;
use vstd::string::StringExecFns;

verus! {

/// How a hardware step went wrong, as the driver of the hardware saw it.
#[derive(Clone, Copy, Debug, PartialEq, Eq, Structural)]
pub enum FaultKind {
    /// The operating system refused or failed an operation on a device.
    Io,
    /// A device answered with something other than what was asked for.
    Unexpected,
    /// Anything else.
    Other,
}

/// A failed hardware step: its kind and the text that described it.
#[derive(Clone, Debug, PartialEq, Eq)]
pub struct Fault {
    pub kind: FaultKind,
    pub message: String,
}

/// The ways a run fails. Each one ends the run.
#[derive(Clone, Debug, PartialEq, Eq)]
pub enum NeoError {
    /// The controller or a control line did not answer as expected.
    UnexpectedResponse,
    /// A device could not be opened or configured; holds the system's message.
    IoError(String),
    /// Any other failure, by its message.
    Suberror(String),
}

/// What a `NeoError` is, with its text as a sequence of characters.
pub enum ErrorView {
    UnexpectedResponse,
    IoError(Seq<char>),
    Suberror(Seq<char>),
}

impl View for NeoError {
    type V = ErrorView;

    open spec fn view(&self) -> ErrorView {
        match self {
            NeoError::UnexpectedResponse => ErrorView::UnexpectedResponse,
            NeoError::IoError(m) => ErrorView::IoError(m@),
            NeoError::Suberror(m) => ErrorView::Suberror(m@),
        }
    }
}

/// The text shown for an error.
pub open spec fn message_of(e: ErrorView) -> Seq<char> {
    match e {
        ErrorView::UnexpectedResponse => "UnexpectedResponse"@,
        ErrorView::IoError(m) => m,
        ErrorView::Suberror(m) => m,
    }
}

/// The line printed at the end of a run.
pub open spec fn report_of(outcome: Result<(), ErrorView>) -> Seq<char> {
    match outcome {
        Ok(_) => "Operation ok"@,
        Err(e) => "Something failed "@ + message_of(e),
    }
}

/// The outcome of a run with the text of its error as a sequence of
/// characters.
pub open spec fn outcome_view(outcome: Result<(), NeoError>) -> Result<(), ErrorView> {
    match outcome {
        Ok(_) => Ok(()),
        Err(e) => Err(e@),
    }
}

impl From<String> for NeoError {
    /// Wraps the message of a failure of no special kind.
    fn from(message: String) -> (error: NeoError) {
        NeoError::Suberror(message)
    }
}

impl FromSpecImpl<String> for NeoError {
    open spec fn obeys_from_spec() -> bool {
        true
    }

    open spec fn from_spec(message: String) -> NeoError {
        NeoError::Suberror(message)
    }
}

impl NeoError {
    /// The text shown for this error: the carried message, or the fixed
    /// words for an unexpected response.
    pub fn message(&self) -> (text: String)
        ensures
            text@ == message_of(self@),
    {
        match self {
            NeoError::UnexpectedResponse => "UnexpectedResponse".to_owned(),
            NeoError::IoError(m) => m.clone(),
            NeoError::Suberror(m) => m.clone(),
        }
    }
}

/// The line to print at the end of a run: that it went well, or that it
/// failed and with what.
pub fn report(outcome: &Result<(), NeoError>) -> (text: String)
    ensures
        text@ == report_of(outcome_view(*outcome)),
{
    match outcome {
        Ok(_) => "Operation ok".to_owned(),
        Err(e) => {
            let mut text = "Something failed ".to_owned();
            let message = e.message();
            text.append(message.as_str());
            text
        },
    }
}

} // verus!
