//! The failure a validation can end in.

use vstd::prelude::*;
use vstd::string::StringExecFns;

verus! {

/// What the user can do about a failure.
#[derive(Clone, Copy, Debug, PartialEq, Eq, Structural)]
pub enum RoverErrorSuggestion {
    /// Pass the flag that allows an invalid routing URL, or give a valid URL.
    AllowInvalidRoutingUrlOrSpecifyValidUrl,
}

/// The kinds of failure.
#[derive(Clone, Copy, Debug, PartialEq, Eq, Structural)]
pub enum ErrorKind {
    /// The candidate is no absolute URL and nobody was there to confirm it.
    UnparsableUrl,
    /// The candidate's scheme is not supported and nobody was there to confirm it.
    UnsupportedScheme,
    /// The user answered the prompt with anything but yes.
    UserCancelled,
    /// Reading from or writing to a stream failed.
    IoFailure,
}

/// A failure: its kind, a reason for the user, and for some kinds a suggestion.
#[derive(Clone, Debug, PartialEq, Eq)]
pub struct RoverError {
    pub kind: ErrorKind,
    pub message: String,
    pub suggestion: Option<RoverErrorSuggestion>,
}

/// [`RoverError`] as mathematical text.
pub struct RoverErrorView {
    pub kind: ErrorKind,
    pub message: Seq<char>,
    pub suggestion: Option<RoverErrorSuggestion>,
}

pub type RoverResult<T> = Result<T, RoverError>;

impl View for RoverError {
    type V = RoverErrorView;

    open spec fn view(&self) -> RoverErrorView {
        RoverErrorView { kind: self.kind, message: self.message@, suggestion: self.suggestion }
    }
}

/// The message of the failure that a declined prompt ends in.
pub open spec fn cancelled_message() -> Seq<char> {
    "You cancelled a subgraph publish due to an invalid routing url."@
}

/// The failure that a declined prompt ends in.
pub open spec fn cancelled_error() -> RoverErrorView {
    RoverErrorView {
        kind: ErrorKind::UserCancelled,
        message: cancelled_message(),
        suggestion: None,
    }
}

/// The failure that a rejected URL ends in where nobody can be asked.
pub open spec fn hard_error(kind: ErrorKind, reason: Seq<char>) -> RoverErrorView {
    RoverErrorView {
        kind,
        message: reason,
        suggestion: Some(RoverErrorSuggestion::AllowInvalidRoutingUrlOrSpecifyValidUrl),
    }
}

/// The view of a result that carries nothing on success.
pub open spec fn verdict_of(result: RoverResult<()>) -> Result<(), RoverErrorView> {
    match result {
        Ok(_) => Ok(()),
        Err(e) => Err(e@),
    }
}

impl RoverError {
    /// A failure of the given kind, without a suggestion.
    pub fn new(kind: ErrorKind, message: &str) -> (error: RoverError)
        ensures
            error@ == (RoverErrorView { kind, message: message@, suggestion: None }),
    {
        RoverError { kind, message: String::from_str(message), suggestion: None }
    }

    /// The same failure with `suggestion` attached.
    pub fn with_suggestion(self, suggestion: RoverErrorSuggestion) -> (error: RoverError)
        ensures
            error@ == (RoverErrorView {
                kind: self.kind,
                message: self.message@,
                suggestion: Some(suggestion),
            }),
    {
        RoverError { kind: self.kind, message: self.message, suggestion: Some(suggestion) }
    }

    /// The failure of a user who declined.
    pub fn cancelled() -> (error: RoverError)
        ensures
            error@ == cancelled_error(),
    {
        RoverError::new(
            ErrorKind::UserCancelled,
            "You cancelled a subgraph publish due to an invalid routing url.",
        )
    }

    /// The failure of a stream, described by `detail`.
    pub fn io_failure(detail: &str) -> (error: RoverError)
        ensures
            error@ == (RoverErrorView {
                kind: ErrorKind::IoFailure,
                message: detail@,
                suggestion: None,
            }),
    {
        RoverError::new(ErrorKind::IoFailure, detail)
    }

    pub fn kind(&self) -> (kind: ErrorKind)
        ensures
            kind == self.kind,
    {
        self.kind
    }

    pub fn message(&self) -> (message: &str)
        ensures
            message@ == self.message@,
    {
        self.message.as_str()
    }

    pub fn suggestion(&self) -> (suggestion: Option<RoverErrorSuggestion>)
        ensures
            suggestion == self.suggestion,
    {
        self.suggestion
    }

    /// The reason, as the user reads it.
    pub fn to_string(&self) -> (text: String)
        ensures
            text@ == self.message@,
    {
        self.message.clone()
    }
}

} // verus!
