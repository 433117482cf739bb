//! The unified error of the transport layer.

use std::fmt::Write;
use vstd::prelude::*;
use vstd::std_specs::convert::{FromSpec, FromSpecImpl};

verus! {

#[verifier::external_type_specification]
#[verifier::external_body]
pub struct ExGhostError(ghost_actor::GhostError);

/// Renders a dispatch failure.
///
/// Trusted: writes the error through `Display` for
/// `ghost_actor::GhostError` into a fresh text. A failure that wraps
/// another error shows whatever that error writes, so nothing is claimed
/// of the text.
#[verifier::external_body]
fn ghost_error_message(e: &ghost_actor::GhostError) -> (text: String) {
    let mut text = String::new();
    let _ = write!(text, "{}", e);
    text
}

/// Error related to remote communication.
///
/// The set of causes is open: match with a fallback arm.
#[derive(Debug)]
#[non_exhaustive]
pub enum TransportError {
    /// The command to the listener could not be delivered or answered.
    GhostError(ghost_actor::GhostError),
    /// Any other cause, kept as the message it displays.
    Other(String),
}

/// Result type for remote communication.
pub type TransportResult<T> = Result<T, TransportError>;

impl TransportError {
    /// The text this error displays, where the error itself holds it. A
    /// dispatch failure is displayed as `ghost_actor` displays it.
    pub open spec fn text(self) -> Option<Seq<char>> {
        match self {
            TransportError::GhostError(_) => None,
            TransportError::Other(s) => Some(s@),
        }
    }

    /// Promotes a message to a `TransportError`.
    pub fn other(e: String) -> (err: Self)
        ensures
            err == TransportError::Other(e),
            err.text() == Some(e@),
    {
        TransportError::Other(e)
    }

    /// Renders the error as its display text.
    pub fn message(&self) -> (text: String)
        ensures
            self.text() matches Some(held) ==> text@ == held,
    {
        match self {
            TransportError::GhostError(e) => ghost_error_message(e),
            TransportError::Other(s) => s.clone(),
        }
    }

    /// Drops the cause and keeps only the fact of failure.
    pub fn discard(self) -> (unit: ())
        ensures
            unit == (),
    {
    }
}

impl From<ghost_actor::GhostError> for TransportError {
    fn from(e: ghost_actor::GhostError) -> (err: Self) {
        TransportError::GhostError(e)
    }
}

impl FromSpecImpl<ghost_actor::GhostError> for TransportError {
    open spec fn obeys_from_spec() -> bool {
        true
    }

    open spec fn from_spec(e: ghost_actor::GhostError) -> Self {
        TransportError::GhostError(e)
    }
}

impl From<String> for TransportError {
    fn from(s: String) -> (err: Self) {
        TransportError::other(s)
    }
}

impl FromSpecImpl<String> for TransportError {
    open spec fn obeys_from_spec() -> bool {
        true
    }

    open spec fn from_spec(s: String) -> Self {
        TransportError::Other(s)
    }
}

impl From<&str> for TransportError {
    fn from(s: &str) -> (err: Self)
        ensures
            err is Other,
            err.text() == Some(s@),
    {
        TransportError::other(s.to_string())
    }
}

impl FromSpecImpl<&str> for TransportError {
    /// A text has many owned copies, so the result is fixed by the
    /// `ensures` of `from` and not by a value.
    open spec fn obeys_from_spec() -> bool {
        false
    }

    open spec fn from_spec(s: &str) -> Self {
        arbitrary()
    }
}

impl From<TransportError> for () {
    fn from(e: TransportError) -> (unit: ()) {
        e.discard()
    }
}

/// Every cause converts, and what a text error then displays is fixed by
/// the text alone: it is that text.
pub proof fn lemma_conversion_keeps_text(text: String, failure: ghost_actor::GhostError)
    ensures
        <TransportError as FromSpec<String>>::from_spec(text) is Other,
        <TransportError as FromSpec<String>>::from_spec(text).text() == Some(text@),
        <TransportError as FromSpec<ghost_actor::GhostError>>::from_spec(failure)
            == TransportError::GhostError(failure),
{
}

} // verus!
