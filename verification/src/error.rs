//! The errors that a lookup can end with.

use crate::routes::games::GameFetchError;
use vstd::prelude::*;
use vstd::string::StringExecFns;

verus! {

/// What went wrong, by the boundary at which it went wrong.
#[derive(Debug, Clone, PartialEq)]
pub enum IgdbcError {
    /// The identity endpoint or the catalog could not be reached, or
    /// answered with a status that is no success. Holds the detail.
    Transport(String),
    /// The catalog's answer did not have the expected shape. Holds the path
    /// of the field at which decoding failed.
    UpstreamSchema { path: String },
    /// The store failed. Holds the detail.
    Storage(String),
    /// The request itself cannot be served.
    GameFetch(GameFetchError),
    /// Anything else.
    Custom(String),
}

/// An error, as mathematical values.
pub enum Failure {
    Transport(Seq<char>),
    UpstreamSchema { path: Seq<char> },
    Storage(Seq<char>),
    GameFetch(GameFetchError),
    Custom(Seq<char>),
}

impl Failure {
    /// The HTTP status that a caller of the service sees: that of the
    /// request's own fault where there is one, else 500.
    pub open spec fn status(self) -> u16 {
        match self {
            Failure::GameFetch(error) => error.spec_status(),
            _ => 500,
        }
    }

    /// The text of the error for the log.
    pub open spec fn message(self) -> Seq<char> {
        match self {
            Failure::Transport(detail) => "HTTP Error "@ + detail,
            Failure::UpstreamSchema { path } => "Serde Json Error "@ + path,
            Failure::Storage(detail) => "Storage Error "@ + detail,
            Failure::GameFetch(error) => "Error fetching games: "@ + error.spec_message(),
            Failure::Custom(detail) => detail,
        }
    }
}

impl View for IgdbcError {
    type V = Failure;

    open spec fn view(&self) -> Failure {
        match self {
            IgdbcError::Transport(detail) => Failure::Transport(detail@),
            IgdbcError::UpstreamSchema { path } => Failure::UpstreamSchema { path: path@ },
            IgdbcError::Storage(detail) => Failure::Storage(detail@),
            IgdbcError::GameFetch(error) => Failure::GameFetch(*error),
            IgdbcError::Custom(detail) => Failure::Custom(detail@),
        }
    }
}

impl DeepView for IgdbcError {
    type V = Failure;

    open spec fn deep_view(&self) -> Failure {
        self@
    }
}

impl IgdbcError {
    /// The HTTP status with which the service answers: 404 where a game was
    /// not found, 400 where the request was at fault, 500 for everything
    /// else.
    pub fn status(&self) -> (code: u16)
        ensures
            code == self@.status(),
    {
        match self {
            IgdbcError::GameFetch(error) => error.status(),
            _ => 500,
        }
    }

    /// The text of the error for the log.
    pub fn message(&self) -> (text: String)
        ensures
            text@ == self@.message(),
    {
        match self {
            IgdbcError::Transport(detail) => String::from_str("HTTP Error ").concat(
                detail.as_str(),
            ),
            IgdbcError::UpstreamSchema { path } => String::from_str("Serde Json Error ").concat(
                path.as_str(),
            ),
            IgdbcError::Storage(detail) => String::from_str("Storage Error ").concat(
                detail.as_str(),
            ),
            IgdbcError::GameFetch(error) => {
                let inner = error.message();
                String::from_str("Error fetching games: ").concat(inner.as_str())
            },
            IgdbcError::Custom(detail) => detail.clone(),
        }
    }
}

} // verus!
