//! The error type of the agent.

use vstd::prelude::*;
use crate::text::{concat2, owned};

verus! {

broadcast use vstd::string::group_string_axioms;

/// Everything that can go wrong in a turn. Errors of outside libraries are
/// carried as their text.
pub enum AppError {
    /// The HTTP request failed (the transport's error text).
    Http(String),
    /// The API answered with an error, or with nothing usable.
    Api(String),
    /// The configuration could not be written.
    Config(String),
    /// A tool failed.
    Tool(String),
    /// A file-system operation failed.
    Io(String),
    /// The user refused an approval.
    Denied,
}

/// The text an error displays as.
pub open spec fn error_text(e: AppError) -> Seq<char> {
    match e {
        AppError::Http(_) => "Connection error"@,
        AppError::Api(s) => s@,
        AppError::Config(s) => "Config error: "@ + s@,
        AppError::Tool(s) => s@,
        AppError::Io(s) => "IO error: "@ + s@,
        AppError::Denied => "Denied by user"@,
    }
}

impl AppError {
    /// The text the error displays as.
    pub fn message(&self) -> (r: String)
        ensures
            r@ == error_text(*self),
    {
        match self {
            AppError::Http(_) => owned("Connection error"),
            AppError::Api(s) => s.clone(),
            AppError::Config(s) => concat2("Config error: ", s.as_str()),
            AppError::Tool(s) => s.clone(),
            AppError::Io(s) => concat2("IO error: ", s.as_str()),
            AppError::Denied => owned("Denied by user"),
        }
    }
}

} // verus!
