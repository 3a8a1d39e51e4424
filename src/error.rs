//! The library's error type.
use vstd::prelude::*;

verus! {

/// What went wrong, with a human-readable detail.
#[derive(Clone, Debug, PartialEq, Eq)]
pub enum AppError {
    /// Missing or invalid configuration, or a rejected response.
    Config(String),
    /// A request that could not be made.
    Request(String),
    /// A value that could not be parsed.
    Parse(String),
}

/// The text of an error, with its kind in front.
pub open spec fn error_text(e: AppError) -> Seq<char> {
    match e {
        AppError::Config(s) => "Configuration error: "@ + s@,
        AppError::Request(s) => "Request error: "@ + s@,
        AppError::Parse(s) => "Parse error: "@ + s@,
    }
}

impl AppError {
    /// The text of the error, with its kind in front.
    pub fn message(&self) -> (r: String)
        ensures
            r@ == error_text(*self),
    {
        match self {
            AppError::Config(s) => {
                let mut r = String::from_str("Configuration error: ");
                r.append(s.as_str());
                r
            },
            AppError::Request(s) => {
                let mut r = String::from_str("Request error: ");
                r.append(s.as_str());
                r
            },
            AppError::Parse(s) => {
                let mut r = String::from_str("Parse error: ");
                r.append(s.as_str());
                r
            },
        }
    }
}

} // verus!
