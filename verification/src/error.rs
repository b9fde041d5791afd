use vstd::prelude::*;
use vstd::string::StringExecFns;

verus! {

/// The closed error taxonomy of the directory's operations. Lookup misses
/// produce `NotFound`; the other two kinds exist for completeness and are
/// never produced by the operations in this crate.
#[derive(Debug)]
pub enum ApiError {
    NotFound,
    NetworkError(String),
    ParseError(String),
}

impl ApiError {
    /// The characters of the error's human-readable description.
    pub open spec fn message_spec(&self) -> Seq<char> {
        match self {
            ApiError::NotFound => "Resource not found"@,
            ApiError::NetworkError(msg) => "Network error: "@ + msg@,
            ApiError::ParseError(msg) => "Parse error: "@ + msg@,
        }
    }

    /// Renders the error for display.
    pub fn message(&self) -> (r: String)
        ensures
            r@ == self.message_spec(),
    {
        match self {
            ApiError::NotFound => String::from_str("Resource not found"),
            ApiError::NetworkError(msg) => String::from_str("Network error: ").concat(
                msg.as_str(),
            ),
            ApiError::ParseError(msg) => String::from_str("Parse error: ").concat(msg.as_str()),
        }
    }
}

} // verus!
