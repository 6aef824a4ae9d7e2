//! Errors of search operations.
use vstd::prelude::*;

verus! {

/// The error kinds of the search interface.
#[derive(Debug, Clone)]
pub enum SearchError {
    IndexNotFound(String),
    InvalidQuery(String),
    /// A feature was refused rather than degraded.
    Unsupported,
    /// A computation inside the library failed; the message says which.
    Internal(String),
    Timeout,
    RateLimited,
}

/// Result of a search operation.
pub type SearchResult<T> = Result<T, SearchError>;

impl SearchError {
    /// An internal error with the given message.
    pub fn internal(msg: &str) -> (r: Self)
        ensures
            r matches SearchError::Internal(m) && m@ == msg@,
    {
        SearchError::Internal(String::from_str(msg))
    }

    /// An invalid-query error with the given message.
    pub fn invalid_query(msg: &str) -> (r: Self)
        ensures
            r matches SearchError::InvalidQuery(m) && m@ == msg@,
    {
        SearchError::InvalidQuery(String::from_str(msg))
    }

    /// An index-not-found error for the given index.
    pub fn index_not_found(index_name: &str) -> (r: Self)
        ensures
            r matches SearchError::IndexNotFound(m) && m@ == index_name@,
    {
        SearchError::IndexNotFound(String::from_str(index_name))
    }

    pub open spec fn spec_message(&self) -> Seq<char> {
        match self {
            SearchError::IndexNotFound(m) => "Index not found: "@ + m@,
            SearchError::InvalidQuery(m) => "Invalid query: "@ + m@,
            SearchError::Unsupported => "Unsupported operation"@,
            SearchError::Internal(m) => "Internal error: "@ + m@,
            SearchError::Timeout => "Operation timed out"@,
            SearchError::RateLimited => "Rate limited"@,
        }
    }

    /// The error's message.
    pub fn message(&self) -> (r: String)
        ensures
            r@ == self.spec_message(),
    {
        match self {
            SearchError::IndexNotFound(m) => String::from_str("Index not found: ").concat(m.as_str()),
            SearchError::InvalidQuery(m) => String::from_str("Invalid query: ").concat(m.as_str()),
            SearchError::Unsupported => String::from_str("Unsupported operation"),
            SearchError::Internal(m) => String::from_str("Internal error: ").concat(m.as_str()),
            SearchError::Timeout => String::from_str("Operation timed out"),
            SearchError::RateLimited => String::from_str("Rate limited"),
        }
    }
}


/// Prefixes the message of an internal error with `context` (`"context: message"`);
/// a success and the other errors pass unchanged.
pub fn with_context<T>(result: Result<T, SearchError>, context: &str) -> (r: Result<T, SearchError>)
    ensures
        result matches Err(SearchError::Internal(m)) ==> (r matches Err(SearchError::Internal(n)) && n@ == context@
            + ": "@ + m@),
        !(result matches Err(SearchError::Internal(_))) ==> r == result,
{
    match result {
        Err(SearchError::Internal(msg)) => {
            let mut text = String::from_str(context);
            text.append(": ");
            text.append(msg.as_str());
            Err(SearchError::Internal(text))
        },
        other => other,
    }
}

} // verus!
