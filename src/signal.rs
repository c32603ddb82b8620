use vstd::prelude::*;

verus! {

/// Application-level errors that request handlers raise.
#[derive(Debug, Clone, Copy, PartialEq, Eq, Structural)]
pub enum CustomError {
    /// Query parameters failed validation.
    InvalidQuery,
    /// A database operation failed.
    DBError,
}

/// Why handling a request did not succeed.
#[derive(Debug, Clone)]
pub enum FailureSignal {
    /// No route matched.
    NotFound,
    /// The request body could not be decoded into the expected shape.
    MalformedBody,
    /// Application-level validation rejected the query parameters.
    InvalidQuery,
    /// A persistence operation failed.
    StorageFailure,
    /// The verb is not permitted for the matched route.
    MethodNotAllowed,
    /// The query string could not be parsed by the transport layer.
    InvalidQueryString,
    /// Any other failure; holds its debug representation for diagnostics.
    Unclassified(String),
}

/// Whether two signals are of one variant, whatever detail they carry.
pub open spec fn same_variant(a: FailureSignal, b: FailureSignal) -> bool {
    ||| a is NotFound && b is NotFound
    ||| a is MalformedBody && b is MalformedBody
    ||| a is InvalidQuery && b is InvalidQuery
    ||| a is StorageFailure && b is StorageFailure
    ||| a is MethodNotAllowed && b is MethodNotAllowed
    ||| a is InvalidQueryString && b is InvalidQueryString
    ||| a is Unclassified && b is Unclassified
}

/// What was found in an untyped rejection: one flag per kind of cause that
/// the responder distinguishes, and the rejection's debug text.
#[derive(Debug, Clone)]
pub struct RejectionFindings {
    pub not_found: bool,
    pub body_deserialize: bool,
    pub custom: Option<CustomError>,
    pub method_not_allowed: bool,
    pub invalid_query: bool,
    pub detail: String,
}

/// The failure signal that a rejection with these findings stands for: the
/// causes are tried in a fixed order and the first one present wins.
pub open spec fn classified(f: RejectionFindings) -> FailureSignal {
    if f.not_found {
        FailureSignal::NotFound
    } else if f.body_deserialize {
        FailureSignal::MalformedBody
    } else if f.custom == Some(CustomError::InvalidQuery) {
        FailureSignal::InvalidQuery
    } else if f.custom == Some(CustomError::DBError) {
        FailureSignal::StorageFailure
    } else if f.method_not_allowed {
        FailureSignal::MethodNotAllowed
    } else if f.invalid_query {
        FailureSignal::InvalidQueryString
    } else {
        FailureSignal::Unclassified(f.detail)
    }
}

/// Turns the findings on a rejection into the one failure signal they stand for.
pub fn classify(f: RejectionFindings) -> (r: FailureSignal)
    ensures
        r == classified(f),
{
    if f.not_found {
        FailureSignal::NotFound
    } else if f.body_deserialize {
        FailureSignal::MalformedBody
    } else {
        match f.custom {
            Some(CustomError::InvalidQuery) => FailureSignal::InvalidQuery,
            Some(CustomError::DBError) => FailureSignal::StorageFailure,
            None => {
                if f.method_not_allowed {
                    FailureSignal::MethodNotAllowed
                } else if f.invalid_query {
                    FailureSignal::InvalidQueryString
                } else {
                    FailureSignal::Unclassified(f.detail)
                }
            },
        }
    }
}

} // verus!
