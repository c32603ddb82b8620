//! Maps the failures of an HTTP request pipeline to uniform JSON error
//! responses: a status code and a body `{"message":"..."}`.

pub mod laws;
pub mod response;
pub mod signal;

pub use response::{
    diagnostic, respond, ErrorResponse, ErrorResponseView, STATUS_BAD_REQUEST,
    STATUS_INTERNAL_SERVER_ERROR, STATUS_METHOD_NOT_ALLOWED, STATUS_NOT_FOUND,
};
pub use signal::{classify, CustomError, FailureSignal, RejectionFindings};
pub use laws::{
    lemma_body_is_single_message_object, lemma_response_depends_on_variant_only,
    lemma_unclassified_hides_detail,
};
