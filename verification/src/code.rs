//! The request and response records exchanged with the caller.

use vstd::prelude::*;

use crate::lang::Status;

verus! {

/// One submission: a language tag, the source text, the text to feed the
/// program on standard input, and a CPU-time budget in seconds.
pub struct CodeRequest {
    pub language: String,
    pub source_code: String,
    pub input: String,
    pub time_limit: u8,
}

/// The reply: the stringified status tag and its accompanying text
/// (compiler diagnostics, captured standard error, or captured standard
/// output).
pub struct CodeResponse {
    pub status: String,
    pub message: String,
}

/// The response for a finished request: the stringified status tag, and the
/// outcome's text unchanged.
pub fn to_response(status: Status, message: String) -> (r: CodeResponse)
    ensures
        r.status@ == status.spec_name(),
        r.message@ == message@,
{
    CodeResponse { status: String::from_str(status.name()), message }
}

} // verus!
