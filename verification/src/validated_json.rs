//! The carrier for a request body that may have failed decoding: the
//! surrounding transport parses the body and hands either the decoded value
//! or an already-shaped error envelope, so that handlers report the failure
//! through the uniform error format instead of the framework's default.

use crate::errors::create_error;
use crate::errors::ErrorBody;
use vstd::prelude::*;

verus! {

/// Either a successfully decoded request body, or the uniform error envelope
/// describing why decoding failed.
pub struct ValidatedJsonResult<T>(pub Result<T, ErrorBody>);

/// Shapes a body-decoding failure into the uniform error envelope, keeping
/// the transport's status code and the decoder's message.
pub fn invalid_body_error(code: u16, description: &str) -> (r: ErrorBody)
    ensures
        r.code == code,
        r.reason@ == "Invalid Body"@,
        r.description@ == description@,
{
    create_error(code, "Invalid Body", description)
}

} // verus!
