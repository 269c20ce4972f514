//! The uniform error envelope: every failure anywhere in the service is
//! converted at the point of detection into a status code, a short reason,
//! and a human-readable description.

use vstd::prelude::*;

verus! {

/// The body of an error response: HTTP status code, a short machine-stable
/// reason, and a free-form description for operability.
#[derive(Debug)]
pub struct ErrorBody {
    pub code: u16,
    pub reason: String,
    pub description: String,
}

/// Builds the uniform error envelope from its three parts.
pub fn create_error(code: u16, reason: &str, description: &str) -> (r: ErrorBody)
    ensures
        r.code == code,
        r.reason@ == reason@,
        r.description@ == description@,
{
    ErrorBody { code, reason: reason.to_owned(), description: description.to_owned() }
}

/// The guard's failure when the request carries no session cookie at all.
pub open spec fn is_no_token_error(e: ErrorBody) -> bool {
    &&& e.code == 401
    &&& e.reason@ == "Unauthorized"@
    &&& e.description@ == "No token provided"@
}

/// The guard's failure for a token that is present but cannot be resolved to
/// a stored user: bad signature, missing subject claim, or unknown subject.
/// All three causes are deliberately collapsed into one client-visible error.
pub open spec fn is_invalid_token_error(e: ErrorBody) -> bool {
    &&& e.code == 401
    &&& e.reason@ == "Unauthorized"@
    &&& e.description@ == "Invalid token"@
}

/// The login failure: an unknown username and a wrong password are collapsed
/// into one response to avoid revealing which factor was wrong.
pub open spec fn is_invalid_credentials_error(e: ErrorBody) -> bool {
    &&& e.code == 401
    &&& e.reason@ == "Invalid credentials"@
    &&& e.description@ == "Invalid username or password"@
}

/// The profile-update failure for an `old_password` that does not match the
/// stored hash.
pub open spec fn is_invalid_old_password_error(e: ErrorBody) -> bool {
    &&& e.code == 401
    &&& e.reason@ == "Invalid credentials"@
    &&& e.description@ == "Invalid old password"@
}

/// The profile-update failure when a new password is supplied without the
/// mandatory `old_password`.
pub open spec fn is_old_password_required_error(e: ErrorBody) -> bool {
    &&& e.code == 400
    &&& e.reason@ == "Invalid request"@
    &&& e.description@ == "Old password is required"@
}

/// The wallet failure for an id that, under the ownership-checked lookup,
/// resolves to no row: a nonexistent wallet and another user's wallet get
/// this same response.
pub open spec fn is_wallet_not_found_error(e: ErrorBody) -> bool {
    &&& e.code == 404
    &&& e.reason@ == "Wallet not found"@
    &&& e.description@ == "Wallet not found"@
}

/// The registration failure when the storage uniqueness constraint on user
/// rows is violated.
pub open spec fn is_create_user_conflict_error(e: ErrorBody) -> bool {
    &&& e.code == 422
    &&& e.reason@ == "Failed to create user"@
}

/// The profile-update failure when the storage uniqueness constraint on user
/// rows is violated.
pub open spec fn is_update_user_conflict_error(e: ErrorBody) -> bool {
    &&& e.code == 422
    &&& e.reason@ == "Failed to update user"@
}

/// The wallet-creation failure when the storage uniqueness constraint on
/// wallet rows is violated.
pub open spec fn is_create_wallet_conflict_error(e: ErrorBody) -> bool {
    &&& e.code == 422
    &&& e.reason@ == "Failed to create wallet"@
}

/// An internal failure of the password hashing primitive.
pub open spec fn is_hashing_error(e: ErrorBody) -> bool {
    &&& e.code == 500
    &&& e.reason@ == "Failed to hash password"@
}

/// An internal failure of the unique-id generator.
pub open spec fn is_id_generation_error(e: ErrorBody) -> bool {
    &&& e.code == 500
    &&& e.reason@ == "Failed to generate id"@
}

} // verus!
