//! The authentication guard: the single per-request gate that converts the
//! inbound session cookie into a database-backed identity, or a typed
//! failure.
//!
//! The pipeline is: read the session cookie, verify the token's signature,
//! extract the `sub` claim, and load the user it names. A missing cookie is
//! reported on its own; every later failure — bad signature, missing claim,
//! unknown subject — is collapsed into one generic response so that clients
//! cannot probe which step failed.

use crate::errors::create_error;
use crate::errors::is_invalid_token_error;
use crate::errors::is_no_token_error;
use crate::errors::ErrorBody;
use crate::store::find_user_index_by_id;
use crate::store::has_user_with_id;
use crate::store::is_user_with_id;
use crate::store::Store;
use crate::store::User;
use crate::token::token_subject;
use crate::token::verify_token;
use crate::token::TokenJar;
use vstd::prelude::*;

verus! {

/// The authenticated identity of one request: the full user record resolved
/// from a validated session token.
#[derive(Debug)]
pub struct AuthUser(pub User);

impl AuthUser {
    /// Resolves the request's session cookie to a stored user.
    ///
    /// Succeeds exactly when the jar holds a token whose signature verifies
    /// under `key`, whose claim set carries a subject, and whose subject is
    /// the id of a stored user; that user is the resulting identity.
    pub fn from_request(store: &Store, key: &str, jar: &TokenJar) -> (r: Result<
        AuthUser,
        ErrorBody,
    >)
        ensures
            match r {
                Ok(a) => jar.token matches Some(t) && token_subject(key@, t@) matches Some(sub)
                    && is_user_with_id(store.users@, sub, a.0),
                Err(e) => match jar.token {
                    None => is_no_token_error(e),
                    Some(t) => is_invalid_token_error(e) && (token_subject(key@, t@) matches Some(
                        sub,
                    ) ==> !has_user_with_id(store.users@, sub)),
                },
            },
            (jar.token matches Some(t) && token_subject(key@, t@) matches Some(sub)
                && has_user_with_id(store.users@, sub)) ==> r is Ok,
    {
        let token = match jar.get_token() {
            Some(t) => t,
            None => {
                return Err(create_error(401, "Unauthorized", "No token provided"));
            },
        };
        let user_id = match verify_token(key, token.as_str()) {
            Some(s) => s,
            None => {
                return Err(create_error(401, "Unauthorized", "Invalid token"));
            },
        };
        match find_user_index_by_id(&store.users, &user_id) {
            Some(i) => {
                let u = store.users[i].clone();
                Ok(AuthUser(u))
            },
            None => Err(create_error(401, "Unauthorized", "Invalid token")),
        }
    }
}

} // verus!
