//! The session token codec: stateless signing and verification of a compact
//! claim set `{sub: user_id}` with a shared secret, and the model of the
//! client-held session cookie that carries the token.
//!
//! Signing and verification are done by the `jwt` crate over HMAC-SHA256;
//! both are deterministic functions of the secret and their input, which the
//! two uninterpreted names below capture.

use std::collections::BTreeMap;

use hmac::digest::KeyInit;
use hmac::Hmac;
use jwt::SignWithKey;
use jwt::VerifyWithKey;
use sha2::Sha256;
use vstd::prelude::*;

verus! {

/// The token that signing the claim set `{sub: subject}` with `key` emits.
pub uninterp spec fn token_of(key: Seq<char>, subject: Seq<char>) -> Seq<char>;

/// The subject that verifying `token` with `key` resolves: `None` when the
/// token is malformed, its signature does not match, or its claim set has no
/// `sub` entry; otherwise the `sub` claim.
pub uninterp spec fn token_subject(key: Seq<char>, token: Seq<char>) -> Option<Seq<char>>;

/// Relies on `jwt::SignWithKey` for `BTreeMap` claims with `hmac::Hmac<sha2::Sha256>`:
/// the emitted token is a deterministic function of the key bytes and the claim
/// set, signing a claim set of plain strings cannot fail, and verifying the
/// emitted token with the same key recovers the `sub` claim.
#[verifier::external_body]
pub(crate) fn sign_token(key: &str, subject: &str) -> (r: String)
    ensures
        r@ == token_of(key@, subject@),
        token_subject(key@, r@) == Some(subject@),
{
    let hmac_key: Hmac<Sha256> = Hmac::new_from_slice(key.as_bytes()).unwrap();
    let mut claims: BTreeMap<&str, String> = BTreeMap::new();
    claims.insert("sub", subject.to_string());
    claims.sign_with_key(&hmac_key).unwrap()
}

/// Relies on `jwt::VerifyWithKey` for `BTreeMap` claims with `hmac::Hmac<sha2::Sha256>`:
/// verification recomputes the HMAC over the embedded claims and compares it
/// against the token's signature, so its outcome is a deterministic function
/// of the key bytes and the token string.
#[verifier::external_body]
pub(crate) fn verify_token(key: &str, token: &str) -> (r: Option<String>)
    ensures
        r is Some <==> token_subject(key@, token@) is Some,
        r matches Some(s) ==> token_subject(key@, token@) == Some(s@),
{
    let hmac_key: Hmac<Sha256> = Hmac::new_from_slice(key.as_bytes()).unwrap();
    let claims: BTreeMap<String, String> = match token.verify_with_key(&hmac_key) {
        Ok(claims) => claims,
        Err(_) => {
            return None;
        },
    };
    claims.get("sub").cloned()
}

/// The session cookie slot of one request: either a token the client sent
/// (or that a handler set), or nothing.
pub struct TokenJar {
    pub token: Option<String>,
}

impl TokenJar {
    /// A jar with no session cookie, as a request without one arrives.
    pub fn new() -> (r: TokenJar)
        ensures
            r.token is None,
    {
        TokenJar { token: None }
    }

    /// The token the jar holds, if any.
    pub fn get_token(&self) -> (r: Option<&String>)
        ensures
            match r {
                Some(t) => self.token matches Some(own) && own == t,
                None => self.token is None,
            },
    {
        match &self.token {
            Some(t) => Some(t),
            None => None,
        }
    }
}

/// Removes the session cookie, as logout, account deletion, and the start of
/// every login attempt do.
pub fn clear_token(jar: &mut TokenJar)
    ensures
        final(jar).token is None,
{
    jar.token = None;
}

/// Issues a session token binding `user_id` as the subject and stores it in
/// the session cookie.
pub fn create_token(jar: &mut TokenJar, key: &str, user_id: &str)
    ensures
        final(jar).token matches Some(t) && t@ == token_of(key@, user_id@),
        token_subject(key@, token_of(key@, user_id@)) == Some(user_id@),
{
    jar.token = Some(sign_token(key, user_id));
}

} // verus!
