//! User account handling: registration, login, profile update and account
//! deletion, plus the public-safe projection of a user record.
//!
//! Passwords are hashed by the external bcrypt primitive. Hashing draws a
//! random salt, so only this is relied on: every hash it emits matches the
//! password it was derived from, and checking a password against a hash is a
//! deterministic function of the two, named `password_matches`.

use crate::auth::AuthUser;
use crate::errors::create_error;
use crate::errors::is_create_user_conflict_error;
use crate::errors::is_hashing_error;
use crate::errors::is_id_generation_error;
use crate::errors::is_invalid_credentials_error;
use crate::errors::is_invalid_old_password_error;
use crate::errors::is_old_password_required_error;
use crate::errors::is_update_user_conflict_error;
use crate::errors::ErrorBody;
use crate::ids::generate_id;
use crate::store::find_user_index_by_id;
use crate::store::find_user_index_by_username;
use crate::store::has_user_with_id;
use crate::store::has_user_with_username;
use crate::store::username_taken_by_other;
use crate::store::Store;
use crate::store::User;
use crate::token::clear_token;
use crate::token::create_token;
use crate::token::token_of;
use crate::token::token_subject;
use crate::token::TokenJar;
use vstd::prelude::*;

verus! {

/// The body of a registration request.
pub struct NewUser {
    pub name: String,
    pub username: String,
    pub password: String,
}

/// The body of a profile update: every field optional, with `old_password`
/// mandatory whenever `password` is supplied.
pub struct UpdateUser {
    pub name: Option<String>,
    pub username: Option<String>,
    pub password: Option<String>,
    pub old_password: Option<String>,
}

/// The body of a login request.
pub struct LoginUser {
    pub username: String,
    pub password: String,
}

/// The public-safe projection of a user record: what clients are shown.
/// It never includes the hashed password.
#[derive(Debug)]
pub struct PublicUser {
    pub id: String,
    pub name: String,
    pub username: String,
}

/// `p` shows exactly the public fields of the record `u`.
pub open spec fn is_projection(p: PublicUser, u: User) -> bool {
    &&& p.id@ == u.id@
    &&& p.name@ == u.name@
    &&& p.username@ == u.username@
}

/// Whether checking `password` against the bcrypt digest `hashed` succeeds.
/// This names the outcome of `bcrypt::verify`, which recomputes the digest
/// from the password and the salt and cost embedded in `hashed`: a
/// deterministic function of the two arguments.
pub uninterp spec fn password_matches(password: Seq<char>, hashed: Seq<char>) -> bool;

/// Relies on `bcrypt::verify`: deterministic in the password and the hash.
/// A malformed hash, which `bcrypt::verify` reports as an error, counts as a
/// mismatch.
#[verifier::external_body]
fn bcrypt_verify(password: &str, hashed: &str) -> (r: bool)
    ensures
        r == password_matches(password@, hashed@),
{
    bcrypt::verify(password, hashed).unwrap_or(false)
}

/// Relies on `bcrypt::hash` with the default cost: on success it emits a
/// salted digest of the password, and `bcrypt::verify` of the same password
/// against that digest succeeds, whatever salt was drawn.
#[verifier::external_body]
fn bcrypt_hash(password: &str) -> (r: Result<String, String>)
    ensures
        r matches Ok(h) ==> password_matches(password@, h@),
{
    match bcrypt::hash(password, bcrypt::DEFAULT_COST) {
        Ok(h) => Ok(h),
        Err(err) => Err(err.to_string()),
    }
}

/// Some stored user carries this username and this password matches its
/// stored hash: exactly the condition under which login succeeds.
pub open spec fn login_ok(users: Seq<User>, username: Seq<char>, password: Seq<char>) -> bool {
    exists|i: int|
        0 <= i < users.len() && (#[trigger] users[i]).username@ == username && password_matches(
            password,
            users[i].hashed_password@,
        )
}

/// Returns the caller's own public projection.
pub fn get_user(user: AuthUser) -> (r: PublicUser)
    ensures
        is_projection(r, user.0),
{
    let AuthUser(u) = user;
    PublicUser { id: u.id, name: u.name, username: u.username }
}

/// Logs a user in: clears any session cookie first, then looks the user up
/// by username and checks the password against the stored hash. Any failure
/// collapses to one generic response; success issues a fresh session token
/// for the user's id.
pub fn login_user(store: &Store, jar: &mut TokenJar, key: &str, user: &LoginUser) -> (r: Result<
    PublicUser,
    ErrorBody,
>)
    requires
        store.wf(),
    ensures
        match r {
            Ok(p) => exists|i: int|
                0 <= i < store.users@.len() && (#[trigger] store.users@[i]).username@
                    == user.username@ && password_matches(
                    user.password@,
                    store.users@[i].hashed_password@,
                ) && is_projection(p, store.users@[i]) && (final(jar).token matches Some(t) && t@
                    == token_of(key@, store.users@[i].id@) && token_subject(key@, t@) == Some(
                    store.users@[i].id@,
                )),
            Err(e) => is_invalid_credentials_error(e) && final(jar).token is None && !login_ok(
                store.users@,
                user.username@,
                user.password@,
            ),
        },
{
    clear_token(jar);
    let idx = match find_user_index_by_username(&store.users, &user.username) {
        Some(i) => i,
        None => {
            return Err(create_error(401, "Invalid credentials", "Invalid username or password"));
        },
    };
    if !bcrypt_verify(user.password.as_str(), store.users[idx].hashed_password.as_str()) {
        proof {
            assert forall|i: int|
                0 <= i < store.users@.len() && (#[trigger] store.users@[i]).username@
                    == user.username@ implies !password_matches(
                user.password@,
                store.users@[i].hashed_password@,
            ) by {
                assert(store.users@[i] == store.users@[idx as int]);
            }
        }
        return Err(create_error(401, "Invalid credentials", "Invalid username or password"));
    }
    create_token(jar, key, store.users[idx].id.as_str());
    Ok(
        PublicUser {
            id: store.users[idx].id.clone(),
            name: store.users[idx].name.clone(),
            username: store.users[idx].username.clone(),
        },
    )
}

/// Inserts a freshly registered user row and issues its session token.
///
/// This is the deterministic core of registration, taking the generated id
/// and the computed digest as arguments: it succeeds exactly when neither
/// the id nor the username collides with a stored row, mirroring the
/// storage engine's uniqueness constraints.
pub fn register_user(
    store: &mut Store,
    jar: &mut TokenJar,
    key: &str,
    id: String,
    hashed_password: String,
    name: &String,
    username: &String,
) -> (r: Result<PublicUser, ErrorBody>)
    requires
        old(store).wf(),
    ensures
        final(store).wf(),
        final(store).wallets == old(store).wallets,
        match r {
            Ok(p) => {
                &&& !has_user_with_id(old(store).users@, id@)
                &&& !has_user_with_username(old(store).users@, username@)
                &&& final(store).users@ == old(store).users@.push(
                    (User { id: id, name: *name, username: *username, hashed_password }),
                )
                &&& p.id@ == id@ && p.name@ == name@ && p.username@ == username@
                &&& final(jar).token matches Some(t) && t@ == token_of(key@, id@)
                    && token_subject(key@, t@) == Some(id@)
            },
            Err(e) => {
                &&& *final(store) == *old(store)
                &&& *final(jar) == *old(jar)
                &&& is_create_user_conflict_error(e)
                &&& has_user_with_id(old(store).users@, id@) || has_user_with_username(
                    old(store).users@,
                    username@,
                )
            },
        },
{
    let id_taken = match find_user_index_by_id(&store.users, &id) {
        Some(_) => true,
        None => false,
    };
    let username_taken = match find_user_index_by_username(&store.users, username) {
        Some(_) => true,
        None => false,
    };
    if id_taken || username_taken {
        return Err(create_error(422, "Failed to create user", "User already exists"));
    }
    let record = User {
        id: id.clone(),
        name: name.clone(),
        username: username.clone(),
        hashed_password,
    };
    let public = PublicUser { id: id.clone(), name: name.clone(), username: username.clone() };
    store.users.push(record);
    create_token(jar, key, id.as_str());
    proof {
        let users = old(store).users@;
        let nu = final(store).users@.last();
        assert forall|i: int, j: int|
            #![trigger final(store).users@[i], final(store).users@[j]]
            0 <= i < j < final(store).users@.len() implies final(store).users@[i].id@
            != final(store).users@[j].id@ && final(store).users@[i].username@
            != final(store).users@[j].username@ by {
            if j < users.len() {
                assert(final(store).users@[i] == users[i] && final(store).users@[j] == users[j]);
            } else {
                assert(final(store).users@[j] == nu);
                assert(final(store).users@[i] == users[i]);
            }
        }
    }
    Ok(public)
}

/// Registers a new account: hashes the password, generates a unique id,
/// inserts the row, and issues a session token for the new user. A duplicate
/// username is rejected; a failure of the hashing primitive or the id
/// generator surfaces as an internal error.
pub fn create_user(
    store: &mut Store,
    sf: &snowflake_me::Snowflake,
    jar: &mut TokenJar,
    key: &str,
    user: &NewUser,
) -> (r: Result<PublicUser, ErrorBody>)
    requires
        old(store).wf(),
    ensures
        final(store).wf(),
        final(store).wallets == old(store).wallets,
        match r {
            Ok(p) => {
                &&& final(store).users@.len() == old(store).users@.len() + 1
                &&& final(store).users@ == old(store).users@.push(final(store).users@.last())
                &&& {
                    let nu = final(store).users@.last();
                    &&& nu.name@ == user.name@
                    &&& nu.username@ == user.username@
                    &&& password_matches(user.password@, nu.hashed_password@)
                    &&& !has_user_with_id(old(store).users@, nu.id@)
                    &&& !has_user_with_username(old(store).users@, user.username@)
                    &&& p.id@ == nu.id@ && p.name@ == user.name@ && p.username@ == user.username@
                    &&& final(jar).token matches Some(t) && t@ == token_of(key@, nu.id@)
                        && token_subject(key@, t@) == Some(nu.id@)
                }
            },
            Err(e) => {
                &&& *final(store) == *old(store)
                &&& *final(jar) == *old(jar)
                &&& is_id_generation_error(e) || is_hashing_error(e)
                    || is_create_user_conflict_error(e)
            },
        },
        has_user_with_username(old(store).users@, user.username@) ==> r is Err,
{
    let id = match generate_id(sf) {
        Ok(id) => id,
        Err(e) => {
            return Err(e);
        },
    };
    let hashed_password = match bcrypt_hash(user.password.as_str()) {
        Ok(h) => h,
        Err(msg) => {
            return Err(create_error(500, "Failed to hash password", msg.as_str()));
        },
    };
    register_user(store, jar, key, id, hashed_password, &user.name, &user.username)
}

/// The value a field of a partial update resolves to: the supplied value,
/// or the current one when the field was omitted.
pub open spec fn updated_field(field: Option<String>, current: Seq<char>) -> Seq<char> {
    match field {
        Some(s) => s@,
        None => current,
    }
}

/// Writes a merged user record over the stored row with the same id.
///
/// Mirrors a single `UPDATE ... WHERE id` statement: if no row carries the
/// id, nothing changes and the write still succeeds; if the new username is
/// held by a different row, the uniqueness constraint rejects the write.
fn write_user_row(store: &mut Store, updated: &User) -> (r: Result<(), ErrorBody>)
    requires
        old(store).wf(),
    ensures
        final(store).wf(),
        final(store).wallets == old(store).wallets,
        match r {
            Ok(_) => if has_user_with_id(old(store).users@, updated.id@) {
                &&& !username_taken_by_other(old(store).users@, updated.username@, updated.id@)
                &&& exists|i: int|
                    0 <= i < old(store).users@.len() && (#[trigger] old(store).users@[i]).id@
                        == updated.id@ && final(store).users@ == old(store).users@.update(
                        i,
                        *updated,
                    )
            } else {
                final(store).users@ == old(store).users@
            },
            Err(e) => {
                &&& *final(store) == *old(store)
                &&& is_update_user_conflict_error(e)
                &&& has_user_with_id(old(store).users@, updated.id@)
                &&& username_taken_by_other(old(store).users@, updated.username@, updated.id@)
            },
        },
{
    let i = match find_user_index_by_id(&store.users, &updated.id) {
        Some(i) => i,
        None => {
            return Ok(());
        },
    };
    match find_user_index_by_username(&store.users, &updated.username) {
        Some(j) => {
            if store.users[j].id != updated.id {
                return Err(
                    create_error(422, "Failed to update user", "Username is already taken"),
                );
            }
            proof {
                assert forall|k: int|
                    0 <= k < store.users@.len() && (#[trigger] store.users@[k]).username@
                        == updated.username@ implies store.users@[k].id@ == updated.id@ by {
                    assert(store.users@[k] == store.users@[j as int]);
                }
            }
        },
        None => {},
    }
    store.users[i] = updated.clone();
    proof {
        let users = old(store).users@;
        assert forall|x: int, y: int|
            #![trigger final(store).users@[x], final(store).users@[y]]
            0 <= x < y < final(store).users@.len() implies final(store).users@[x].id@
            != final(store).users@[y].id@ && final(store).users@[x].username@
            != final(store).users@[y].username@ by {
            if x != i && y != i {
                assert(final(store).users@[x] == users[x] && final(store).users@[y] == users[y]);
            } else if x == i {
                assert(final(store).users@[y] == users[y]);
                assert(users[y].id@ != users[i as int].id@);
            } else {
                assert(final(store).users@[x] == users[x]);
                assert(users[x].id@ != users[i as int].id@);
            }
        }
    }
    Ok(())
}

/// Applies a partial profile update to the caller's own record.
///
/// A supplied `password` makes `old_password` mandatory, and it must match
/// the stored hash before the new password is hashed; provided fields
/// overwrite, omitted ones are carried over, and the merged record is
/// written with a single update.
pub fn update_user(store: &mut Store, auth_user: &AuthUser, user: &UpdateUser) -> (r: Result<
    PublicUser,
    ErrorBody,
>)
    requires
        old(store).wf(),
    ensures
        final(store).wf(),
        final(store).wallets == old(store).wallets,
        match r {
            Ok(p) => {
                let new_name = updated_field(user.name, auth_user.0.name@);
                let new_username = updated_field(user.username, auth_user.0.username@);
                &&& p.id@ == auth_user.0.id@ && p.name@ == new_name && p.username@ == new_username
                &&& (user.password matches Some(pw) ==> user.old_password matches Some(op)
                    && password_matches(op@, auth_user.0.hashed_password@))
                &&& if has_user_with_id(old(store).users@, auth_user.0.id@) {
                    &&& !username_taken_by_other(old(store).users@, new_username, auth_user.0.id@)
                    &&& exists|i: int|
                        0 <= i < old(store).users@.len() && (#[trigger] old(store).users@[i]).id@
                            == auth_user.0.id@ && final(store).users@ == old(store).users@.update(
                            i,
                            final(store).users@[i],
                        ) && final(store).users@[i].id@ == auth_user.0.id@
                            && final(store).users@[i].name@ == new_name
                            && final(store).users@[i].username@ == new_username && (
                        match user.password {
                            Some(pw) => password_matches(
                                pw@,
                                final(store).users@[i].hashed_password@,
                            ),
                            None => final(store).users@[i].hashed_password@
                                == auth_user.0.hashed_password@,
                        })
                } else {
                    final(store).users@ == old(store).users@
                }
            },
            Err(e) => {
                let new_username = updated_field(user.username, auth_user.0.username@);
                &&& *final(store) == *old(store)
                &&& (is_old_password_required_error(e) && user.password is Some
                    && user.old_password is None) || (is_invalid_old_password_error(e)
                    && user.password is Some && (match user.old_password {
                    Some(op) => !password_matches(op@, auth_user.0.hashed_password@),
                    None => false,
                })) || (is_hashing_error(e) && user.password is Some) || (
                is_update_user_conflict_error(e) && has_user_with_id(
                    old(store).users@,
                    auth_user.0.id@,
                ) && username_taken_by_other(old(store).users@, new_username, auth_user.0.id@))
            },
        },
        (user.password is None && !username_taken_by_other(
            old(store).users@,
            updated_field(user.username, auth_user.0.username@),
            auth_user.0.id@,
        )) ==> r is Ok,
{
    let db_user = &auth_user.0;
    let mut updated = db_user.clone();
    match &user.name {
        Some(name) => {
            updated.name = name.clone();
        },
        None => {},
    }
    match &user.username {
        Some(username) => {
            updated.username = username.clone();
        },
        None => {},
    }
    match &user.password {
        Some(password) => {
            match &user.old_password {
                Some(old_password) => {
                    if !bcrypt_verify(old_password.as_str(), db_user.hashed_password.as_str()) {
                        return Err(
                            create_error(401, "Invalid credentials", "Invalid old password"),
                        );
                    }
                },
                None => {
                    return Err(create_error(400, "Invalid request", "Old password is required"));
                },
            }
            updated.hashed_password = match bcrypt_hash(password.as_str()) {
                Ok(h) => h,
                Err(msg) => {
                    return Err(create_error(500, "Failed to hash password", msg.as_str()));
                },
            };
        },
        None => {},
    }
    match write_user_row(store, &updated) {
        Ok(_) => Ok(
            PublicUser { id: updated.id, name: updated.name, username: updated.username },
        ),
        Err(e) => Err(e),
    }
}

/// Deletes the caller's own account, clears the session cookie, and returns
/// the deleted record's public projection as confirmation.
pub fn delete_user(store: &mut Store, jar: &mut TokenJar, auth_user: &AuthUser) -> (r: Result<
    PublicUser,
    ErrorBody,
>)
    requires
        old(store).wf(),
    ensures
        final(store).wf(),
        final(store).wallets == old(store).wallets,
        final(jar).token is None,
        r matches Ok(p) && is_projection(p, auth_user.0),
        if has_user_with_id(old(store).users@, auth_user.0.id@) {
            exists|i: int|
                0 <= i < old(store).users@.len() && (#[trigger] old(store).users@[i]).id@
                    == auth_user.0.id@ && final(store).users@ == old(store).users@.remove(i)
        } else {
            final(store).users@ == old(store).users@
        },
{
    match find_user_index_by_id(&store.users, &auth_user.0.id) {
        Some(i) => {
            store.users.remove(i);
            proof {
                let users = old(store).users@;
                assert forall|x: int, y: int|
                    #![trigger final(store).users@[x], final(store).users@[y]]
                    0 <= x < y < final(store).users@.len() implies final(store).users@[x].id@
                    != final(store).users@[y].id@ && final(store).users@[x].username@
                    != final(store).users@[y].username@ by {
                    let xo = if x < i {
                        x
                    } else {
                        x + 1
                    };
                    let yo = if y < i {
                        y
                    } else {
                        y + 1
                    };
                    assert(final(store).users@[x] == users[xo]);
                    assert(final(store).users@[y] == users[yo]);
                }
            }
        },
        None => {},
    }
    clear_token(jar);
    Ok(
        PublicUser {
            id: auth_user.0.id.clone(),
            name: auth_user.0.name.clone(),
            username: auth_user.0.username.clone(),
        },
    )
}

} // verus!
