//! The service-level guarantees that relate several operations, stated and
//! proved over the same spec functions the handlers' contracts use.

use crate::errors::is_invalid_credentials_error;
use crate::errors::is_wallet_not_found_error;
use crate::errors::ErrorBody;
use crate::store::has_wallet;
use crate::store::unique_wallet_ids;
use crate::store::Store;
use crate::store::User;
use crate::store::Wallet;
use crate::users::login_ok;
use crate::users::password_matches;
use crate::wallets::owned_wallets;
use vstd::prelude::*;

verus! {

/// Every registered credential pair keeps working: if the store holds a user
/// record, then logging in with that record's username and any password that
/// matches its stored hash satisfies exactly the condition under which
/// `login_user` succeeds and issues a token for that user's id.
pub proof fn lemma_registered_login_succeeds(store: Store, i: int, password: Seq<char>)
    requires
        0 <= i < store.users@.len(),
        password_matches(password, store.users@[i].hashed_password@),
    ensures
        login_ok(store.users@, store.users@[i].username@, password),
{
    assert(0 <= i < store.users@.len() && store.users@[i].username@ == store.users@[i].username@
        && password_matches(password, store.users@[i].hashed_password@));
}

/// Registration keeps the credential pair working: appending a user record
/// whose stored hash matches the registered password — the exact shape in
/// which registration extends the store — satisfies the condition under
/// which a later `login_user` with that username and password succeeds.
pub proof fn lemma_register_then_login(users: Seq<User>, nu: User, password: Seq<char>)
    requires
        password_matches(password, nu.hashed_password@),
    ensures
        login_ok(users.push(nu), nu.username@, password),
{
    let extended = users.push(nu);
    assert(0 <= users.len() < extended.len() && extended[users.len() as int] == nu);
}

/// Login failures are indistinguishable: a wrong password and a nonexistent
/// username produce responses with the identical status, reason and
/// description.
pub proof fn lemma_login_failures_indistinguishable(e1: ErrorBody, e2: ErrorBody)
    requires
        is_invalid_credentials_error(e1),
        is_invalid_credentials_error(e2),
    ensures
        e1.code == e2.code,
        e1.reason@ == e2.reason@,
        e1.description@ == e2.description@,
{
}

/// Cross-user access is indistinguishable from absence: a wallet owned by
/// one user fails every other user's ownership-checked lookup exactly as a
/// nonexistent id does — so `update_wallet` and `delete_wallet` return their
/// "not found" response for it — and it never appears in the other user's
/// listing.
pub proof fn lemma_cross_user_wallet_hidden(wallets: Seq<Wallet>, i: int, other_id: Seq<char>)
    requires
        unique_wallet_ids(wallets),
        0 <= i < wallets.len(),
        wallets[i].user_id@ != other_id,
    ensures
        !has_wallet(wallets, wallets[i].id@, other_id),
        !owned_wallets(wallets, other_id).contains(wallets[i]),
{
    broadcast use Seq::lemma_filter_pred;

    if has_wallet(wallets, wallets[i].id@, other_id) {
        let j = choose|j: int|
            0 <= j < wallets.len() && (#[trigger] wallets[j]).id@ == wallets[i].id@
                && wallets[j].user_id@ == other_id;
        assert(wallets[j].id@ != wallets[i].id@);
    }
    if owned_wallets(wallets, other_id).contains(wallets[i]) {
        let k = choose|k: int|
            0 <= k < owned_wallets(wallets, other_id).len() && owned_wallets(wallets, other_id)[k]
                == wallets[i];
        assert(owned_wallets(wallets, other_id)[k].user_id@ == other_id);
    }
}

/// Wallet "not found" responses are indistinguishable: the response for
/// another user's wallet and the response for a nonexistent id carry the
/// identical status, reason and description.
pub proof fn lemma_not_found_indistinguishable(e1: ErrorBody, e2: ErrorBody)
    requires
        is_wallet_not_found_error(e1),
        is_wallet_not_found_error(e2),
    ensures
        e1.code == e2.code,
        e1.reason@ == e2.reason@,
        e1.description@ == e2.description@,
{
}

/// The listing is sound and complete: a wallet row stands in a user's
/// listing exactly when the store holds it and that user owns it.
pub proof fn lemma_owned_wallets_membership(wallets: Seq<Wallet>, owner_id: Seq<char>, w: Wallet)
    ensures
        owned_wallets(wallets, owner_id).contains(w) <==> (wallets.contains(w) && w.user_id@
            == owner_id),
{
    broadcast use Seq::lemma_filter_pred;
    broadcast use Seq::lemma_filter_contains;
    broadcast use Seq::lemma_filter_contains_rev;

    if owned_wallets(wallets, owner_id).contains(w) {
        let k = choose|k: int|
            0 <= k < owned_wallets(wallets, owner_id).len() && owned_wallets(wallets, owner_id)[k]
                == w;
        assert(owned_wallets(wallets, owner_id)[k].user_id@ == owner_id);
    }
    if wallets.contains(w) && w.user_id@ == owner_id {
        let k = choose|k: int| 0 <= k < wallets.len() && wallets[k] == w;
        assert(owned_wallets(wallets, owner_id).contains(wallets[k]));
    }
}

} // verus!
