//! Ownership-scoped wallet handling: CRUD over wallet rows where every
//! lookup and mutation is constrained by the authenticated caller's id, so
//! that another user's wallet behaves exactly like a nonexistent one.

use crate::auth::AuthUser;
use crate::errors::create_error;
use crate::errors::is_create_wallet_conflict_error;
use crate::errors::is_id_generation_error;
use crate::errors::is_wallet_not_found_error;
use crate::errors::ErrorBody;
use crate::ids::generate_id;
use crate::store::find_wallet_index;
use crate::store::find_wallet_index_by_id;
use crate::store::has_wallet;
use crate::store::has_wallet_with_id;
use crate::store::Store;
use crate::store::Wallet;
use crate::store::RATIONAL_ONE;
use vstd::prelude::*;

verus! {

/// The body of a wallet creation or update request. `rational` is optional:
/// creation defaults it to `RATIONAL_ONE`, update carries the stored value
/// over.
pub struct NewWallet {
    pub name: String,
    pub currency: String,
    pub rational: Option<u64>,
}

/// The wallets owned by `owner_id`, in storage order.
pub open spec fn owned_wallets(wallets: Seq<Wallet>, owner_id: Seq<char>) -> Seq<Wallet> {
    wallets.filter(|w: Wallet| w.user_id@ == owner_id)
}

/// Lists the caller's wallets: exactly the rows whose `user_id` is the
/// authenticated identity's id, in storage order.
pub fn get_wallets(store: &Store, user: &AuthUser) -> (r: Result<Vec<Wallet>, ErrorBody>)
    ensures
        r matches Ok(ws) && ws@ == owned_wallets(store.wallets@, user.0.id@),
{
    let mut ws: Vec<Wallet> = Vec::new();
    let mut k: usize = 0;
    while k < store.wallets.len()
        invariant
            k <= store.wallets@.len(),
            ws@ == owned_wallets(store.wallets@.subrange(0, k as int), user.0.id@),
        decreases store.wallets@.len() - k,
    {
        if store.wallets[k].user_id == user.0.id {
            ws.push(store.wallets[k].clone());
        }
        proof {
            broadcast use Seq::lemma_filter_push;

            let pre = store.wallets@.subrange(0, k as int);
            let post = store.wallets@.subrange(0, k + 1 as int);
            assert(post =~= pre.push(store.wallets@[k as int]));
        }
        k += 1;
    }
    proof {
        assert(store.wallets@.subrange(0, store.wallets@.len() as int) =~= store.wallets@);
    }
    Ok(ws)
}

/// Inserts a freshly created wallet row under the caller's ownership.
///
/// This is the deterministic core of wallet creation, taking the generated
/// id as an argument: it succeeds exactly when the id does not collide with
/// a stored row, mirroring the storage engine's primary-key constraint.
/// `rational` defaults to `RATIONAL_ONE` when absent and `balance` is forced
/// to `0` regardless of input.
pub fn insert_wallet(store: &mut Store, user: &AuthUser, id: String, wallet: &NewWallet) -> (r:
    Result<Wallet, ErrorBody>)
    requires
        old(store).wf(),
    ensures
        final(store).wf(),
        final(store).users == old(store).users,
        match r {
            Ok(w) => {
                &&& !has_wallet_with_id(old(store).wallets@, id@)
                &&& final(store).wallets@ == old(store).wallets@.push(w)
                &&& w.id@ == id@ && w.user_id@ == user.0.id@
                &&& w.name@ == wallet.name@ && w.currency@ == wallet.currency@
                &&& w.rational == (match wallet.rational {
                    Some(x) => x,
                    None => RATIONAL_ONE,
                })
                &&& w.balance == 0
            },
            Err(e) => {
                &&& *final(store) == *old(store)
                &&& is_create_wallet_conflict_error(e)
                &&& has_wallet_with_id(old(store).wallets@, id@)
            },
        },
{
    match find_wallet_index_by_id(&store.wallets, &id) {
        Some(_) => {
            return Err(create_error(422, "Failed to create wallet", "Wallet id already exists"));
        },
        None => {},
    }
    let rational = match wallet.rational {
        Some(x) => x,
        None => RATIONAL_ONE,
    };
    let record = Wallet {
        id,
        user_id: user.0.id.clone(),
        name: wallet.name.clone(),
        currency: wallet.currency.clone(),
        rational,
        balance: 0,
    };
    let result = record.clone();
    store.wallets.push(record);
    proof {
        let wallets = old(store).wallets@;
        assert forall|x: int, y: int|
            #![trigger final(store).wallets@[x], final(store).wallets@[y]]
            0 <= x < y < final(store).wallets@.len() implies final(store).wallets@[x].id@
            != final(store).wallets@[y].id@ by {
            if y < wallets.len() {
                assert(final(store).wallets@[x] == wallets[x] && final(store).wallets@[y]
                    == wallets[y]);
            } else {
                assert(final(store).wallets@[x] == wallets[x]);
            }
        }
    }
    Ok(result)
}

/// Creates a wallet for the caller: generates a unique id and inserts the
/// row owned by the caller's id, with `balance` forced to `0` and `rational`
/// defaulted to `RATIONAL_ONE` when absent.
pub fn create_wallet(
    store: &mut Store,
    sf: &snowflake_me::Snowflake,
    user: &AuthUser,
    wallet: &NewWallet,
) -> (r: Result<Wallet, ErrorBody>)
    requires
        old(store).wf(),
    ensures
        final(store).wf(),
        final(store).users == old(store).users,
        match r {
            Ok(w) => {
                &&& !has_wallet_with_id(old(store).wallets@, w.id@)
                &&& final(store).wallets@ == old(store).wallets@.push(w)
                &&& w.user_id@ == user.0.id@
                &&& w.name@ == wallet.name@ && w.currency@ == wallet.currency@
                &&& w.rational == (match wallet.rational {
                    Some(x) => x,
                    None => RATIONAL_ONE,
                })
                &&& w.balance == 0
            },
            Err(e) => {
                &&& *final(store) == *old(store)
                &&& is_id_generation_error(e) || is_create_wallet_conflict_error(e)
            },
        },
{
    let id = match generate_id(sf) {
        Ok(id) => id,
        Err(e) => {
            return Err(e);
        },
    };
    insert_wallet(store, user, id, wallet)
}

/// Updates a wallet after the ownership-checked lookup: provided fields
/// overwrite, an absent `rational` carries the stored value over (unlike
/// creation, which defaults it), and `balance` is never touched. A wallet
/// that does not exist or belongs to another user yields the same
/// "not found" response.
pub fn update_wallet(store: &mut Store, user: &AuthUser, id: &String, wallet: &NewWallet) -> (r:
    Result<Wallet, ErrorBody>)
    requires
        old(store).wf(),
    ensures
        final(store).wf(),
        final(store).users == old(store).users,
        match r {
            Ok(w) => exists|i: int|
                0 <= i < old(store).wallets@.len() && (#[trigger] old(store).wallets@[i]).id@ == id@
                    && old(store).wallets@[i].user_id@ == user.0.id@ && final(store).wallets@
                    == old(store).wallets@.update(i, w) && w.id@ == id@ && w.user_id@ == user.0.id@
                    && w.name@ == wallet.name@ && w.currency@ == wallet.currency@ && w.rational == (
                match wallet.rational {
                    Some(x) => x,
                    None => old(store).wallets@[i].rational,
                }) && w.balance == old(store).wallets@[i].balance,
            Err(e) => {
                &&& *final(store) == *old(store)
                &&& is_wallet_not_found_error(e)
                &&& !has_wallet(old(store).wallets@, id@, user.0.id@)
            },
        },
        has_wallet(old(store).wallets@, id@, user.0.id@) ==> r is Ok,
{
    let i = match find_wallet_index(&store.wallets, id, &user.0.id) {
        Some(i) => i,
        None => {
            return Err(create_error(404, "Wallet not found", "Wallet not found"));
        },
    };
    let rational = match wallet.rational {
        Some(x) => x,
        None => store.wallets[i].rational,
    };
    let record = Wallet {
        id: store.wallets[i].id.clone(),
        user_id: store.wallets[i].user_id.clone(),
        name: wallet.name.clone(),
        currency: wallet.currency.clone(),
        rational,
        balance: store.wallets[i].balance,
    };
    let result = record.clone();
    store.wallets[i] = record;
    proof {
        let wallets = old(store).wallets@;
        assert forall|x: int, y: int|
            #![trigger final(store).wallets@[x], final(store).wallets@[y]]
            0 <= x < y < final(store).wallets@.len() implies final(store).wallets@[x].id@
            != final(store).wallets@[y].id@ by {
            if x != i && y != i {
                assert(final(store).wallets@[x] == wallets[x] && final(store).wallets@[y]
                    == wallets[y]);
            } else if x == i {
                assert(final(store).wallets@[y] == wallets[y]);
                assert(wallets[y].id@ != wallets[i as int].id@);
            } else {
                assert(final(store).wallets@[x] == wallets[x]);
                assert(wallets[x].id@ != wallets[i as int].id@);
            }
        }
    }
    Ok(result)
}

/// Deletes a wallet after the same ownership-checked lookup as update, with
/// the same collapsed "not found" response, and returns the pre-deletion row
/// as confirmation.
pub fn delete_wallet(store: &mut Store, user: &AuthUser, id: &String) -> (r: Result<
    Wallet,
    ErrorBody,
>)
    requires
        old(store).wf(),
    ensures
        final(store).wf(),
        final(store).users == old(store).users,
        match r {
            Ok(w) => exists|i: int|
                0 <= i < old(store).wallets@.len() && (#[trigger] old(store).wallets@[i]).id@ == id@
                    && old(store).wallets@[i].user_id@ == user.0.id@ && w == old(store).wallets@[i]
                    && final(store).wallets@ == old(store).wallets@.remove(i),
            Err(e) => {
                &&& *final(store) == *old(store)
                &&& is_wallet_not_found_error(e)
                &&& !has_wallet(old(store).wallets@, id@, user.0.id@)
            },
        },
        has_wallet(old(store).wallets@, id@, user.0.id@) ==> r is Ok,
{
    let i = match find_wallet_index(&store.wallets, id, &user.0.id) {
        Some(i) => i,
        None => {
            return Err(create_error(404, "Wallet not found", "Wallet not found"));
        },
    };
    let result = store.wallets[i].clone();
    store.wallets.remove(i);
    proof {
        let wallets = old(store).wallets@;
        assert forall|x: int, y: int|
            #![trigger final(store).wallets@[x], final(store).wallets@[y]]
            0 <= x < y < final(store).wallets@.len() implies final(store).wallets@[x].id@
            != final(store).wallets@[y].id@ by {
            let xo = if x < i {
                x
            } else {
                x + 1
            };
            let yo = if y < i {
                y
            } else {
                y + 1
            };
            assert(final(store).wallets@[x] == wallets[xo]);
            assert(final(store).wallets@[y] == wallets[yo]);
        }
    }
    Ok(result)
}

} // verus!
