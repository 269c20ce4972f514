//! The durable state of the service, modelled as plain rows: persisted user
//! records with hashed passwords, and wallets each owned by exactly one user.
//!
//! The storage engine itself is an external collaborator; this module captures
//! what the service relies on it for: row lookup by key, the uniqueness
//! constraints on identifiers and usernames, and the ownership-checked wallet
//! lookup that makes resources of other users indistinguishable from absent
//! ones.

use vstd::prelude::*;

verus! {

/// A persisted user record. `hashed_password` is an opaque digest and is
/// never serialized to clients.
#[derive(Debug)]
pub struct User {
    pub id: String,
    pub name: String,
    pub username: String,
    pub hashed_password: String,
}

impl Clone for User {
    fn clone(&self) -> (r: User)
        ensures
            r == *self,
    {
        User {
            id: self.id.clone(),
            name: self.name.clone(),
            username: self.username.clone(),
            hashed_password: self.hashed_password.clone(),
        }
    }
}

/// The scaling factor of a wallet, in millionths: the stored value `1.0` of
/// the wire format is held here as `RATIONAL_ONE`.
pub const RATIONAL_ONE: u64 = 1_000_000;

/// A persisted wallet row. `rational` is the client-side scaling factor in
/// millionths; `balance` is stored in millionths of the wallet's currency
/// unit and is never arithmetically adjusted by this core.
#[derive(Debug)]
pub struct Wallet {
    pub id: String,
    pub user_id: String,
    pub name: String,
    pub currency: String,
    pub rational: u64,
    pub balance: i64,
}

impl Clone for Wallet {
    fn clone(&self) -> (r: Wallet)
        ensures
            r == *self,
    {
        Wallet {
            id: self.id.clone(),
            user_id: self.user_id.clone(),
            name: self.name.clone(),
            currency: self.currency.clone(),
            rational: self.rational,
            balance: self.balance,
        }
    }
}

/// No two user rows share an id.
pub open spec fn unique_user_ids(users: Seq<User>) -> bool {
    forall|i: int, j: int|
        #![trigger users[i], users[j]]
        0 <= i < j < users.len() ==> users[i].id@ != users[j].id@
}

/// No two user rows share a username.
pub open spec fn unique_usernames(users: Seq<User>) -> bool {
    forall|i: int, j: int|
        #![trigger users[i], users[j]]
        0 <= i < j < users.len() ==> users[i].username@ != users[j].username@
}

/// No two wallet rows share an id.
pub open spec fn unique_wallet_ids(wallets: Seq<Wallet>) -> bool {
    forall|i: int, j: int|
        #![trigger wallets[i], wallets[j]]
        0 <= i < j < wallets.len() ==> wallets[i].id@ != wallets[j].id@
}

/// Some user row carries this id.
pub open spec fn has_user_with_id(users: Seq<User>, id: Seq<char>) -> bool {
    exists|i: int| 0 <= i < users.len() && (#[trigger] users[i]).id@ == id
}

/// `u` is a user row of `users` and carries this id.
pub open spec fn is_user_with_id(users: Seq<User>, id: Seq<char>, u: User) -> bool {
    exists|i: int| 0 <= i < users.len() && #[trigger] users[i] == u && u.id@ == id
}

/// Some user row carries this username.
pub open spec fn has_user_with_username(users: Seq<User>, username: Seq<char>) -> bool {
    exists|i: int| 0 <= i < users.len() && (#[trigger] users[i]).username@ == username
}

/// Some user row other than the one with id `own_id` carries this username.
pub open spec fn username_taken_by_other(
    users: Seq<User>,
    username: Seq<char>,
    own_id: Seq<char>,
) -> bool {
    exists|i: int|
        0 <= i < users.len() && (#[trigger] users[i]).username@ == username && users[i].id@
            != own_id
}

/// The ownership-checked lookup: some wallet row carries this id *and* is
/// owned by `owner_id`. A wallet of another user fails this exactly as a
/// nonexistent one does.
pub open spec fn has_wallet(wallets: Seq<Wallet>, wallet_id: Seq<char>, owner_id: Seq<char>) -> bool {
    exists|i: int|
        0 <= i < wallets.len() && (#[trigger] wallets[i]).id@ == wallet_id && wallets[i].user_id@
            == owner_id
}

/// Some wallet row carries this id, whoever owns it.
pub open spec fn has_wallet_with_id(wallets: Seq<Wallet>, wallet_id: Seq<char>) -> bool {
    exists|i: int| 0 <= i < wallets.len() && (#[trigger] wallets[i]).id@ == wallet_id
}

/// The modelled durable state: the users and wallets tables.
pub struct Store {
    pub users: Vec<User>,
    pub wallets: Vec<Wallet>,
}

impl Store {
    /// The storage constraints this core relies on: primary keys are unique
    /// and usernames are unique.
    pub open spec fn wf(self) -> bool {
        &&& unique_user_ids(self.users@)
        &&& unique_usernames(self.users@)
        &&& unique_wallet_ids(self.wallets@)
    }

    /// An empty store, as a fresh database starts.
    pub fn new() -> (r: Store)
        ensures
            r.wf(),
            r.users@.len() == 0,
            r.wallets@.len() == 0,
    {
        Store { users: Vec::new(), wallets: Vec::new() }
    }
}

/// Exact-match single-row lookup by user id.
pub(crate) fn find_user_index_by_id(users: &Vec<User>, id: &String) -> (r: Option<usize>)
    ensures
        match r {
            Some(i) => i < users@.len() && users@[i as int].id@ == id@,
            None => !has_user_with_id(users@, id@),
        },
{
    let mut k: usize = 0;
    while k < users.len()
        invariant
            k <= users@.len(),
            forall|j: int| 0 <= j < k ==> (#[trigger] users@[j]).id@ != id@,
        decreases users@.len() - k,
    {
        if users[k].id == *id {
            return Some(k);
        }
        k += 1;
    }
    None
}

/// Exact-match single-row lookup by username.
pub(crate) fn find_user_index_by_username(users: &Vec<User>, username: &String) -> (r: Option<
    usize,
>)
    ensures
        match r {
            Some(i) => i < users@.len() && users@[i as int].username@ == username@,
            None => !has_user_with_username(users@, username@),
        },
{
    let mut k: usize = 0;
    while k < users.len()
        invariant
            k <= users@.len(),
            forall|j: int| 0 <= j < k ==> (#[trigger] users@[j]).username@ != username@,
        decreases users@.len() - k,
    {
        if users[k].username == *username {
            return Some(k);
        }
        k += 1;
    }
    None
}

/// The ownership-checked wallet lookup: the row must match both the wallet id
/// and the owner's id.
pub(crate) fn find_wallet_index(
    wallets: &Vec<Wallet>,
    wallet_id: &String,
    owner_id: &String,
) -> (r: Option<usize>)
    ensures
        match r {
            Some(i) => i < wallets@.len() && wallets@[i as int].id@ == wallet_id@
                && wallets@[i as int].user_id@ == owner_id@,
            None => !has_wallet(wallets@, wallet_id@, owner_id@),
        },
{
    let mut k: usize = 0;
    while k < wallets.len()
        invariant
            k <= wallets@.len(),
            forall|j: int|
                0 <= j < k ==> ((#[trigger] wallets@[j]).id@ != wallet_id@ || wallets@[j].user_id@
                    != owner_id@),
        decreases wallets@.len() - k,
    {
        if wallets[k].id == *wallet_id && wallets[k].user_id == *owner_id {
            return Some(k);
        }
        k += 1;
    }
    None
}

/// Lookup by wallet id alone, used to honour the primary-key constraint on
/// insertion.
pub(crate) fn find_wallet_index_by_id(wallets: &Vec<Wallet>, wallet_id: &String) -> (r: Option<
    usize,
>)
    ensures
        match r {
            Some(i) => i < wallets@.len() && wallets@[i as int].id@ == wallet_id@,
            None => !has_wallet_with_id(wallets@, wallet_id@),
        },
{
    let mut k: usize = 0;
    while k < wallets.len()
        invariant
            k <= wallets@.len(),
            forall|j: int| 0 <= j < k ==> (#[trigger] wallets@[j]).id@ != wallet_id@,
        decreases wallets@.len() - k,
    {
        if wallets[k].id == *wallet_id {
            return Some(k);
        }
        k += 1;
    }
    None
}

} // verus!
