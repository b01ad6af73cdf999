//! The account store and the transaction ledger: concurrent maps of
//! `dashmap`, seen here through their contents.

use crate::model::{Account, ClientId, TxId, TxRecord};
use dashmap::DashMap;
use vstd::prelude::*;

verus! {

/// Accounts by client.
pub type AccountStore = DashMap<ClientId, Account>;

/// Ledger records by transaction.
pub type Ledger = DashMap<TxId, TxRecord>;

#[verifier::external_type_specification]
#[verifier::external_body]
#[verifier::reject_recursive_types(K)]
#[verifier::reject_recursive_types(V)]
#[verifier::reject_recursive_types(S)]
pub struct ExDashMap<K, V, S>(DashMap<K, V, S>);

/// The entries of an account store.
pub uninterp spec fn account_entries(m: AccountStore) -> Map<ClientId, Account>;

/// The entries of a ledger.
pub uninterp spec fn record_entries(m: Ledger) -> Map<TxId, TxRecord>;

/// Relies on `DashMap::new`: a map with no entries.
#[verifier::external_body]
pub(crate) fn new_account_store() -> (r: AccountStore)
    ensures
        account_entries(r).dom().is_empty(),
{
    DashMap::new()
}

/// Relies on `DashMap::get`: the entry under `client`, if any (copied out).
#[verifier::external_body]
pub(crate) fn get_account(m: &AccountStore, client: ClientId) -> (r: Option<Account>)
    ensures
        r == (if account_entries(*m).contains_key(client) {
            Some(account_entries(*m)[client])
        } else {
            None::<Account>
        }),
{
    m.get(&client).map(|e| *e)
}

/// Relies on `DashMap::insert`: sets the entry under `client`.
#[verifier::external_body]
pub(crate) fn put_account(m: &mut AccountStore, client: ClientId, acc: Account)
    ensures
        account_entries(*final(m)) == account_entries(*old(m)).insert(client, acc),
{
    m.insert(client, acc);
}

/// Relies on `DashMap::new`: a map with no entries.
#[verifier::external_body]
pub(crate) fn new_ledger() -> (r: Ledger)
    ensures
        record_entries(r).dom().is_empty(),
{
    DashMap::new()
}

/// Relies on `DashMap::get`: the entry under `tx`, if any (copied out).
#[verifier::external_body]
pub(crate) fn get_record(m: &Ledger, tx: TxId) -> (r: Option<TxRecord>)
    ensures
        r == (if record_entries(*m).contains_key(tx) {
            Some(record_entries(*m)[tx])
        } else {
            None::<TxRecord>
        }),
{
    m.get(&tx).map(|e| *e)
}

/// Relies on `DashMap::insert`: sets the entry under `tx`.
#[verifier::external_body]
pub(crate) fn put_record(m: &mut Ledger, tx: TxId, rec: TxRecord)
    ensures
        record_entries(*final(m)) == record_entries(*old(m)).insert(tx, rec),
{
    m.insert(tx, rec);
}

} // verus!
