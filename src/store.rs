use std::collections::HashMap;

use vstd::prelude::*;
use vstd::std_specs::iter::IteratorSpec;

use crate::account::Account;
use crate::model::{ClientId, DisputeState, TransactionId, TxRecord};

verus! {

/// Why the transaction history refused a request.
#[derive(Copy, Clone, Debug, PartialEq, Eq, Structural)]
pub enum TransactionStoreError {
    /// The record belongs to the first client, the request came from the second.
    ClientMismatch(ClientId, ClientId),
    /// A record with this id exists already.
    TransactionAlreadyExists(TransactionId),
}

/// What looking up `id` on behalf of `client_id` gives: nothing for an
/// unknown id, the record when the client owns it, an integrity error when
/// someone else does.
pub open spec fn lookup_spec(
    records: Map<TransactionId, TxRecord>,
    client_id: ClientId,
    id: TransactionId,
) -> Result<Option<TxRecord>, TransactionStoreError> {
    if !records.contains_key(id) {
        Ok(None)
    } else if records[id].client_id != client_id {
        Err(TransactionStoreError::ClientMismatch(records[id].client_id, client_id))
    } else {
        Ok(Some(records[id]))
    }
}

/// `record` with its dispute state set to `state`.
pub open spec fn with_dispute(record: TxRecord, state: DisputeState) -> TxRecord {
    TxRecord { dispute: Some(state), ..record }
}

/// History of deposits and withdrawals, keyed by transaction id. Records
/// are added once and never removed; only their dispute state changes.
pub trait TransactionStore {
    /// The records held, by id.
    spec fn records(&self) -> Map<TransactionId, TxRecord>;

    /// Adds `record` under `id`, unless that id is taken.
    fn add(&mut self, id: TransactionId, record: TxRecord) -> (r: Result<
        (),
        TransactionStoreError,
    >)
        ensures
            old(self).records().contains_key(id) ==> r == Err::<(), TransactionStoreError>(
                TransactionStoreError::TransactionAlreadyExists(id),
            ) && final(self).records() == old(self).records(),
            !old(self).records().contains_key(id) ==> r is Ok && final(self).records()
                == old(self).records().insert(id, record),
    ;

    /// The record `id`, looked up on behalf of `client_id`.
    fn get_tx(&self, client_id: &ClientId, id: &TransactionId) -> (r: Result<
        Option<TxRecord>,
        TransactionStoreError,
    >)
        ensures
            r == lookup_spec(self.records(), *client_id, *id),
    ;

    /// Sets the dispute state of the existing record `id`.
    fn set_dispute(&mut self, id: &TransactionId, state: DisputeState)
        requires
            old(self).records().contains_key(*id),
        ensures
            final(self).records() == old(self).records().insert(
                *id,
                with_dispute(old(self).records()[*id], state),
            ),
    ;
}

/// The client accounts, keyed by client id.
pub trait AccountStore {
    /// The accounts held, by client id.
    spec fn account_map(&self) -> Map<ClientId, Account>;

    /// The account of `client_id`, if there is one.
    fn get_account(&self, client_id: &ClientId) -> (r: Option<Account>)
        ensures
            r == (if self.account_map().contains_key(*client_id) {
                Some(self.account_map()[*client_id])
            } else {
                None
            }),
    ;

    /// Stores `account` for `client_id` unless one is stored already, and
    /// returns the account that is stored afterwards.
    fn add_account(&mut self, client_id: ClientId, account: Account) -> (r: Account)
        ensures
            old(self).account_map().contains_key(client_id) ==> final(self).account_map()
                == old(self).account_map() && r == old(self).account_map()[client_id],
            !old(self).account_map().contains_key(client_id) ==> final(self).account_map()
                == old(self).account_map().insert(client_id, account) && r == account,
    ;

    /// Stores `account` for `client_id`, replacing what was there.
    fn set_account(&mut self, client_id: ClientId, account: Account)
        ensures
            final(self).account_map() == old(self).account_map().insert(client_id, account),
    ;

    /// The account stored under each client id, once per id, in no
    /// particular order.
    fn accounts(&self) -> (r: Vec<Account>)
        ensures
            exists|ids: Seq<ClientId>|
                #![trigger ids.to_set()]
                ids.no_duplicates() && ids.to_set() == self.account_map().dom() && r@
                    == ids.map_values(|k: ClientId| self.account_map()[k]),
    ;
}

impl TransactionStore for HashMap<TransactionId, TxRecord> {
    open spec fn records(&self) -> Map<TransactionId, TxRecord> {
        self@
    }

    fn add(&mut self, id: TransactionId, record: TxRecord) -> (r: Result<
        (),
        TransactionStoreError,
    >) {
        if self.contains_key(&id) {
            return Err(TransactionStoreError::TransactionAlreadyExists(id));
        }
        self.insert(id, record);
        Ok(())
    }

    fn get_tx(&self, client_id: &ClientId, id: &TransactionId) -> (r: Result<
        Option<TxRecord>,
        TransactionStoreError,
    >) {
        match self.get(id) {
            Some(record) => {
                if record.client_id != *client_id {
                    return Err(TransactionStoreError::ClientMismatch(record.client_id, *client_id));
                }
                Ok(Some(*record))
            },
            None => Ok(None),
        }
    }

    fn set_dispute(&mut self, id: &TransactionId, state: DisputeState) {
        let current = *self.get(id).unwrap();
        let updated = TxRecord { dispute: Some(state), ..current };
        self.insert(*id, updated);
    }
}

impl AccountStore for HashMap<ClientId, Account> {
    open spec fn account_map(&self) -> Map<ClientId, Account> {
        self@
    }

    fn get_account(&self, client_id: &ClientId) -> (r: Option<Account>) {
        match self.get(client_id) {
            Some(account) => Some(*account),
            None => None,
        }
    }

    fn add_account(&mut self, client_id: ClientId, account: Account) -> (r: Account) {
        match self.get(&client_id) {
            Some(existing) => *existing,
            None => {
                self.insert(client_id, account);
                account
            },
        }
    }

    fn set_account(&mut self, client_id: ClientId, account: Account) {
        self.insert(client_id, account);
    }

    fn accounts(&self) -> (r: Vec<Account>) {
        let ghost ids = vstd::std_specs::hash::spec_keys_iter(self).remaining().unref();
        let mut r: Vec<Account> = Vec::new();
        for client_id in it: self.keys()
            invariant
                it.seq() == vstd::std_specs::hash::spec_keys_iter(self).remaining(),
                ids == it.seq().unref(),
                ids.to_set() == self@.dom(),
                r@ == ids.take(it.index() as int).map_values(|k: ClientId| self@[k]),
        {
            assert(ids[it.index()] == *client_id);
            assert(ids.to_set().contains(*client_id));
            let account = *self.get(client_id).unwrap();
            r.push(account);
            assert(r@ =~= ids.take(it.index() + 1).map_values(|k: ClientId| self@[k]));
        }
        proof {
            assert(ids.take(ids.len() as int) =~= ids);
            let refs = vstd::std_specs::hash::spec_keys_iter(self).remaining();
            assert forall|i: int, j: int|
                0 <= i < ids.len() && 0 <= j < ids.len() && i != j implies ids[i] != ids[j] by {
                assert(refs[i] != refs[j]);
            }
        }
        r
    }
}

} // verus!
