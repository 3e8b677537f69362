use vstd::prelude::*;

use crate::account::{process_spec, Account, AccountState, TxError};
use crate::model::{ClientId, TransactionId, Tx, TxRecord};
use crate::store::{AccountStore, TransactionStore};

verus! {

/// The state an incoming transaction for `client_id` is applied to: the
/// stored account, or a fresh one on first sight of the client.
pub open spec fn account_for(accounts: Map<ClientId, Account>, client_id: ClientId) -> AccountState {
    if accounts.contains_key(client_id) {
        accounts[client_id]@
    } else {
        AccountState::fresh(client_id)
    }
}

/// Owns the accounts and the transaction history, and routes each
/// transaction to the account of its client.
pub struct TransactionDB<T: TransactionStore, A: AccountStore> {
    accounts: A,
    transactions: T,
}

impl<T: TransactionStore, A: AccountStore> TransactionDB<T, A> {
    /// The accounts, by client id.
    pub closed spec fn account_map(&self) -> Map<ClientId, Account> {
        self.accounts.account_map()
    }

    /// The transaction history, by transaction id.
    pub closed spec fn records(&self) -> Map<TransactionId, TxRecord> {
        self.transactions.records()
    }

    /// Each account is stored under its own client id.
    pub open spec fn wf(&self) -> bool {
        forall|k: ClientId|
            #[trigger] self.account_map().contains_key(k) ==> self.account_map()[k]@.client_id
                == k
    }

    /// A ledger over the given stores.
    pub fn new(transaction_store: T, account_store: A) -> (r: Self)
        ensures
            r.account_map() == account_store.account_map(),
            r.records() == transaction_store.records(),
    {
        TransactionDB { accounts: account_store, transactions: transaction_store }
    }

    /// The account of each client, once per client, in no particular order.
    pub fn accounts(&self) -> (r: Vec<Account>)
        ensures
            exists|ids: Seq<ClientId>|
                #![trigger ids.to_set()]
                ids.no_duplicates() && ids.to_set() == self.account_map().dom() && r@
                    == ids.map_values(|k: ClientId| self.account_map()[k]),
    {
        self.accounts.accounts()
    }

    /// Applies `tx` to the account of its client, creating that account
    /// first if the client is new. Other accounts are left as they were.
    pub fn add(&mut self, tx: Tx) -> (r: Result<(), TxError>)
        ensures
            ({
                let cid = tx.client_id;
                let (res, next, records) = process_spec(
                    account_for(old(self).account_map(), cid),
                    tx,
                    old(self).records(),
                );
                &&& r == res
                &&& final(self).records() == records
                &&& final(self).account_map().dom() == old(self).account_map().dom().insert(cid)
                &&& final(self).account_map()[cid]@ == next
                &&& old(self).wf() ==> final(self).wf()
                &&& forall|k: ClientId|
                    k != cid && #[trigger] old(self).account_map().contains_key(k)
                        ==> final(self).account_map()[k] == old(self).account_map()[k]
            }),
    {
        let mut account = match self.accounts.get_account(&tx.client_id) {
            Some(acc) => acc,
            None => self.accounts.add_account(tx.client_id, Account::new(tx.client_id)),
        };
        let r = account.process(tx, &mut self.transactions);
        self.accounts.set_account(tx.client_id, account);
        r
    }
}

} // verus!
