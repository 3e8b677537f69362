use vstd::prelude::*;

use crate::account::Account;
use crate::amount::Amount;
use crate::model::ClientId;

verus! {

/// The final report of one account.
#[derive(Copy, Clone, Debug, PartialEq, Eq, Structural)]
pub struct Record {
    pub client_id: ClientId,
    pub balance: Amount,
    pub held: Amount,
    pub total: Amount,
    pub locked: bool,
}

impl Record {
    /// The report of `account`.
    pub fn from_account(account: &Account) -> (r: Record)
        ensures
            r.client_id == account@.client_id,
            r.balance@ == account@.balance(),
            r.held@ == account@.held,
            r.total@ == account@.total,
            r.locked == account@.locked,
    {
        Record {
            client_id: account.client(),
            balance: account.balance(),
            held: account.held(),
            total: account.total(),
            locked: account.is_locked(),
        }
    }
}

} // verus!
