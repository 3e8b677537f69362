use vstd::prelude::*;

use crate::amount::Amount;

verus! {

/// Globally unique identifier of a deposit or withdrawal.
pub type TransactionId = u32;

/// Identifier of a client, and of that client's one account.
pub type ClientId = u16;

/// A dispute may be in one of three states. The valid transitions are
/// `Initiated -> Resolved` and `Initiated -> ChargeBack`.
#[derive(Copy, Clone, Debug, PartialEq, Eq, Structural)]
pub enum DisputeState {
    Initiated,
    Resolved,
    ChargeBack,
}

/// What a transaction asks of an account.
#[derive(Copy, Clone, Debug, PartialEq, Eq, Structural)]
pub enum TxOperation {
    Deposit(Amount),
    Withdraw(Amount),
    Dispute(DisputeState),
}

/// A single transaction to apply; its id is unique across all clients.
#[derive(Copy, Clone, Debug, PartialEq, Eq, Structural)]
pub struct Tx {
    pub transaction_id: TransactionId,
    pub client_id: ClientId,
    pub operation: TxOperation,
}

/// The transaction a record was made from; fixed once the record exists.
#[derive(Copy, Clone, Debug, PartialEq, Eq, Structural)]
pub enum TxRecordType {
    Deposit(Amount),
    Withdraw(Amount),
}

/// A past deposit or withdrawal, the target of later disputes. Only the
/// `dispute` field ever changes.
#[derive(Copy, Clone, Debug, PartialEq, Eq, Structural)]
pub struct TxRecord {
    pub origin: TxRecordType,
    pub client_id: ClientId,
    pub dispute: Option<DisputeState>,
}

impl TxRecordType {
    /// The amount the transaction moved.
    pub open spec fn amount_spec(self) -> Amount {
        match self {
            TxRecordType::Deposit(a) => a,
            TxRecordType::Withdraw(a) => a,
        }
    }
}

impl TxRecord {
    /// The amount of the transaction this record was made from.
    pub fn amount(&self) -> (r: Amount)
        ensures
            r == self.origin.amount_spec(),
    {
        match self.origin {
            TxRecordType::Deposit(amount) => amount,
            TxRecordType::Withdraw(amount) => amount,
        }
    }
}

} // verus!
