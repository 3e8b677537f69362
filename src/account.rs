use vstd::prelude::*;

use crate::amount::{in_range, Amount};
use crate::model::{ClientId, DisputeState, TransactionId, Tx, TxOperation, TxRecord, TxRecordType};
use crate::store::{with_dispute, TransactionStore, TransactionStoreError};

verus! {

/// The state of an account, in units of `10^-4`.
pub struct AccountState {
    pub client_id: ClientId,
    pub total: int,
    pub held: int,
    pub locked: bool,
}

impl AccountState {
    /// Funds available: the total less what disputes hold.
    pub open spec fn balance(self) -> int {
        self.total - self.held
    }

    /// Total and held funds are within the range an account can store.
    pub open spec fn wf(self) -> bool {
        in_range(self.total) && in_range(self.held)
    }

    /// A new, empty, unlocked account of `client_id`.
    pub open spec fn fresh(client_id: ClientId) -> AccountState {
        AccountState { client_id, total: 0, held: 0, locked: false }
    }
}

/// Why a transaction was not applied. None of them is fatal: the account
/// and the history are left as they were.
#[derive(Copy, Clone, Debug, PartialEq, Eq, Structural)]
pub enum TxError {
    /// The account is locked by a chargeback.
    AccountLocked(ClientId),
    /// The withdrawal asks for more than the available funds.
    InsufficientFunds(TransactionId),
    /// A dispute names a transaction that was never recorded.
    TransactionNotFound(TransactionId),
    /// A dispute asks for the first state while the record is in the second.
    InvalidState(DisputeState, Option<DisputeState>),
    /// The history refused: a reused id, or another client's transaction.
    IntegrityError(TransactionStoreError),
    /// Applying the transaction would take the total or the held funds out
    /// of the storable range.
    AmountOutOfRange(TransactionId),
}

/// Outcome of a refused transaction: the error, nothing changed.
pub open spec fn refused(
    e: TxError,
    acc: AccountState,
    records: Map<TransactionId, TxRecord>,
) -> (Result<(), TxError>, AccountState, Map<TransactionId, TxRecord>) {
    (Err(e), acc, records)
}

/// The new record that a deposit or withdrawal of `acc` leaves.
pub open spec fn new_record(acc: AccountState, origin: TxRecordType) -> TxRecord {
    TxRecord { origin, client_id: acc.client_id, dispute: None }
}

/// Applies `tx` to `acc` against the history `records`: the result, the new
/// account state and the new history.
pub open spec fn process_spec(
    acc: AccountState,
    tx: Tx,
    records: Map<TransactionId, TxRecord>,
) -> (Result<(), TxError>, AccountState, Map<TransactionId, TxRecord>) {
    let id = tx.transaction_id;
    if acc.locked {
        refused(TxError::AccountLocked(acc.client_id), acc, records)
    } else {
        match tx.operation {
            TxOperation::Deposit(a) => {
                if !in_range(acc.total + a@) {
                    refused(TxError::AmountOutOfRange(id), acc, records)
                } else if records.contains_key(id) {
                    refused(
                        TxError::IntegrityError(TransactionStoreError::TransactionAlreadyExists(id)),
                        acc,
                        records,
                    )
                } else {
                    (
                        Ok(()),
                        AccountState { total: acc.total + a@, ..acc },
                        records.insert(id, new_record(acc, TxRecordType::Deposit(a))),
                    )
                }
            },
            TxOperation::Withdraw(a) => {
                if a@ > acc.balance() {
                    refused(TxError::InsufficientFunds(id), acc, records)
                } else if !in_range(acc.total - a@) {
                    refused(TxError::AmountOutOfRange(id), acc, records)
                } else if records.contains_key(id) {
                    refused(
                        TxError::IntegrityError(TransactionStoreError::TransactionAlreadyExists(id)),
                        acc,
                        records,
                    )
                } else {
                    (
                        Ok(()),
                        AccountState { total: acc.total - a@, ..acc },
                        records.insert(id, new_record(acc, TxRecordType::Withdraw(a))),
                    )
                }
            },
            TxOperation::Dispute(state) => {
                if !records.contains_key(id) {
                    refused(TxError::TransactionNotFound(id), acc, records)
                } else if records[id].client_id != acc.client_id {
                    refused(
                        TxError::IntegrityError(
                            TransactionStoreError::ClientMismatch(records[id].client_id, acc.client_id),
                        ),
                        acc,
                        records,
                    )
                } else {
                    dispute_spec(acc, id, state, records)
                }
            },
        }
    }
}

/// Moves the dispute of the existing record `id`, owned by `acc`'s client,
/// to `state`.
pub open spec fn dispute_spec(
    acc: AccountState,
    id: TransactionId,
    state: DisputeState,
    records: Map<TransactionId, TxRecord>,
) -> (Result<(), TxError>, AccountState, Map<TransactionId, TxRecord>) {
    let record = records[id];
    let amount = record.origin.amount_spec()@;
    let disputed = records.insert(id, with_dispute(record, state));
    match state {
        DisputeState::Initiated => {
            if record.dispute is Some {
                refused(TxError::InvalidState(state, record.dispute), acc, records)
            } else if !in_range(acc.held + amount) {
                refused(TxError::AmountOutOfRange(id), acc, records)
            } else {
                (Ok(()), AccountState { held: acc.held + amount, ..acc }, disputed)
            }
        },
        DisputeState::Resolved => {
            if record.dispute != Some(DisputeState::Initiated) {
                refused(TxError::InvalidState(state, record.dispute), acc, records)
            } else if !in_range(acc.held - amount) {
                refused(TxError::AmountOutOfRange(id), acc, records)
            } else {
                (Ok(()), AccountState { held: acc.held - amount, ..acc }, disputed)
            }
        },
        DisputeState::ChargeBack => {
            if record.dispute != Some(DisputeState::Initiated) {
                refused(TxError::InvalidState(state, record.dispute), acc, records)
            } else if !in_range(acc.held - amount) || !in_range(acc.total - amount) {
                refused(TxError::AmountOutOfRange(id), acc, records)
            } else {
                (
                    Ok(()),
                    AccountState {
                        held: acc.held - amount,
                        total: acc.total - amount,
                        locked: true,
                        ..acc
                    },
                    disputed,
                )
            }
        },
    }
}

/// One client's funds and lock. Its state changes only by `process`.
#[derive(Copy, Clone, Debug)]
pub struct Account {
    client_id: ClientId,
    total: Amount,
    held: Amount,
    locked: bool,
}

impl View for Account {
    type V = AccountState;

    closed spec fn view(&self) -> AccountState {
        AccountState {
            client_id: self.client_id,
            total: self.total@,
            held: self.held@,
            locked: self.locked,
        }
    }
}

impl Account {
    #[verifier::type_invariant]
    spec fn inv(self) -> bool {
        in_range(self.total@) && in_range(self.held@)
    }

    /// A new, empty, unlocked account of `client_id`.
    pub fn new(client_id: ClientId) -> (r: Account)
        ensures
            r@ == AccountState::fresh(client_id),
            r@.wf(),
    {
        Account { client_id, total: Amount::zero(), held: Amount::zero(), locked: false }
    }

    /// The client this account belongs to.
    pub fn client(&self) -> (r: ClientId)
        ensures
            r == self@.client_id,
            self@.wf(),
    {
        proof {
            use_type_invariant(self);
        }
        self.client_id
    }

    /// Available funds: the total less the held funds.
    pub fn balance(&self) -> (r: Amount)
        ensures
            r@ == self@.balance(),
            self@.wf(),
    {
        proof {
            use_type_invariant(self);
        }
        Amount::from_units(self.total.units - self.held.units)
    }

    /// All funds of the account, held ones included.
    pub fn total(&self) -> (r: Amount)
        ensures
            r@ == self@.total,
            self@.wf(),
    {
        proof {
            use_type_invariant(self);
        }
        self.total
    }

    /// Funds held by open disputes.
    pub fn held(&self) -> (r: Amount)
        ensures
            r@ == self@.held,
            self@.wf(),
    {
        proof {
            use_type_invariant(self);
        }
        self.held
    }

    /// Whether a chargeback has locked the account.
    pub fn is_locked(&self) -> (r: bool)
        ensures
            r == self@.locked,
            self@.wf(),
    {
        proof {
            use_type_invariant(self);
        }
        self.locked
    }

    /// Applies `tx` to this account and to the history `store`. A refused
    /// transaction changes neither.
    pub fn process<T: TransactionStore>(&mut self, tx: Tx, store: &mut T) -> (r: Result<
        (),
        TxError,
    >)
        ensures
            (r, final(self)@, final(store).records()) == process_spec(
                old(self)@,
                tx,
                old(store).records(),
            ),
            final(self)@.wf(),
    {
        proof {
            use_type_invariant(&*self);
        }
        if self.locked {
            return Err(TxError::AccountLocked(self.client_id));
        }
        let id = tx.transaction_id;
        match tx.operation {
            TxOperation::Deposit(amount) => {
                let total = match self.total.checked_add(amount) {
                    Some(t) => t,
                    None => return Err(TxError::AmountOutOfRange(id)),
                };
                let record = TxRecord {
                    origin: TxRecordType::Deposit(amount),
                    client_id: self.client_id,
                    dispute: None,
                };
                match store.add(id, record) {
                    Ok(()) => {},
                    Err(e) => return Err(TxError::IntegrityError(e)),
                }
                self.total = total;
            },
            TxOperation::Withdraw(amount) => {
                let balance = self.balance();
                if amount.units > balance.units {
                    return Err(TxError::InsufficientFunds(id));
                }
                let total = match self.total.checked_sub(amount) {
                    Some(t) => t,
                    None => return Err(TxError::AmountOutOfRange(id)),
                };
                let record = TxRecord {
                    origin: TxRecordType::Withdraw(amount),
                    client_id: self.client_id,
                    dispute: None,
                };
                match store.add(id, record) {
                    Ok(()) => {},
                    Err(e) => return Err(TxError::IntegrityError(e)),
                }
                self.total = total;
            },
            TxOperation::Dispute(state) => {
                let record = match store.get_tx(&self.client_id, &id) {
                    Ok(Some(record)) => record,
                    Ok(None) => return Err(TxError::TransactionNotFound(id)),
                    Err(e) => return Err(TxError::IntegrityError(e)),
                };
                let amount = record.amount();
                match state {
                    DisputeState::Initiated => {
                        if record.dispute.is_some() {
                            return Err(TxError::InvalidState(state, record.dispute));
                        }
                        // The available funds may turn negative here.
                        let held = match self.held.checked_add(amount) {
                            Some(h) => h,
                            None => return Err(TxError::AmountOutOfRange(id)),
                        };
                        store.set_dispute(&id, state);
                        self.held = held;
                    },
                    DisputeState::Resolved => {
                        if record.dispute != Some(DisputeState::Initiated) {
                            return Err(TxError::InvalidState(state, record.dispute));
                        }
                        let held = match self.held.checked_sub(amount) {
                            Some(h) => h,
                            None => return Err(TxError::AmountOutOfRange(id)),
                        };
                        store.set_dispute(&id, state);
                        self.held = held;
                    },
                    DisputeState::ChargeBack => {
                        if record.dispute != Some(DisputeState::Initiated) {
                            return Err(TxError::InvalidState(state, record.dispute));
                        }
                        // The total may turn negative here; the account is
                        // locked either way.
                        let held = match self.held.checked_sub(amount) {
                            Some(h) => h,
                            None => return Err(TxError::AmountOutOfRange(id)),
                        };
                        let total = match self.total.checked_sub(amount) {
                            Some(t) => t,
                            None => return Err(TxError::AmountOutOfRange(id)),
                        };
                        store.set_dispute(&id, state);
                        self.held = held;
                        self.total = total;
                        self.locked = true;
                    },
                }
            },
        }
        Ok(())
    }
}

} // verus!
