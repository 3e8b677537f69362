use vstd::prelude::*;

use crate::account::{process_spec, AccountState, TxError};
use crate::amount::in_range;
use crate::model::{DisputeState, TransactionId, Tx, TxOperation, TxRecord};
use crate::store::TransactionStoreError;

verus! {

/// Applies `txs` in order to `acc` and `records`: the final account state
/// and history.
pub open spec fn run_spec(
    acc: AccountState,
    txs: Seq<Tx>,
    records: Map<TransactionId, TxRecord>,
) -> (AccountState, Map<TransactionId, TxRecord>)
    decreases txs.len(),
{
    if txs.len() == 0 {
        (acc, records)
    } else {
        let (before, history) = run_spec(acc, txs.drop_last(), records);
        let (_, after, recorded) = process_spec(before, txs.last(), history);
        (after, recorded)
    }
}

/// The money that the successful deposits and withdrawals among `txs`,
/// applied in order, moved into the account: deposits count up,
/// withdrawals down, refused transactions not at all.
pub open spec fn net_transfer(
    acc: AccountState,
    txs: Seq<Tx>,
    records: Map<TransactionId, TxRecord>,
) -> int
    decreases txs.len(),
{
    if txs.len() == 0 {
        0
    } else {
        let (before, history) = run_spec(acc, txs.drop_last(), records);
        let step = if process_spec(before, txs.last(), history).0 is Ok {
            match txs.last().operation {
                TxOperation::Deposit(a) => a@,
                TxOperation::Withdraw(a) => -a@,
                TxOperation::Dispute(_) => 0,
            }
        } else {
            0
        };
        net_transfer(acc, txs.drop_last(), records) + step
    }
}

/// True of deposits and withdrawals, the transactions that move money in
/// or out.
pub open spec fn is_transfer(tx: Tx) -> bool {
    tx.operation is Deposit || tx.operation is Withdraw
}

/// The amount the record `id` moved.
pub open spec fn record_amount(records: Map<TransactionId, TxRecord>, id: TransactionId) -> int {
    records[id].origin.amount_spec()@
}

/// Applying any transaction keeps total and held funds in range.
pub proof fn lemma_process_keeps_wf(
    acc: AccountState,
    tx: Tx,
    records: Map<TransactionId, TxRecord>,
)
    requires
        acc.wf(),
    ensures
        process_spec(acc, tx, records).1.wf(),
        process_spec(acc, tx, records).1.client_id == acc.client_id,
{
}

/// Over any sequence of deposits and withdrawals, the total is the held
/// funds plus the available funds, the total moves by exactly the
/// successful transfers, the held funds do not move, and the state stays in
/// range.
pub proof fn lemma_transfers_keep_total_split(
    acc: AccountState,
    txs: Seq<Tx>,
    records: Map<TransactionId, TxRecord>,
)
    requires
        acc.wf(),
        forall|i: int| 0 <= i < txs.len() ==> is_transfer(#[trigger] txs[i]),
    ensures
        ({
            let s = run_spec(acc, txs, records).0;
            &&& s.total == s.held + s.balance()
            &&& s.total == acc.total + net_transfer(acc, txs, records)
            &&& s.held == acc.held
            &&& s.wf()
        }),
    decreases txs.len(),
{
    if txs.len() > 0 {
        let front = txs.drop_last();
        assert forall|i: int| 0 <= i < front.len() implies is_transfer(#[trigger] front[i]) by {
            assert(front[i] == txs[i]);
        }
        lemma_transfers_keep_total_split(acc, front, records);
        assert(is_transfer(txs[txs.len() - 1]));
    }
}

/// Opening a dispute on a record of the account, with no dispute yet,
/// holds exactly the record's amount and leaves the total alone.
pub proof fn lemma_initiate_holds_amount(
    acc: AccountState,
    tx: Tx,
    records: Map<TransactionId, TxRecord>,
)
    requires
        acc.wf(),
        !acc.locked,
        tx.operation == TxOperation::Dispute(DisputeState::Initiated),
        records.contains_key(tx.transaction_id),
        records[tx.transaction_id].client_id == acc.client_id,
        records[tx.transaction_id].dispute is None,
        in_range(acc.held + record_amount(records, tx.transaction_id)),
    ensures
        ({
            let (r, next, recorded) = process_spec(acc, tx, records);
            &&& r is Ok
            &&& next.held == acc.held + record_amount(records, tx.transaction_id)
            &&& next.total == acc.total
            &&& !next.locked
            &&& recorded[tx.transaction_id].dispute == Some(DisputeState::Initiated)
        }),
{
}

/// Resolving an open dispute releases exactly the record's amount and
/// leaves the total alone.
pub proof fn lemma_resolve_releases_amount(
    acc: AccountState,
    tx: Tx,
    records: Map<TransactionId, TxRecord>,
)
    requires
        acc.wf(),
        !acc.locked,
        tx.operation == TxOperation::Dispute(DisputeState::Resolved),
        records.contains_key(tx.transaction_id),
        records[tx.transaction_id].client_id == acc.client_id,
        records[tx.transaction_id].dispute == Some(DisputeState::Initiated),
        in_range(acc.held - record_amount(records, tx.transaction_id)),
    ensures
        ({
            let (r, next, recorded) = process_spec(acc, tx, records);
            &&& r is Ok
            &&& next.held == acc.held - record_amount(records, tx.transaction_id)
            &&& next.total == acc.total
            &&& recorded[tx.transaction_id].dispute == Some(DisputeState::Resolved)
        }),
{
}

/// Opening a dispute and then resolving it gives back the held funds and
/// the total from before the dispute.
pub proof fn lemma_dispute_then_resolve_restores(
    acc: AccountState,
    open: Tx,
    resolve: Tx,
    records: Map<TransactionId, TxRecord>,
)
    requires
        acc.wf(),
        !acc.locked,
        open.operation == TxOperation::Dispute(DisputeState::Initiated),
        resolve.operation == TxOperation::Dispute(DisputeState::Resolved),
        resolve.transaction_id == open.transaction_id,
        records.contains_key(open.transaction_id),
        records[open.transaction_id].client_id == acc.client_id,
        records[open.transaction_id].dispute is None,
        in_range(acc.held + record_amount(records, open.transaction_id)),
    ensures
        ({
            let (r1, mid, recorded) = process_spec(acc, open, records);
            let (r2, last, _) = process_spec(mid, resolve, recorded);
            &&& r1 is Ok
            &&& r2 is Ok
            &&& last.held == acc.held
            &&& last.total == acc.total
        }),
{
}

/// A chargeback of an open dispute takes the record's amount out of both
/// the held funds and the total and locks the account; after that every
/// transaction is refused as locked and changes nothing.
pub proof fn lemma_chargeback_locks(
    acc: AccountState,
    tx: Tx,
    later: Tx,
    records: Map<TransactionId, TxRecord>,
)
    requires
        acc.wf(),
        !acc.locked,
        tx.operation == TxOperation::Dispute(DisputeState::ChargeBack),
        records.contains_key(tx.transaction_id),
        records[tx.transaction_id].client_id == acc.client_id,
        records[tx.transaction_id].dispute == Some(DisputeState::Initiated),
        in_range(acc.held - record_amount(records, tx.transaction_id)),
        in_range(acc.total - record_amount(records, tx.transaction_id)),
    ensures
        ({
            let (r, next, recorded) = process_spec(acc, tx, records);
            let (r2, after, recorded2) = process_spec(next, later, recorded);
            &&& r is Ok
            &&& next.held == acc.held - record_amount(records, tx.transaction_id)
            &&& next.total == acc.total - record_amount(records, tx.transaction_id)
            &&& next.locked
            &&& recorded[tx.transaction_id].dispute == Some(DisputeState::ChargeBack)
            &&& r2 == Err::<(), TxError>(TxError::AccountLocked(acc.client_id))
            &&& after == next
            &&& recorded2 == recorded
        }),
{
}

/// A dispute of an id that was never recorded is refused as not found and
/// changes nothing.
pub proof fn lemma_dispute_unknown_not_found(
    acc: AccountState,
    tx: Tx,
    records: Map<TransactionId, TxRecord>,
)
    requires
        !acc.locked,
        tx.operation is Dispute,
        !records.contains_key(tx.transaction_id),
    ensures
        process_spec(acc, tx, records) == (
            Err::<(), TxError>(TxError::TransactionNotFound(tx.transaction_id)),
            acc,
            records,
        ),
{
}

/// A withdrawal refused for want of funds leaves no record: a later
/// dispute of its id is refused as not found and changes nothing.
pub proof fn lemma_refused_withdrawal_not_disputable(
    acc: AccountState,
    withdrawal: Tx,
    dispute: Tx,
    records: Map<TransactionId, TxRecord>,
)
    requires
        !acc.locked,
        withdrawal.operation is Withdraw,
        !records.contains_key(withdrawal.transaction_id),
        process_spec(acc, withdrawal, records).0 == Err::<(), TxError>(
            TxError::InsufficientFunds(withdrawal.transaction_id),
        ),
        dispute.operation is Dispute,
        dispute.transaction_id == withdrawal.transaction_id,
    ensures
        ({
            let (_, mid, recorded) = process_spec(acc, withdrawal, records);
            &&& mid == acc
            &&& recorded == records
            &&& process_spec(mid, dispute, recorded) == (
                Err::<(), TxError>(TxError::TransactionNotFound(dispute.transaction_id)),
                acc,
                records,
            )
        }),
{
}

/// A dispute step that the record's current state does not allow (opening
/// twice, resolving or charging back what is not open) is refused as an
/// invalid state and changes nothing.
pub proof fn lemma_invalid_transition_refused(
    acc: AccountState,
    tx: Tx,
    state: DisputeState,
    records: Map<TransactionId, TxRecord>,
)
    requires
        !acc.locked,
        tx.operation == TxOperation::Dispute(state),
        records.contains_key(tx.transaction_id),
        records[tx.transaction_id].client_id == acc.client_id,
        state == DisputeState::Initiated ==> records[tx.transaction_id].dispute is Some,
        state != DisputeState::Initiated ==> records[tx.transaction_id].dispute != Some(
            DisputeState::Initiated,
        ),
    ensures
        process_spec(acc, tx, records) == (
            Err::<(), TxError>(
                TxError::InvalidState(state, records[tx.transaction_id].dispute),
            ),
            acc,
            records,
        ),
{
}

/// Once a deposit or withdrawal is recorded, a second deposit or
/// withdrawal with the same id, for any account, is refused and changes
/// nothing; a deposit that would otherwise go through is refused as a
/// duplicate.
pub proof fn lemma_duplicate_id_refused(
    acc: AccountState,
    first: Tx,
    other: AccountState,
    second: Tx,
    records: Map<TransactionId, TxRecord>,
)
    requires
        is_transfer(first),
        is_transfer(second),
        second.transaction_id == first.transaction_id,
        process_spec(acc, first, records).0 is Ok,
    ensures
        ({
            let recorded = process_spec(acc, first, records).2;
            let (r, next, recorded2) = process_spec(other, second, recorded);
            &&& r is Err
            &&& next == other
            &&& recorded2 == recorded
            &&& (!other.locked && (second.operation matches TxOperation::Deposit(a) && in_range(
                other.total + a@,
            ))) ==> r == Err::<(), TxError>(
                TxError::IntegrityError(
                    TransactionStoreError::TransactionAlreadyExists(second.transaction_id),
                ),
            )
        }),
{
}

/// Only a successful chargeback locks an account, and a lock is never
/// lifted.
pub proof fn lemma_lock_only_by_chargeback(
    acc: AccountState,
    tx: Tx,
    records: Map<TransactionId, TxRecord>,
)
    ensures
        ({
            let (r, next, _) = process_spec(acc, tx, records);
            next.locked <==> (acc.locked || (r is Ok && tx.operation == TxOperation::Dispute(
                DisputeState::ChargeBack,
            )))
        }),
{
}

/// A locked account refuses every sequence of transactions: neither the
/// account nor the history changes.
pub proof fn lemma_locked_account_frozen(
    acc: AccountState,
    txs: Seq<Tx>,
    records: Map<TransactionId, TxRecord>,
)
    requires
        acc.locked,
    ensures
        run_spec(acc, txs, records) == (acc, records),
    decreases txs.len(),
{
    if txs.len() > 0 {
        lemma_locked_account_frozen(acc, txs.drop_last(), records);
    }
}

} // verus!
