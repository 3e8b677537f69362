use vstd::prelude::*;

use crate::amount::Amount;
use crate::model::{ClientId, DisputeState, TransactionId, Tx, TxOperation};

verus! {

/// The kind of an incoming row.
#[derive(Copy, Clone, Debug, PartialEq, Eq, Structural)]
pub enum TransactionType {
    Deposit,
    Withdrawal,
    Dispute,
    Resolve,
    ChargeBack,
}

/// One incoming row, before it is checked.
#[derive(Copy, Clone, Debug, PartialEq, Eq, Structural)]
pub struct TxRow {
    pub transaction_id: TransactionId,
    pub client_id: ClientId,
    pub row_type: TransactionType,
    pub amount: Option<Amount>,
}

/// Why a row is not a valid transaction.
#[derive(Copy, Clone, Debug, PartialEq, Eq, Structural)]
pub enum ConversionError {
    DepositWithoutAmount,
    WithdrawalWithoutAmount,
    DisputeWithAmount,
}

/// The transaction a row stands for: deposits and withdrawals carry an
/// amount, the three dispute kinds carry none.
pub open spec fn tx_of_row(row: TxRow) -> Result<Tx, ConversionError> {
    let operation = match row.amount {
        Some(a) => match row.row_type {
            TransactionType::Deposit => Ok(TxOperation::Deposit(a)),
            TransactionType::Withdrawal => Ok(TxOperation::Withdraw(a)),
            _ => Err(ConversionError::DisputeWithAmount),
        },
        None => match row.row_type {
            TransactionType::Deposit => Err(ConversionError::DepositWithoutAmount),
            TransactionType::Withdrawal => Err(ConversionError::WithdrawalWithoutAmount),
            TransactionType::Dispute => Ok(TxOperation::Dispute(DisputeState::Initiated)),
            TransactionType::Resolve => Ok(TxOperation::Dispute(DisputeState::Resolved)),
            TransactionType::ChargeBack => Ok(TxOperation::Dispute(DisputeState::ChargeBack)),
        },
    };
    match operation {
        Ok(op) => Ok(
            Tx { transaction_id: row.transaction_id, client_id: row.client_id, operation: op },
        ),
        Err(e) => Err(e),
    }
}

impl TryFrom<TxRow> for Tx {
    type Error = ConversionError;

    fn try_from(value: TxRow) -> (r: Result<Tx, ConversionError>)
        ensures
            r == tx_of_row(value),
    {
        let operation = match value.amount {
            Some(amount) => match value.row_type {
                TransactionType::Deposit => TxOperation::Deposit(amount),
                TransactionType::Withdrawal => TxOperation::Withdraw(amount),
                TransactionType::Dispute
                | TransactionType::Resolve
                | TransactionType::ChargeBack => {
                    return Err(ConversionError::DisputeWithAmount);
                },
            },
            None => match value.row_type {
                TransactionType::Deposit => return Err(ConversionError::DepositWithoutAmount),
                TransactionType::Withdrawal => {
                    return Err(ConversionError::WithdrawalWithoutAmount);
                },
                TransactionType::Dispute => TxOperation::Dispute(DisputeState::Initiated),
                TransactionType::Resolve => TxOperation::Dispute(DisputeState::Resolved),
                TransactionType::ChargeBack => TxOperation::Dispute(DisputeState::ChargeBack),
            },
        };
        Ok(Tx { transaction_id: value.transaction_id, client_id: value.client_id, operation })
    }
}

impl vstd::std_specs::convert::TryFromSpecImpl<TxRow> for Tx {
    open spec fn obeys_try_from_spec() -> bool {
        true
    }

    open spec fn try_from_spec(value: TxRow) -> Result<Tx, ConversionError> {
        tx_of_row(value)
    }
}

} // verus!
