use std::collections::HashMap;

use csvatm::{Account, Amount, DisputeState, TransactionId, Tx, TxError, TxOperation, TxRecord};

#[test]
fn test_processing() {
    // perform multiple transactions on a single account, check the state after each one
    let mut acc = Account::new(12);
    let mut store: HashMap<TransactionId, TxRecord> = Default::default();

    assert_eq!(acc.balance(), 0.into());
    acc.process(
        Tx {
            transaction_id: 1,
            client_id: 12,
            operation: TxOperation::Deposit(Amount::from(10)),
        },
        &mut store,
    )
    .expect("should succeed");

    //check balance
    assert_eq!(acc.balance(), Amount::from(10));

    //try to withdraw more than the avaiable amount
    let res = acc.process(
        Tx {
            transaction_id: 2,
            client_id: 12,
            operation: TxOperation::Withdraw(Amount::from(20)),
        },
        &mut store,
    );
    assert_eq!(res, Err(TxError::InsufficientFunds(2)));

    //try to withdraw lower amount
    acc.process(
        Tx {
            transaction_id: 3,
            client_id: 12,
            operation: TxOperation::Withdraw(Amount::from(5)),
        },
        &mut store,
    )
    .expect("witdhraw should succeed");
    assert_eq!(acc.balance(), Amount::from(5));
    assert_eq!(acc.total(), Amount::from(5));
    assert_eq!(acc.held(), Amount::from(0));

    //try to dispute transaction 2, which was not successful
    let res = acc.process(
        Tx {
            transaction_id: 2,
            client_id: 12,
            operation: TxOperation::Dispute(DisputeState::Initiated),
        },
        &mut store,
    );
    assert_eq!(res, Err(TxError::TransactionNotFound(2)));

    //try to dispute transaction 3
    acc.process(
        Tx {
            transaction_id: 3,
            client_id: 12,
            operation: TxOperation::Dispute(DisputeState::Initiated),
        },
        &mut store,
    )
    .expect("disput should be processed");

    assert_eq!(acc.balance(), Amount::from(0));
    assert_eq!(acc.held(), Amount::from(5));
    assert_eq!(acc.total(), Amount::from(5));

    //try to dispute transaction 3 again
    let res = acc.process(
        Tx {
            transaction_id: 3,
            client_id: 12,
            operation: TxOperation::Dispute(DisputeState::Initiated),
        },
        &mut store,
    );

    assert_eq!(
        res,
        Err(TxError::InvalidState(
            DisputeState::Initiated,
            Some(DisputeState::Initiated)
        ))
    );

    //try to resolve the dispute for transaction 3
    acc.process(
        Tx {
            transaction_id: 3,
            client_id: 12,
            operation: TxOperation::Dispute(DisputeState::Resolved),
        },
        &mut store,
    )
    .expect("resolve for transaction 3 should succeed");
    assert_eq!(acc.balance(), Amount::from(5));
    assert_eq!(acc.total(), Amount::from(5));
    assert_eq!(acc.held(), Amount::from(0));

    //try to resolve the dispute for transaction 3 again
    let res = acc.process(
        Tx {
            transaction_id: 3,
            client_id: 12,
            operation: TxOperation::Dispute(DisputeState::Resolved),
        },
        &mut store,
    );
    assert_eq!(
        res,
        Err(TxError::InvalidState(
            DisputeState::Resolved,
            Some(DisputeState::Resolved)
        ))
    );

    //try to perform dispure for transaction 1
    acc.process(
        Tx {
            transaction_id: 1,
            client_id: 12,
            operation: TxOperation::Dispute(DisputeState::Initiated),
        },
        &mut store,
    )
    .expect("dispute for the first transaction should be ok");
    assert_eq!(acc.balance(), Amount::from(-5));
    assert_eq!(acc.total(), Amount::from(5));
    assert_eq!(acc.held(), Amount::from(10));

    //try to charge back the dispute for transaction 1
    acc.process(
        Tx {
            transaction_id: 1,
            client_id: 12,
            operation: TxOperation::Dispute(DisputeState::ChargeBack),
        },
        &mut store,
    )
    .expect("chargeback for transaction 1 should succeed");
    assert_eq!(acc.balance(), Amount::from(-5));
    // the total may go negative after a chargeback: kept on purpose
    assert_eq!(acc.total(), Amount::from(-5));
    assert_eq!(acc.held(), Amount::from(0));
    assert!(acc.is_locked());

    //check if account when locked is really locked
    let res = acc.process(
        Tx {
            transaction_id: 1,
            client_id: 12,
            operation: TxOperation::Deposit(Amount::from(100)),
        },
        &mut store,
    );
    assert_eq!(res, Err(TxError::AccountLocked(12)));
    //accout amounts should stay the same
    assert_eq!(acc.balance(), Amount::from(-5));
    assert_eq!(acc.total(), Amount::from(-5));
    assert_eq!(acc.held(), Amount::from(0));

    //check the number of transactions, should be 2
    assert_eq!(store.len(), 2);
}
