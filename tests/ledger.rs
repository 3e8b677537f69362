use std::collections::HashMap;

use csvatm::amount::MAX_UNITS;
use csvatm::{
    Account, Amount, ClientId, DisputeState, Record, TransactionDB, TransactionId,
    TransactionStoreError, Tx, TxError, TxOperation, TxRecord,
};
use rust_decimal::Decimal;

type Ledger = TransactionDB<HashMap<TransactionId, TxRecord>, HashMap<ClientId, Account>>;

fn ledger() -> Ledger {
    TransactionDB::new(HashMap::new(), HashMap::new())
}

fn tx(transaction_id: TransactionId, client_id: ClientId, operation: TxOperation) -> Tx {
    Tx { transaction_id, client_id, operation }
}

fn account_of(db: &Ledger, client_id: ClientId) -> Account {
    db.accounts()
        .into_iter()
        .find(|a| a.client() == client_id)
        .expect("account exists")
}

#[test]
fn end_to_end_dispute_lifecycle() {
    let mut acc = Account::new(7);
    let mut store: HashMap<TransactionId, TxRecord> = HashMap::new();
    assert_eq!(acc.total(), Amount::from(0));
    assert_eq!(acc.held(), Amount::from(0));

    let deposit = tx(1, 7, TxOperation::Deposit(Amount::from(10)));
    assert_eq!(acc.process(deposit, &mut store), Ok(()));
    assert_eq!(acc.balance(), Amount::from(10));

    let too_much = tx(2, 7, TxOperation::Withdraw(Amount::from(20)));
    assert_eq!(acc.process(too_much, &mut store), Err(TxError::InsufficientFunds(2)));
    assert_eq!(acc.balance(), Amount::from(10));

    let withdraw = tx(3, 7, TxOperation::Withdraw(Amount::from(5)));
    assert_eq!(acc.process(withdraw, &mut store), Ok(()));
    assert_eq!(acc.balance(), Amount::from(5));

    let open3 = tx(3, 7, TxOperation::Dispute(DisputeState::Initiated));
    assert_eq!(acc.process(open3, &mut store), Ok(()));
    assert_eq!(acc.held(), Amount::from(5));
    assert_eq!(acc.balance(), Amount::from(0));

    let resolve3 = tx(3, 7, TxOperation::Dispute(DisputeState::Resolved));
    assert_eq!(acc.process(resolve3, &mut store), Ok(()));
    assert_eq!(acc.held(), Amount::from(0));
    assert_eq!(acc.balance(), Amount::from(5));

    let open1 = tx(1, 7, TxOperation::Dispute(DisputeState::Initiated));
    assert_eq!(acc.process(open1, &mut store), Ok(()));
    assert_eq!(acc.held(), Amount::from(10));
    assert_eq!(acc.balance(), Amount::from(-5));

    let charge1 = tx(1, 7, TxOperation::Dispute(DisputeState::ChargeBack));
    assert_eq!(acc.process(charge1, &mut store), Ok(()));
    assert_eq!(acc.total(), Amount::from(-5));
    assert_eq!(acc.held(), Amount::from(0));
    assert_eq!(acc.balance(), Amount::from(-5));
    assert!(acc.is_locked());

    let late = tx(4, 7, TxOperation::Deposit(Amount::from(1)));
    assert_eq!(acc.process(late, &mut store), Err(TxError::AccountLocked(7)));
    assert_eq!(acc.total(), Amount::from(-5));
    assert_eq!(acc.held(), Amount::from(0));
    assert_eq!(store.len(), 2);
    assert!(store.contains_key(&1));
    assert!(store.contains_key(&3));
}

#[test]
fn ledger_creates_account_on_first_sight() {
    let mut db = ledger();
    let res = db.add(tx(1, 3, TxOperation::Withdraw(Amount::from(1))));
    assert_eq!(res, Err(TxError::InsufficientFunds(1)));
    let acc = account_of(&db, 3);
    assert_eq!(acc.total(), Amount::from(0));
    assert!(!acc.is_locked());
    assert_eq!(db.accounts().len(), 1);
}

#[test]
fn ledger_routes_by_client() {
    let mut db = ledger();
    assert_eq!(db.add(tx(1, 1, TxOperation::Deposit(Amount::from(4)))), Ok(()));
    assert_eq!(db.add(tx(2, 2, TxOperation::Deposit(Amount::from(9)))), Ok(()));
    assert_eq!(db.add(tx(3, 1, TxOperation::Deposit(Amount::from(1)))), Ok(()));
    assert_eq!(account_of(&db, 1).total(), Amount::from(5));
    assert_eq!(account_of(&db, 2).total(), Amount::from(9));
    assert_eq!(db.accounts().len(), 2);
}

#[test]
fn dispute_of_other_clients_transaction_is_refused() {
    let mut db = ledger();
    assert_eq!(db.add(tx(1, 1, TxOperation::Deposit(Amount::from(4)))), Ok(()));
    let res = db.add(tx(1, 2, TxOperation::Dispute(DisputeState::Initiated)));
    assert_eq!(
        res,
        Err(TxError::IntegrityError(TransactionStoreError::ClientMismatch(1, 2)))
    );
    assert_eq!(account_of(&db, 1).held(), Amount::from(0));
    assert_eq!(account_of(&db, 2).held(), Amount::from(0));
    // the record is still open to its owner
    assert_eq!(db.add(tx(1, 1, TxOperation::Dispute(DisputeState::Initiated))), Ok(()));
    assert_eq!(account_of(&db, 1).held(), Amount::from(4));
}

#[test]
fn duplicate_transaction_id_is_refused() {
    let mut db = ledger();
    assert_eq!(db.add(tx(5, 1, TxOperation::Deposit(Amount::from(4)))), Ok(()));
    let dup = Err(TxError::IntegrityError(TransactionStoreError::TransactionAlreadyExists(5)));
    assert_eq!(db.add(tx(5, 1, TxOperation::Deposit(Amount::from(6)))), dup);
    assert_eq!(db.add(tx(5, 1, TxOperation::Withdraw(Amount::from(1)))), dup);
    assert_eq!(db.add(tx(5, 2, TxOperation::Deposit(Amount::from(6)))), dup);
    assert_eq!(account_of(&db, 1).total(), Amount::from(4));
    assert_eq!(account_of(&db, 2).total(), Amount::from(0));
}

#[test]
fn invalid_dispute_transitions_are_refused() {
    let mut acc = Account::new(1);
    let mut store: HashMap<TransactionId, TxRecord> = HashMap::new();
    acc.process(tx(1, 1, TxOperation::Deposit(Amount::from(3))), &mut store).unwrap();

    let resolve = tx(1, 1, TxOperation::Dispute(DisputeState::Resolved));
    assert_eq!(
        acc.process(resolve, &mut store),
        Err(TxError::InvalidState(DisputeState::Resolved, None))
    );
    let charge = tx(1, 1, TxOperation::Dispute(DisputeState::ChargeBack));
    assert_eq!(
        acc.process(charge, &mut store),
        Err(TxError::InvalidState(DisputeState::ChargeBack, None))
    );
    assert_eq!(acc.held(), Amount::from(0));

    acc.process(tx(1, 1, TxOperation::Dispute(DisputeState::Initiated)), &mut store).unwrap();
    acc.process(tx(1, 1, TxOperation::Dispute(DisputeState::Resolved)), &mut store).unwrap();
    assert_eq!(
        acc.process(charge, &mut store),
        Err(TxError::InvalidState(DisputeState::ChargeBack, Some(DisputeState::Resolved)))
    );
    let reopen = tx(1, 1, TxOperation::Dispute(DisputeState::Initiated));
    assert_eq!(
        acc.process(reopen, &mut store),
        Err(TxError::InvalidState(DisputeState::Initiated, Some(DisputeState::Resolved)))
    );
    assert_eq!(acc.held(), Amount::from(0));
    assert_eq!(acc.total(), Amount::from(3));
    assert_eq!(store[&1].dispute, Some(DisputeState::Resolved));
}

#[test]
fn dispute_of_unknown_transaction_is_not_found() {
    let mut acc = Account::new(1);
    let mut store: HashMap<TransactionId, TxRecord> = HashMap::new();
    for state in [DisputeState::Initiated, DisputeState::Resolved, DisputeState::ChargeBack] {
        let res = acc.process(tx(9, 1, TxOperation::Dispute(state)), &mut store);
        assert_eq!(res, Err(TxError::TransactionNotFound(9)));
    }
    assert_eq!(acc.held(), Amount::from(0));
    assert_eq!(acc.total(), Amount::from(0));
    assert!(store.is_empty());
}

#[test]
fn transfers_keep_total_equal_to_held_plus_balance() {
    let mut acc = Account::new(2);
    let mut store: HashMap<TransactionId, TxRecord> = HashMap::new();
    let ops = [
        TxOperation::Deposit(Amount::from_units(12345)),
        TxOperation::Withdraw(Amount::from_units(2345)),
        TxOperation::Withdraw(Amount::from_units(99999)),
        TxOperation::Deposit(Amount::from(3)),
        TxOperation::Withdraw(Amount::from_units(1)),
    ];
    for (i, op) in ops.iter().enumerate() {
        let _ = acc.process(tx(i as TransactionId, 2, *op), &mut store);
        assert_eq!(acc.total().units, acc.held().units + acc.balance().units);
        assert_eq!(acc.held(), Amount::from(0));
    }
    assert_eq!(acc.total(), Amount::from_units(39999));
}

#[test]
fn dispute_then_resolve_restores_held() {
    let mut acc = Account::new(4);
    let mut store: HashMap<TransactionId, TxRecord> = HashMap::new();
    acc.process(tx(1, 4, TxOperation::Deposit(Amount::from_units(25000))), &mut store).unwrap();
    acc.process(tx(2, 4, TxOperation::Deposit(Amount::from_units(5))), &mut store).unwrap();
    acc.process(tx(2, 4, TxOperation::Dispute(DisputeState::Initiated)), &mut store).unwrap();
    let held = acc.held();
    acc.process(tx(1, 4, TxOperation::Dispute(DisputeState::Initiated)), &mut store).unwrap();
    assert_eq!(acc.held().units, held.units + 25000);
    assert_eq!(acc.total(), Amount::from_units(25005));
    acc.process(tx(1, 4, TxOperation::Dispute(DisputeState::Resolved)), &mut store).unwrap();
    assert_eq!(acc.held(), held);
    assert_eq!(acc.total(), Amount::from_units(25005));
}

#[test]
fn chargeback_of_withdrawal_locks_account() {
    let mut acc = Account::new(6);
    let mut store: HashMap<TransactionId, TxRecord> = HashMap::new();
    acc.process(tx(1, 6, TxOperation::Deposit(Amount::from(10))), &mut store).unwrap();
    acc.process(tx(2, 6, TxOperation::Withdraw(Amount::from(4))), &mut store).unwrap();
    acc.process(tx(2, 6, TxOperation::Dispute(DisputeState::Initiated)), &mut store).unwrap();
    acc.process(tx(2, 6, TxOperation::Dispute(DisputeState::ChargeBack)), &mut store).unwrap();
    assert_eq!(acc.total(), Amount::from(2));
    assert_eq!(acc.held(), Amount::from(0));
    assert!(acc.is_locked());
    for op in [
        TxOperation::Withdraw(Amount::from(1)),
        TxOperation::Dispute(DisputeState::Initiated),
        TxOperation::Dispute(DisputeState::Resolved),
    ] {
        assert_eq!(acc.process(tx(1, 6, op), &mut store), Err(TxError::AccountLocked(6)));
    }
    assert_eq!(acc.total(), Amount::from(2));
    assert_eq!(store.len(), 2);
}

#[test]
fn amounts_beyond_range_are_refused() {
    let mut acc = Account::new(1);
    let mut store: HashMap<TransactionId, TxRecord> = HashMap::new();
    let max = Amount::from_units(MAX_UNITS);
    assert_eq!(acc.process(tx(1, 1, TxOperation::Deposit(max)), &mut store), Ok(()));
    let one = Amount::from_units(1);
    assert_eq!(
        acc.process(tx(2, 1, TxOperation::Deposit(one)), &mut store),
        Err(TxError::AmountOutOfRange(2))
    );
    assert_eq!(acc.total(), max);
    assert_eq!(store.len(), 1);
}

#[test]
fn record_reports_account() {
    let mut acc = Account::new(8);
    let mut store: HashMap<TransactionId, TxRecord> = HashMap::new();
    acc.process(tx(1, 8, TxOperation::Deposit(Amount::from(7))), &mut store).unwrap();
    acc.process(tx(1, 8, TxOperation::Dispute(DisputeState::Initiated)), &mut store).unwrap();
    let rec = Record::from_account(&acc);
    assert_eq!(rec.client_id, 8);
    assert_eq!(rec.balance, Amount::from(0));
    assert_eq!(rec.held, Amount::from(7));
    assert_eq!(rec.total, Amount::from(7));
    assert!(!rec.locked);
}

#[test]
fn amount_from_parts_is_exact() {
    assert_eq!(Amount::from_parts(12345, 4), Some(Amount::from_units(12345)));
    assert_eq!(Amount::from_parts(15, 1), Some(Amount::from_units(15000)));
    assert_eq!(Amount::from_parts(-7, 0), Some(Amount::from(-7)));
    assert_eq!(Amount::from_parts(-123450, 5), Some(Amount::from_units(-12345)));
    assert_eq!(Amount::from_parts(-12345, 5), None);
    assert_eq!(Amount::from_parts(0, 60), Some(Amount::from_units(0)));
    assert_eq!(Amount::from_parts(5, 60), None);
    assert_eq!(Amount::from_parts(i128::MAX, 0), None);
}

#[test]
fn amount_decimal_round_trip() {
    let d = Decimal::new(15, 1);
    assert_eq!(Amount::from_decimal(&d), Some(Amount::from_units(15000)));
    assert_eq!(Amount::from_decimal(&Decimal::new(-123456, 5)), None);
    let shown = Amount::from_units(15000).to_decimal().unwrap();
    assert_eq!(shown.to_string(), "1.5000");
    assert_eq!(shown.scale(), 4);
    let negative = Amount::from(-5).to_decimal().unwrap();
    assert_eq!(negative.to_string(), "-5.0000");
    assert_eq!(Amount::from_units(MAX_UNITS + 1).to_decimal(), None);
}

#[test]
fn accounts_lists_each_client_once() {
    let mut db = ledger();
    for (id, client) in [(1, 1), (2, 2), (3, 3), (4, 2)] {
        assert_eq!(db.add(tx(id, client, TxOperation::Deposit(Amount::from(1)))), Ok(()));
    }
    let mut clients: Vec<ClientId> = db.accounts().iter().map(|a| a.client()).collect();
    clients.sort();
    assert_eq!(clients, vec![1, 2, 3]);
    assert_eq!(account_of(&db, 2).total(), Amount::from(2));
}

#[test]
fn decimal_conversion_keeps_mantissa() {
    let d = Amount::from_units(-123456).to_decimal().unwrap();
    assert_eq!(d.mantissa(), -123456);
    assert_eq!(d.scale(), 4);
    assert_eq!(Amount::from_decimal(&Decimal::new(-123456, 4)), Some(Amount::from_units(-123456)));
    assert_eq!(Amount::from_decimal(&Decimal::new(7, 2)), Some(Amount::from_units(700)));
}
