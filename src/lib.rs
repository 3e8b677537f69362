//! A ledger of client accounts that applies deposits, withdrawals and the
//! dispute lifecycle in arrival order, with every transition proved against
//! an exact model.
pub mod account;
pub mod amount;
pub mod input;
pub mod laws;
pub mod ledger;
pub mod model;
pub mod output;
pub mod store;

pub use account::{Account, AccountState, TxError};
pub use amount::Amount;
pub use input::{ConversionError, TransactionType, TxRow};
pub use ledger::TransactionDB;
pub use model::{ClientId, DisputeState, TransactionId, Tx, TxOperation, TxRecord, TxRecordType};
pub use output::Record;
pub use store::{AccountStore, TransactionStore, TransactionStoreError};
