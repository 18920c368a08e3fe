//! Records of account activity as the store keeps them.

use vstd::prelude::*;
use crate::amount::Amount;
use crate::ids::UserId;

verus! {

/// What kind of movement a transaction is.
#[derive(Clone, Copy, Debug, PartialEq, Eq, Structural)]
pub enum TransactionType {
    Deposit,
    Withdrawal,
    Transfer,
}

/// How far a transaction has come.
#[derive(Clone, Copy, Debug, PartialEq, Eq, Structural)]
pub enum TransactionStatus {
    Pending,
    Completed,
    Failed,
}

/// One movement on one account. Instants are seconds since the Unix epoch.
#[derive(Clone, Debug)]
pub struct Transaction {
    pub id: u128,
    pub user_id: UserId,
    pub amount: Amount,
    pub transaction_type: TransactionType,
    pub status: TransactionStatus,
    pub reference_id: Option<String>,
    pub description: Option<String>,
    pub created_at: i64,
    pub updated_at: i64,
}

} // verus!
