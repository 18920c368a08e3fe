//! What an account holder may do to their own account: change its details
//! and pay into it.
//!
//! As with the other flows, the store is asked one question at a time by the
//! caller of `deposit_step`, which decides what comes next.

use vstd::prelude::*;
use vstd::string::*;
use crate::amount::Amount;
use crate::ids::UserId;

verus! {

/// New details for an account.
#[derive(Clone, Debug, PartialEq, Eq)]
pub struct UpdateUser {
    pub user_id: UserId,
    pub new_name: String,
    pub new_email: String,
}

/// A payment into the account that has the email.
#[derive(Clone, Debug, PartialEq, Eq)]
pub struct Deposit {
    pub email: String,
    pub full_name: String,
    pub amount: Amount,
}

/// Why a request on an account was turned down.
#[derive(Clone, Copy, Debug, PartialEq, Eq, Structural)]
pub enum UserError {
    /// The request is for an account that is not the caller's.
    Unauthorized,
    /// The account could not be read.
    AccountUnavailable,
    /// The balance could not be changed.
    BalanceUpdateFailed,
    /// The details could not be changed.
    UpdateFailed,
}

/// The text a caller is shown for an error.
pub open spec fn user_error_text(e: UserError) -> Seq<char> {
    match e {
        UserError::Unauthorized => "Unauthorized"@,
        UserError::AccountUnavailable => "Failed to create user"@,
        UserError::BalanceUpdateFailed => "Failed to update user balance"@,
        UserError::UpdateFailed => "Failed to update user"@,
    }
}

impl UserError {
    /// The text a caller is shown.
    pub fn message(&self) -> (r: String)
        ensures
            r@ == user_error_text(*self),
    {
        match self {
            UserError::Unauthorized => "Unauthorized".to_owned(),
            UserError::AccountUnavailable => "Failed to create user".to_owned(),
            UserError::BalanceUpdateFailed => "Failed to update user balance".to_owned(),
            UserError::UpdateFailed => "Failed to update user".to_owned(),
        }
    }
}

/// Whether `caller` may apply `update`: only to their own account.
pub fn authorize_update(caller: UserId, update: &UpdateUser) -> (r: Result<(), UserError>)
    ensures
        r == if update.user_id == caller {
            Ok::<(), UserError>(())
        } else {
            Err::<(), UserError>(UserError::Unauthorized)
        },
{
    if update.user_id.value == caller.value {
        Ok(())
    } else {
        Err(UserError::Unauthorized)
    }
}

/// How an update ends, given whether the store applied it.
pub fn update_outcome(applied: bool) -> (r: Result<(), UserError>)
    ensures
        r == if applied {
            Ok::<(), UserError>(())
        } else {
            Err::<(), UserError>(UserError::UpdateFailed)
        },
{
    if applied {
        Ok(())
    } else {
        Err(UserError::UpdateFailed)
    }
}

/// Which answer a deposit waits on.
#[derive(Clone, Copy, Debug, PartialEq, Eq, Structural)]
pub enum DepositPhase {
    /// The email of the caller's account.
    CallerEmail,
    /// Whether the email of the deposit has an account.
    Account,
    /// The new balance.
    Balance,
    Done,
}

/// What a deposit does next: a question to the store about the deposit at
/// hand, or its end.
#[derive(Clone, Copy, Debug, PartialEq, Eq)]
pub enum DepositAction {
    /// Ask for the email of the caller's account.
    FindCallerEmail,
    /// Ask whether the email of the deposit has an account.
    FindAccount,
    /// Add the amount of the deposit to the balance of the account with its
    /// email, and ask for the new balance.
    AddToBalance,
    /// The deposit is over: with the new balance, or with an error.
    Finish(Result<Amount, UserError>),
}

/// What the store answers.
#[derive(Clone, Debug, PartialEq, Eq)]
pub enum DepositReply {
    /// The email asked for.
    Email(String),
    /// Whether there is such an account.
    AccountFound(bool),
    /// The balance after the change.
    NewBalance(Amount),
    /// The store failed.
    Failed,
}

/// The end of a deposit in failure.
pub open spec fn deposit_fails(e: UserError) -> (DepositPhase, DepositAction) {
    (DepositPhase::Done, DepositAction::Finish(Err(e)))
}

/// The deposit machine: from what a deposit waits on and what the store
/// answered to what it waits on next and what it does next. Only the holder
/// of the account with the deposit's email may pay into it. An answer that
/// does not fit the question counts as a failure of that question.
pub open spec fn deposit_next(deposit: Deposit, phase: DepositPhase, reply: DepositReply) -> (
    DepositPhase,
    DepositAction,
) {
    match phase {
        DepositPhase::CallerEmail => match reply {
            DepositReply::Email(email) => if email@ == deposit.email@ {
                (DepositPhase::Account, DepositAction::FindAccount)
            } else {
                deposit_fails(UserError::Unauthorized)
            },
            _ => deposit_fails(UserError::AccountUnavailable),
        },
        DepositPhase::Account => match reply {
            DepositReply::AccountFound(found) => if found {
                (DepositPhase::Balance, DepositAction::AddToBalance)
            } else {
                deposit_fails(UserError::AccountUnavailable)
            },
            _ => deposit_fails(UserError::AccountUnavailable),
        },
        DepositPhase::Balance => match reply {
            DepositReply::NewBalance(balance) => (DepositPhase::Done, DepositAction::Finish(Ok(balance))),
            _ => deposit_fails(UserError::BalanceUpdateFailed),
        },
        DepositPhase::Done => deposit_fails(UserError::BalanceUpdateFailed),
    }
}

/// Begins a deposit: asks for the email of the caller's account.
pub fn deposit() -> (r: (DepositPhase, DepositAction))
    ensures
        r == (DepositPhase::CallerEmail, DepositAction::FindCallerEmail),
{
    (DepositPhase::CallerEmail, DepositAction::FindCallerEmail)
}

/// The end of a deposit in failure.
fn deposit_failed(e: UserError) -> (r: (DepositPhase, DepositAction))
    ensures
        r == deposit_fails(e),
{
    (DepositPhase::Done, DepositAction::Finish(Err(e)))
}

/// Takes a deposit one step on.
pub fn deposit_step(deposit: &Deposit, phase: DepositPhase, reply: DepositReply) -> (r: (
    DepositPhase,
    DepositAction,
))
    ensures
        r == deposit_next(*deposit, phase, reply),
{
    match phase {
        DepositPhase::CallerEmail => match reply {
            DepositReply::Email(email) => if email == deposit.email {
                (DepositPhase::Account, DepositAction::FindAccount)
            } else {
                deposit_failed(UserError::Unauthorized)
            },
            _ => deposit_failed(UserError::AccountUnavailable),
        },
        DepositPhase::Account => match reply {
            DepositReply::AccountFound(found) => if found {
                (DepositPhase::Balance, DepositAction::AddToBalance)
            } else {
                deposit_failed(UserError::AccountUnavailable)
            },
            _ => deposit_failed(UserError::AccountUnavailable),
        },
        DepositPhase::Balance => match reply {
            DepositReply::NewBalance(balance) => (DepositPhase::Done, DepositAction::Finish(Ok(balance))),
            _ => deposit_failed(UserError::BalanceUpdateFailed),
        },
        DepositPhase::Done => deposit_failed(UserError::BalanceUpdateFailed),
    }
}

} // verus!
