use account_ledger::amount::Amount;
use account_ledger::ids::UserId;
use account_ledger::records::{Transaction, TransactionStatus, TransactionType};
use account_ledger::user::{
    authorize_update, deposit, deposit_step, update_outcome, Deposit, DepositAction, DepositPhase, DepositReply,
    UpdateUser, UserError,
};

fn payment() -> Deposit {
    Deposit { email: "a@b.co".to_string(), full_name: "Ada".to_string(), amount: Amount::whole(25) }
}

#[test]
fn update_is_for_ones_own_account() {
    let update = UpdateUser { user_id: UserId::new(1), new_name: "Ada".to_string(), new_email: "a@b.co".to_string() };
    assert_eq!(authorize_update(UserId::new(1), &update), Ok(()));
    assert_eq!(authorize_update(UserId::new(2), &update), Err(UserError::Unauthorized));
    assert_eq!(update_outcome(true), Ok(()));
    assert_eq!(update_outcome(false), Err(UserError::UpdateFailed));
}

#[test]
fn deposit_runs_through() {
    let d = payment();
    let (phase, action) = deposit();
    assert_eq!(phase, DepositPhase::CallerEmail);
    assert_eq!(action, DepositAction::FindCallerEmail);
    let (phase, action) = deposit_step(&d, phase, DepositReply::Email("a@b.co".to_string()));
    assert_eq!(phase, DepositPhase::Account);
    assert_eq!(action, DepositAction::FindAccount);
    let (phase, action) = deposit_step(&d, phase, DepositReply::AccountFound(true));
    assert_eq!(phase, DepositPhase::Balance);
    assert_eq!(action, DepositAction::AddToBalance);
    let (phase, action) = deposit_step(&d, phase, DepositReply::NewBalance(Amount::whole(125)));
    assert_eq!(phase, DepositPhase::Done);
    assert_eq!(action, DepositAction::Finish(Ok(Amount::whole(125))));
}

#[test]
fn deposit_into_another_account_is_refused() {
    let d = payment();
    let (phase, action) = deposit_step(&d, DepositPhase::CallerEmail, DepositReply::Email("x@y.zz".to_string()));
    assert_eq!(phase, DepositPhase::Done);
    assert_eq!(action, DepositAction::Finish(Err(UserError::Unauthorized)));
    // Emails are compared as they are stored.
    let (_, action) = deposit_step(&d, DepositPhase::CallerEmail, DepositReply::Email("A@b.co".to_string()));
    assert_eq!(action, DepositAction::Finish(Err(UserError::Unauthorized)));
}

#[test]
fn deposit_fails_with_the_store() {
    let d = payment();
    let (_, action) = deposit_step(&d, DepositPhase::CallerEmail, DepositReply::Failed);
    assert_eq!(action, DepositAction::Finish(Err(UserError::AccountUnavailable)));
    let (_, action) = deposit_step(&d, DepositPhase::Account, DepositReply::Failed);
    assert_eq!(action, DepositAction::Finish(Err(UserError::AccountUnavailable)));
    let (_, action) = deposit_step(&d, DepositPhase::Account, DepositReply::AccountFound(false));
    assert_eq!(action, DepositAction::Finish(Err(UserError::AccountUnavailable)));
    let (_, action) = deposit_step(&d, DepositPhase::Balance, DepositReply::Failed);
    assert_eq!(action, DepositAction::Finish(Err(UserError::BalanceUpdateFailed)));
    let (phase, action) = deposit_step(&d, DepositPhase::Done, DepositReply::NewBalance(Amount::whole(1)));
    assert_eq!(phase, DepositPhase::Done);
    assert_eq!(action, DepositAction::Finish(Err(UserError::BalanceUpdateFailed)));
}

#[test]
fn user_error_messages() {
    assert_eq!(UserError::Unauthorized.message(), "Unauthorized");
    assert_eq!(UserError::AccountUnavailable.message(), "Failed to create user");
    assert_eq!(UserError::BalanceUpdateFailed.message(), "Failed to update user balance");
    assert_eq!(UserError::UpdateFailed.message(), "Failed to update user");
}

#[test]
fn transaction_records_hold_their_fields() {
    let t = Transaction {
        id: 1,
        user_id: UserId::new(2),
        amount: Amount::whole(5),
        transaction_type: TransactionType::Deposit,
        status: TransactionStatus::Pending,
        reference_id: None,
        description: Some("first".to_string()),
        created_at: 1_700_000_000,
        updated_at: 1_700_000_000,
    };
    let copy = t.clone();
    assert_eq!(copy.transaction_type, TransactionType::Deposit);
    assert_ne!(copy.transaction_type, TransactionType::Transfer);
    assert_ne!(TransactionType::Withdrawal, TransactionType::Transfer);
    assert_eq!(copy.status, TransactionStatus::Pending);
    assert_ne!(TransactionStatus::Completed, TransactionStatus::Failed);
    assert_eq!(copy.description, t.description);
}
