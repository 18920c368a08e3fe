//! The transfer engine: who may move funds, the statements a transfer puts
//! to the ledger inside one transaction, and who may see a transfer.
//!
//! The engine holds no connection and no balances. Its caller puts each
//! `LedgerAction` to the store inside one transaction, hands the
//! `LedgerReply` back to `transfer_step`, and stops at
//! `LedgerAction::Finish`. A transaction that is open when the engine
//! finishes in failure is rolled back by the caller.

use vstd::prelude::*;
use crate::amount::Amount;
use crate::ids::{TransferId, UserId};

verus! {

/// A request to move funds.
#[derive(Clone, Debug, PartialEq, Eq)]
pub struct Transfer {
    pub sender_id: UserId,
    pub receiver_id: UserId,
    pub amount: Amount,
    pub description: Option<String>,
}

/// A committed transfer as the ledger keeps it. Once written it does not
/// change.
#[derive(Clone, Debug, PartialEq, Eq)]
pub struct TransferRecord {
    pub id: TransferId,
    pub sender_id: UserId,
    pub receiver_id: UserId,
    pub amount: Amount,
    pub description: Option<String>,
    /// Seconds since the Unix epoch.
    pub created_at: i64,
}

/// Why the engine turned a request down.
#[derive(Clone, Copy, Debug, PartialEq, Eq, Structural)]
pub enum TransferError {
    /// The caller is not the sender.
    Unauthorized,
    /// The store failed; nothing of the transfer was kept.
    Failed,
    /// There is no such transfer that the caller is party to.
    NotFound,
}

/// The text a caller is shown for an error.
pub open spec fn transfer_error_text(e: TransferError) -> Seq<char> {
    match e {
        TransferError::Unauthorized => "Invalid token"@,
        TransferError::Failed => "Failed to transfer amount"@,
        TransferError::NotFound => "Failed to retrieve transaction"@,
    }
}

impl TransferError {
    /// The text a caller is shown.
    pub fn message(&self) -> (r: String)
        ensures
            r@ == transfer_error_text(*self),
    {
        match self {
            TransferError::Unauthorized => "Invalid token".to_owned(),
            TransferError::Failed => "Failed to transfer amount".to_owned(),
            TransferError::NotFound => "Failed to retrieve transaction".to_owned(),
        }
    }
}

/// Which statement of a transfer the engine waits on.
#[derive(Clone, Copy, Debug, PartialEq, Eq, Structural)]
pub enum Phase {
    Begin,
    Debit,
    Credit,
    Record,
    Commit,
    Done,
}

/// Where a transfer stands between two statements.
#[derive(Clone, Debug, PartialEq, Eq)]
pub struct TransferState {
    pub phase: Phase,
    pub sender: UserId,
    pub receiver: UserId,
    pub amount: Amount,
    /// The text that goes into the record, until the record is put.
    pub description: Option<String>,
    /// Whether every statement so far succeeded.
    pub healthy: bool,
    /// The id of the record, once it is written.
    pub recorded: Option<TransferId>,
}

/// What the engine does next: a statement for the ledger, or its end.
#[derive(Debug, PartialEq, Eq)]
pub enum LedgerAction {
    /// Open a transaction.
    Begin,
    /// Take `amount` from the balance of `account`.
    Debit { account: UserId, amount: Amount },
    /// Add `amount` to the balance of `account`.
    Credit { account: UserId, amount: Amount },
    /// Write the record of the transfer, with the text of the request.
    Record { sender: UserId, receiver: UserId, amount: Amount, description: Option<String> },
    /// Commit the transaction.
    Commit,
    /// The transfer is over, with this outcome. On an error nothing may
    /// stay of it: a transaction that is open is rolled back.
    Finish(Result<TransferId, TransferError>),
}

/// What the ledger answers to a statement.
#[derive(Clone, Copy, Debug, PartialEq, Eq, Structural)]
pub enum LedgerReply {
    /// The statement succeeded.
    Done,
    /// The record was written under this id.
    Recorded(TransferId),
    /// The statement failed.
    Failed,
}

/// A transfer that is over.
pub open spec fn finished(state: TransferState) -> TransferState {
    TransferState { phase: Phase::Done, ..state }
}

/// How a transfer begins. A caller may move funds out of their own account
/// only: for anyone else the transfer ends before the ledger is touched.
pub open spec fn transfer_start(
    caller: UserId,
    sender: UserId,
    receiver: UserId,
    amount: Amount,
    description: Option<String>,
) -> (TransferState, LedgerAction) {
    let state = TransferState {
        phase: Phase::Begin,
        sender,
        receiver,
        amount,
        description,
        healthy: true,
        recorded: None,
    };
    if caller != sender {
        (finished(state), LedgerAction::Finish(Err(TransferError::Unauthorized)))
    } else {
        (state, LedgerAction::Begin)
    }
}

/// The engine: from where a transfer stands and what the ledger answered to
/// where it stands next and what it does next.
///
/// Once the transaction is open, the debit, the credit and the record are
/// put to the ledger in this order, whatever the earlier ones answered. The
/// record takes the text of the request with it. The transaction is
/// committed only if all three succeeded, and the transfer succeeds only if
/// the commit did.
pub open spec fn transfer_next(state: TransferState, reply: LedgerReply) -> (TransferState, LedgerAction) {
    match state.phase {
        Phase::Begin => if reply == LedgerReply::Done {
            (
                TransferState { phase: Phase::Debit, ..state },
                LedgerAction::Debit { account: state.sender, amount: state.amount },
            )
        } else {
            (finished(state), LedgerAction::Finish(Err(TransferError::Failed)))
        },
        Phase::Debit => (
            TransferState { phase: Phase::Credit, healthy: state.healthy && reply == LedgerReply::Done, ..state },
            LedgerAction::Credit { account: state.receiver, amount: state.amount },
        ),
        Phase::Credit => (
            TransferState {
                phase: Phase::Record,
                healthy: state.healthy && reply == LedgerReply::Done,
                description: None,
                ..state
            },
            LedgerAction::Record {
                sender: state.sender,
                receiver: state.receiver,
                amount: state.amount,
                description: state.description,
            },
        ),
        Phase::Record => match reply {
            LedgerReply::Recorded(id) => if state.healthy {
                (TransferState { phase: Phase::Commit, recorded: Some(id), ..state }, LedgerAction::Commit)
            } else {
                (finished(state), LedgerAction::Finish(Err(TransferError::Failed)))
            },
            _ => (finished(state), LedgerAction::Finish(Err(TransferError::Failed))),
        },
        Phase::Commit => match (reply, state.recorded) {
            (LedgerReply::Done, Some(id)) => (finished(state), LedgerAction::Finish(Ok(id))),
            _ => (finished(state), LedgerAction::Finish(Err(TransferError::Failed))),
        },
        Phase::Done => (state, LedgerAction::Finish(Err(TransferError::Failed))),
    }
}

/// The most statements a transfer still puts to the ledger from `phase`.
pub open spec fn statements_left(phase: Phase) -> nat {
    match phase {
        Phase::Begin => 5,
        Phase::Debit => 4,
        Phase::Credit => 3,
        Phase::Record => 2,
        Phase::Commit => 1,
        Phase::Done => 0,
    }
}

/// Every step brings a transfer nearer to its end, whatever the ledger
/// answers: a step either finishes the transfer, and then it stands at
/// `Done`, or leaves it fewer statements to put. A step changes neither the
/// parties nor the amount, the record is put with the text that the state
/// held, and a transfer succeeds only with the id under which its record was
/// written.
pub proof fn every_step_brings_the_end_nearer(state: TransferState, reply: LedgerReply)
    ensures
        ({
            let (state_after, action) = transfer_next(state, reply);
            &&& state_after.sender == state.sender
            &&& state_after.receiver == state.receiver
            &&& state_after.amount == state.amount
            &&& if action is Finish {
                state_after.phase == Phase::Done
            } else {
                0 < statements_left(state_after.phase) < statements_left(state.phase)
            }
            &&& action matches LedgerAction::Finish(Ok(id)) ==> state.phase == Phase::Commit && state.recorded
                == Some(id)
            &&& action matches LedgerAction::Record { description, .. } ==> description == state.description
            &&& !(action is Record) && !(action is Finish) ==> state_after.description == state.description
        }),
{
}

/// Whether `caller` is the sender or the receiver.
pub open spec fn is_party(caller: UserId, sender: UserId, receiver: UserId) -> bool {
    caller == sender || caller == receiver
}

/// Whether `caller` may see `record`.
pub open spec fn visible_to(caller: UserId, record: TransferRecord) -> bool {
    is_party(caller, record.sender_id, record.receiver_id)
}

/// Begins a transfer on behalf of `caller`.
pub fn transfer(caller: UserId, request: &Transfer) -> (r: (TransferState, LedgerAction))
    ensures
        r == transfer_start(
            caller,
            request.sender_id,
            request.receiver_id,
            request.amount,
            request.description,
        ),
        caller != request.sender_id ==> r.1 == LedgerAction::Finish(Err(TransferError::Unauthorized)),
{
    let description = match &request.description {
        Some(text) => Some(text.clone()),
        None => None,
    };
    let phase = if caller.value != request.sender_id.value {
        Phase::Done
    } else {
        Phase::Begin
    };
    let state = TransferState {
        phase,
        sender: request.sender_id,
        receiver: request.receiver_id,
        amount: request.amount,
        description,
        healthy: true,
        recorded: None,
    };
    if caller.value != request.sender_id.value {
        (state, LedgerAction::Finish(Err(TransferError::Unauthorized)))
    } else {
        (state, LedgerAction::Begin)
    }
}

/// The state with another phase.
fn at_phase(state: TransferState, phase: Phase) -> (r: TransferState)
    ensures
        r == (TransferState { phase, ..state }),
{
    TransferState { phase, ..state }
}

/// The end of a transfer in failure.
fn failed(state: TransferState) -> (r: (TransferState, LedgerAction))
    ensures
        r == (finished(state), LedgerAction::Finish(Err(TransferError::Failed))),
{
    (at_phase(state, Phase::Done), LedgerAction::Finish(Err(TransferError::Failed)))
}

/// Whether a statement succeeded.
fn succeeded(reply: LedgerReply) -> (r: bool)
    ensures
        r == (reply == LedgerReply::Done),
{
    match reply {
        LedgerReply::Done => true,
        _ => false,
    }
}

/// Takes a transfer one step on.
pub fn transfer_step(state: TransferState, reply: LedgerReply) -> (r: (TransferState, LedgerAction))
    ensures
        r == transfer_next(state, reply),
{
    let sender = state.sender;
    let receiver = state.receiver;
    let amount = state.amount;
    match state.phase {
        Phase::Begin => if succeeded(reply) {
            (at_phase(state, Phase::Debit), LedgerAction::Debit { account: sender, amount })
        } else {
            failed(state)
        },
        Phase::Debit => {
            let healthy = state.healthy && succeeded(reply);
            (
                TransferState { phase: Phase::Credit, healthy, ..state },
                LedgerAction::Credit { account: receiver, amount },
            )
        },
        Phase::Credit => {
            let healthy = state.healthy && succeeded(reply);
            let recorded = state.recorded;
            let description = state.description;
            (
                TransferState {
                    phase: Phase::Record,
                    sender,
                    receiver,
                    amount,
                    description: None,
                    healthy,
                    recorded,
                },
                LedgerAction::Record { sender, receiver, amount, description },
            )
        },
        Phase::Record => match reply {
            LedgerReply::Recorded(id) => if state.healthy {
                (TransferState { phase: Phase::Commit, recorded: Some(id), ..state }, LedgerAction::Commit)
            } else {
                failed(state)
            },
            _ => failed(state),
        },
        Phase::Commit => match (reply, state.recorded) {
            (LedgerReply::Done, Some(id)) => (at_phase(state, Phase::Done), LedgerAction::Finish(Ok(id))),
            _ => failed(state),
        },
        Phase::Done => (state, LedgerAction::Finish(Err(TransferError::Failed))),
    }
}

/// Tells whether `caller` is party to `record`.
pub fn party_to(caller: UserId, record: &TransferRecord) -> (r: bool)
    ensures
        r == visible_to(caller, *record),
{
    caller.value == record.sender_id.value || caller.value == record.receiver_id.value
}

/// Hands out the transfer with the id asked for, given what the ledger holds
/// under that id, to a caller who is party to it. To anyone else it is as if
/// there were no such transfer.
pub fn get_transfer(caller: UserId, transfer_id: TransferId, found: Option<TransferRecord>) -> (r: Result<
    TransferRecord,
    TransferError,
>)
    ensures
        r == match found {
            Some(record) => if record.id == transfer_id && visible_to(caller, record) {
                Ok::<TransferRecord, TransferError>(record)
            } else {
                Err::<TransferRecord, TransferError>(TransferError::NotFound)
            },
            None => Err::<TransferRecord, TransferError>(TransferError::NotFound),
        },
{
    match found {
        Some(record) => if record.id.value == transfer_id.value && party_to(caller, &record) {
            Ok(record)
        } else {
            Err(TransferError::NotFound)
        },
        None => Err(TransferError::NotFound),
    }
}

/// Picks out of `rows`, in their order, the transfers that `caller` is party
/// to.
pub fn list_transfers(caller: UserId, rows: Vec<TransferRecord>) -> (r: Vec<TransferRecord>)
    ensures
        r@ == rows@.filter(|record: TransferRecord| visible_to(caller, record)),
{
    let ghost all = rows@;
    let mut rows = rows;
    let mut held_back: Vec<TransferRecord> = Vec::new();
    while rows.len() > 0
        invariant
            rows@.len() + held_back@.len() == all.len(),
            rows@ == all.subrange(0, rows@.len() as int),
            forall|i: int| 0 <= i < held_back@.len() ==> held_back@[i] == all[all.len() - 1 - i],
        decreases rows@.len(),
    {
        let record = rows.pop().unwrap();
        held_back.push(record);
    }
    let mut picked: Vec<TransferRecord> = Vec::new();
    while held_back.len() > 0
        invariant
            held_back@.len() <= all.len(),
            forall|i: int| 0 <= i < held_back@.len() ==> held_back@[i] == all[all.len() - 1 - i],
            picked@ == all.subrange(0, all.len() - held_back@.len()).filter(
                |record: TransferRecord| visible_to(caller, record),
            ),
        decreases held_back@.len(),
    {
        let ghost done = all.subrange(0, all.len() - held_back@.len());
        let record = held_back.pop().unwrap();
        proof {
            let keep = |record: TransferRecord| visible_to(caller, record);
            let next = all.subrange(0, all.len() - held_back@.len());
            assert(record == all[done.len() as int]);
            assert(next == done.push(record));
            assert(next.drop_last() == done);
            reveal(Seq::filter);
            assert(next.filter(keep) == if keep(record) {
                done.filter(keep).push(record)
            } else {
                done.filter(keep)
            });
        }
        if party_to(caller, &record) {
            picked.push(record);
        }
    }
    proof {
        assert(all.subrange(0, all.len() as int) == all);
    }
    picked
}

} // verus!
