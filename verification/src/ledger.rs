//! A model of the ledger and of its transactions, and what holds of a
//! transfer that the engine runs against a ledger that behaves like it.
//!
//! The ledger itself is not part of this library. The model says what a
//! transactional store does with each statement of a transfer, where any
//! statement may fail, so that whole transfers can be reasoned about.

use vstd::prelude::*;
use crate::amount::Amount;
use crate::auth::text_view;
use crate::ids::{TransferId, UserId};
use crate::transfer::{
    transfer_next, transfer_start, visible_to, LedgerAction, LedgerReply, Transfer, TransferError,
    TransferRecord, TransferState,
};

verus! {

/// A transfer as the ledger keeps it, its amount in the smallest unit.
pub ghost struct TransferRow {
    pub id: TransferId,
    pub sender: UserId,
    pub receiver: UserId,
    pub units: int,
    pub description: Option<Seq<char>>,
}

/// The row that a record is handed out from.
pub open spec fn row_of(record: TransferRecord) -> TransferRow {
    TransferRow {
        id: record.id,
        sender: record.sender_id,
        receiver: record.receiver_id,
        units: record.amount.units(),
        description: text_view(record.description),
    }
}

/// What the ledger holds: the balance of each account, in the smallest
/// unit, and the transfers in the order they were written.
pub ghost struct Ledger {
    pub balances: Map<UserId, int>,
    pub transfers: Seq<TransferRow>,
}

impl Ledger {
    /// The ledger with `by` added to the balance of `account`. An account
    /// that the ledger does not hold is not made up.
    pub open spec fn adjust(self, account: UserId, by: int) -> Ledger {
        if self.balances.contains_key(account) {
            Ledger { balances: self.balances.insert(account, self.balances[account] + by), ..self }
        } else {
            self
        }
    }

    /// The ledger with `amount` taken from the balance of `account`.
    pub open spec fn debit(self, account: UserId, amount: Amount) -> Ledger {
        self.adjust(account, -amount.units())
    }

    /// The ledger with `amount` added to the balance of `account`.
    pub open spec fn credit(self, account: UserId, amount: Amount) -> Ledger {
        self.adjust(account, amount.units())
    }

    /// The ledger with one more transfer written.
    pub open spec fn record(
        self,
        id: TransferId,
        sender: UserId,
        receiver: UserId,
        amount: Amount,
        description: Option<Seq<char>>,
    ) -> Ledger {
        Ledger {
            transfers: self.transfers.push(
                TransferRow { id, sender, receiver, units: amount.units(), description },
            ),
            ..self
        }
    }

    /// The ledger after a whole transfer: debit, credit and record.
    pub open spec fn with_transfer(
        self,
        id: TransferId,
        sender: UserId,
        receiver: UserId,
        amount: Amount,
        description: Option<Seq<char>>,
    ) -> Ledger {
        self.debit(sender, amount).credit(receiver, amount).record(id, sender, receiver, amount, description)
    }
}

/// A ledger as one connection sees it: what is committed, and what the
/// transaction that is open, if any, has made of it so far.
pub ghost struct Session {
    /// What every reader sees.
    pub committed: Ledger,
    /// What the open transaction sees.
    pub open: Option<Ledger>,
    /// Whether a statement of the open transaction has failed. Nothing
    /// succeeds in it from then on.
    pub broken: bool,
}

impl Session {
    /// A connection with no transaction open.
    pub open spec fn idle(ledger: Ledger) -> Session {
        Session { committed: ledger, open: None, broken: false }
    }

    /// Whether a statement can succeed: a transaction is open and none of
    /// its statements has failed.
    pub open spec fn usable(self) -> bool {
        self.open is Some && !self.broken
    }

    /// The session after a statement that failed.
    pub open spec fn after_failure(self) -> Session {
        Session { broken: true, ..self }
    }

    /// The session with the open transaction given up.
    pub open spec fn rolled_back(self) -> Session {
        Session { open: None, broken: false, ..self }
    }

    /// What the ledger does with a statement and what it answers. `ok` says
    /// whether the store lets the statement succeed: any statement may fail.
    /// `new_id` is the id the ledger gives to a record that it writes.
    pub open spec fn answer(self, action: LedgerAction, ok: bool, new_id: TransferId) -> (Session, LedgerReply) {
        match action {
            LedgerAction::Begin => if ok {
                (Session { open: Some(self.committed), broken: false, ..self }, LedgerReply::Done)
            } else {
                (self, LedgerReply::Failed)
            },
            LedgerAction::Debit { account, amount } => if ok && self.usable() {
                (Session { open: Some(self.open->0.debit(account, amount)), ..self }, LedgerReply::Done)
            } else {
                (self.after_failure(), LedgerReply::Failed)
            },
            LedgerAction::Credit { account, amount } => if ok && self.usable() {
                (Session { open: Some(self.open->0.credit(account, amount)), ..self }, LedgerReply::Done)
            } else {
                (self.after_failure(), LedgerReply::Failed)
            },
            LedgerAction::Record { sender, receiver, amount, description } => if ok && self.usable() {
                (
                    Session {
                        open: Some(
                            self.open->0.record(new_id, sender, receiver, amount, text_view(description)),
                        ),
                        ..self
                    },
                    LedgerReply::Recorded(new_id),
                )
            } else {
                (self.after_failure(), LedgerReply::Failed)
            },
            LedgerAction::Commit => if ok && self.usable() {
                (Session::idle(self.open->0), LedgerReply::Done)
            } else {
                (self.rolled_back(), LedgerReply::Failed)
            },
            LedgerAction::Finish(_) => (self.rolled_back(), LedgerReply::Failed),
        }
    }
}

/// The statements of a transfer that goes through.
pub open spec fn statements() -> nat {
    5
}

/// A transfer run against the model. `oks` says of each statement in turn
/// whether the store lets it succeed; where `oks` runs out the run is cut
/// short, as by a lost connection. A transaction that is open at the end is
/// rolled back. Gives what every reader sees afterwards and how the transfer
/// ended.
pub open spec fn run(
    session: Session,
    state: TransferState,
    action: LedgerAction,
    oks: Seq<bool>,
    new_id: TransferId,
) -> (Ledger, Result<TransferId, TransferError>)
    decreases oks.len(),
{
    match action {
        LedgerAction::Finish(outcome) => (session.committed, outcome),
        _ => if oks.len() == 0 {
            (session.committed, Err(TransferError::Failed))
        } else {
            let (session_after, reply) = session.answer(action, oks[0], new_id);
            let (state_after, action_after) = transfer_next(state, reply);
            run(session_after, state_after, action_after, oks.drop_first(), new_id)
        },
    }
}

/// A transfer on behalf of `caller`, run against the model from a ledger
/// with no transaction open.
pub open spec fn transfer_run(
    ledger: Ledger,
    caller: UserId,
    request: Transfer,
    oks: Seq<bool>,
    new_id: TransferId,
) -> (Ledger, Result<TransferId, TransferError>) {
    let (state, action) = transfer_start(
        caller,
        request.sender_id,
        request.receiver_id,
        request.amount,
        request.description,
    );
    run(Session::idle(ledger), state, action, oks, new_id)
}

/// The ledger after the whole transfer that `request` asks for, its record
/// written under `id` with the text of the request.
pub open spec fn with_request(ledger: Ledger, id: TransferId, request: Transfer) -> Ledger {
    ledger.with_transfer(
        id,
        request.sender_id,
        request.receiver_id,
        request.amount,
        text_view(request.description),
    )
}

/// Whether the store lets each of the five statements of a transfer succeed.
pub open spec fn all_succeed(oks: Seq<bool>) -> bool {
    &&& oks.len() >= statements()
    &&& forall|i: int| 0 <= i < statements() ==> #[trigger] oks[i]
}

/// A transfer is all or nothing. Whichever statements fail and wherever the
/// run is cut short, readers see afterwards either the ledger as it was, and
/// the transfer has failed, or the ledger with the debit, the credit and the
/// record all in it, and the transfer has given the record's id. They see
/// the latter exactly when the caller is the sender and no statement failed.
pub proof fn transfer_is_all_or_nothing(
    ledger: Ledger,
    caller: UserId,
    request: Transfer,
    oks: Seq<bool>,
    new_id: TransferId,
)
    ensures
        caller == request.sender_id && all_succeed(oks) ==> transfer_run(ledger, caller, request, oks, new_id)
            == (with_request(ledger, new_id, request), Ok::<TransferId, TransferError>(new_id)),
        !(caller == request.sender_id && all_succeed(oks)) ==> transfer_run(
            ledger,
            caller,
            request,
            oks,
            new_id,
        ).0 == ledger && transfer_run(ledger, caller, request, oks, new_id).1 is Err,
{
    reveal_with_fuel(run, 7);
    let o1 = oks.drop_first();
    let o2 = o1.drop_first();
    let o3 = o2.drop_first();
    let o4 = o3.drop_first();
    if oks.len() >= 1 {
        assert(o1.len() == oks.len() - 1);
        if oks.len() >= 2 {
            assert(o1[0] == oks[1]);
            if oks.len() >= 3 {
                assert(o2[0] == oks[2]);
                if oks.len() >= 4 {
                    assert(o3[0] == oks[3]);
                    if oks.len() >= 5 {
                        assert(o4[0] == oks[4]);
                    }
                }
            }
        }
    }
}

/// A caller who is not the sender is turned down before the ledger is
/// touched: the engine's first and only action is to finish.
pub proof fn stranger_never_reaches_the_ledger(caller: UserId, request: Transfer)
    requires
        caller != request.sender_id,
    ensures
        transfer_start(
            caller,
            request.sender_id,
            request.receiver_id,
            request.amount,
            request.description,
        ).1 == LedgerAction::Finish(Err(TransferError::Unauthorized)),
        forall|ledger: Ledger, oks: Seq<bool>, new_id: TransferId| #[trigger]
            transfer_run(ledger, caller, request, oks, new_id) == (
                ledger,
                Err::<TransferId, TransferError>(TransferError::Unauthorized),
            ),
{
    reveal_with_fuel(run, 1);
}

/// A transfer between two accounts that the ledger holds moves exactly the
/// amount: the sender has that much less, the receiver that much more, every
/// other balance is as it was, and there is exactly one more record, which
/// names both parties, the amount and the text of the request.
pub proof fn transfer_moves_exactly_the_amount(ledger: Ledger, id: TransferId, request: Transfer)
    requires
        ledger.balances.contains_key(request.sender_id),
        ledger.balances.contains_key(request.receiver_id),
        request.sender_id != request.receiver_id,
    ensures
        ({
            let after = with_request(ledger, id, request);
            let sender = request.sender_id;
            let receiver = request.receiver_id;
            let units = request.amount.units();
            &&& after.balances.dom() == ledger.balances.dom()
            &&& after.balances[sender] == ledger.balances[sender] - units
            &&& after.balances[receiver] == ledger.balances[receiver] + units
            &&& after.balances[sender] + after.balances[receiver] == ledger.balances[sender]
                + ledger.balances[receiver]
            &&& forall|other: UserId|
                other != sender && other != receiver && ledger.balances.contains_key(other)
                    ==> #[trigger] after.balances[other] == ledger.balances[other]
            &&& after.transfers == ledger.transfers.push(
                TransferRow { id, sender, receiver, units, description: text_view(request.description) },
            )
        }),
{
    let after = with_request(ledger, id, request);
    assert(after.balances.dom() =~= ledger.balances.dom());
}

/// A committed transfer carries the text of its request: the record that
/// the ledger holds last after the transfer has the request's parties,
/// amount and description, and a record handed out from that row shows the
/// same description to the sender and to the receiver, who may both see it.
pub proof fn committed_transfer_carries_its_description(
    ledger: Ledger,
    id: TransferId,
    request: Transfer,
    record: TransferRecord,
)
    requires
        row_of(record) == with_request(ledger, id, request).transfers.last(),
    ensures
        with_request(ledger, id, request).transfers.len() == ledger.transfers.len() + 1,
        with_request(ledger, id, request).transfers.last().description == text_view(request.description),
        record.id == id,
        text_view(record.description) == text_view(request.description),
        visible_to(request.sender_id, record),
        visible_to(request.receiver_id, record),
{
}

/// Two transfers that are committed one after the other leave the same
/// balances in either order: as long as the store lets the one finish
/// before the other begins, no update of a balance is lost.
pub proof fn serial_transfers_lose_no_update(
    ledger: Ledger,
    first: Transfer,
    first_id: TransferId,
    second: Transfer,
    second_id: TransferId,
)
    ensures
        with_request(with_request(ledger, first_id, first), second_id, second).balances == with_request(
            with_request(ledger, second_id, second),
            first_id,
            first,
        ).balances,
{
    let one = with_request(with_request(ledger, first_id, first), second_id, second);
    let other = with_request(with_request(ledger, second_id, second), first_id, first);
    assert(one.balances =~= other.balances);
}

} // verus!
