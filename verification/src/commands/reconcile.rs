//! Reconciling a batch: finding the repayment on both ledgers, marking it,
//! and recording it in the batch.

use crate::config::{Config, RunMode};
use crate::date_helpers::{ymd_before, Date};
use crate::lunch_money::api::update_transaction::{
    dry_run_outcome,
    lines_of,
    no_split_ids_text,
    text_of,
    Action,
    SplitUpdateItem,
    SplitUpdateItemView,
    TransactionUpdateItem,
    TransactionUpdateItemView,
    UpdateOutcome,
};
use crate::lunch_money::model::transaction::{Transaction, TransactionId, TransactionStatus};
use crate::persist::{copy_ids, unreconciled_batches, Batch, BatchView, Settlement};
use crate::usd::USD;
use vstd::prelude::*;

verus! {

/// One of the two parties, each with a ledger of its own.
#[derive(Debug, Clone, Copy, PartialEq, Eq, Structural)]
pub enum Party {
    Creditor,
    Debtor,
}

/// Why a batch could not be reconciled.
#[derive(Debug, PartialEq)]
pub enum ReconcileError {
    /// The batch has a reconciliation already.
    AlreadyReconciled,
    /// The ledger returned none of the batch's transactions.
    NoBatchTransactions,
    /// No transaction of the party's ledger has the batch's amount in the
    /// party's repayment account.
    NoSettlementFound(Party),
    /// A call to a ledger failed, with its message.
    Ledger(String),
    /// The ledger split the debtor's repayment and named no lines.
    NoSplitIds,
    /// Writing the batch record failed, with its message.
    Store(String),
    /// An event came that the state was not waiting for.
    UnexpectedEvent,
}

impl ReconcileError {
    /// What the user is told of the error.
    pub open spec fn text(self) -> Seq<char> {
        match self {
            ReconcileError::AlreadyReconciled => "batch is already reconciled"@,
            ReconcileError::NoBatchTransactions => {
                "no creditor transactions while trying to reconcile"@
            },
            ReconcileError::NoSettlementFound(Party::Creditor) => {
                "did not find suitable settlement credit"@
            },
            ReconcileError::NoSettlementFound(Party::Debtor) => {
                "did not find suitable settlement debit"@
            },
            ReconcileError::Ledger(message) => message@,
            ReconcileError::NoSplitIds => no_split_ids_text(),
            ReconcileError::Store(message) => message@,
            ReconcileError::UnexpectedEvent => "event out of turn"@,
        }
    }

    /// What the user is told of the error.
    pub fn message(&self) -> (message: String)
        ensures
            message@ == self.text(),
    {
        match self {
            ReconcileError::AlreadyReconciled => String::from_str("batch is already reconciled"),
            ReconcileError::NoBatchTransactions => String::from_str(
                "no creditor transactions while trying to reconcile",
            ),
            ReconcileError::NoSettlementFound(Party::Creditor) => String::from_str(
                "did not find suitable settlement credit",
            ),
            ReconcileError::NoSettlementFound(Party::Debtor) => String::from_str(
                "did not find suitable settlement debit",
            ),
            ReconcileError::Ledger(message) => message.clone(),
            ReconcileError::NoSplitIds => String::from_str(
                "no split ids found in transaction update that contained splits",
            ),
            ReconcileError::Store(message) => message.clone(),
            ReconcileError::UnexpectedEvent => String::from_str("event out of turn"),
        }
    }
}

// ---------------------------------------------------------------------
// Settlement matching
// ---------------------------------------------------------------------

/// Whether `txn` is a repayment of `amount` cents in the account `account`.
pub open spec fn is_settlement(txn: Transaction, amount: int, account: u32) -> bool {
    txn.amount@ == amount && txn.plaid_account_id == Some(account)
}

/// Whether `txns[i]` is the first repayment of `amount` in `account`.
pub open spec fn is_first_settlement(txns: Seq<Transaction>, i: int, amount: int, account: u32) -> bool {
    &&& 0 <= i < txns.len()
    &&& is_settlement(txns[i], amount, account)
    &&& forall|j: int| 0 <= j < i ==> !is_settlement(#[trigger] txns[j], amount, account)
}

/// Whether no transaction of `txns` is a repayment of `amount` in `account`.
pub open spec fn no_settlement(txns: Seq<Transaction>, amount: int, account: u32) -> bool {
    forall|j: int| 0 <= j < txns.len() ==> !is_settlement(#[trigger] txns[j], amount, account)
}

/// Whether `found` is the outcome of looking for a repayment of `amount` in
/// `account` among `txns`: the place of the first one, or nothing where there
/// is none.
pub open spec fn settlement_found(
    txns: Seq<Transaction>,
    amount: int,
    account: u32,
    found: Option<usize>,
) -> bool {
    match found {
        Some(i) => is_first_settlement(txns, i as int, amount, account),
        None => no_settlement(txns, amount, account),
    }
}

/// The amount that the creditor's repayment shows for a batch of `amount`
/// cents: the creditor receives what the debtor pays.
pub open spec fn credit_amount(amount: int) -> int {
    -amount
}

/// Looks for the creditor's side of the repayment of `batch_amount` cents:
/// the first transaction of `txns`, in their order, with the negated amount
/// in the account `account`.
pub fn find_settlement_credit(txns: &Vec<Transaction>, amount: USD, account: u32) -> (found:
    Option<usize>)
    ensures
        settlement_found(txns@, credit_amount(amount@), account, found),
{
    let batch_amount: i64 = amount.cents();
    let mut i: usize = 0;
    while i < txns.len()
        invariant
            i <= txns@.len(),
            batch_amount == amount@,
            forall|j: int|
                0 <= j < i ==> !is_settlement(#[trigger] txns@[j], credit_amount(amount@), account),
        decreases txns@.len() - i,
    {
        let txn = &txns[i];
        let cents: i64 = txn.amount.cents();
        // Sum to zero rather than negate: the smallest amount has no negation.
        let opposite = cents as i128 + batch_amount as i128 == 0;
        let in_account = match txn.plaid_account_id {
            Some(acct) => acct == account,
            None => false,
        };
        if opposite && in_account {
            return Some(i);
        }
        i += 1;
    }
    None
}

/// Looks for the debtor's side of the repayment of `batch_amount` cents: the
/// first transaction of `txns`, in their order, with that amount in the
/// account `account`.
pub fn find_settlement_debit(txns: &Vec<Transaction>, amount: USD, account: u32) -> (found:
    Option<usize>)
    ensures
        settlement_found(txns@, amount@, account, found),
{
    let batch_amount: i64 = amount.cents();
    let mut i: usize = 0;
    while i < txns.len()
        invariant
            i <= txns@.len(),
            batch_amount == amount@,
            forall|j: int| 0 <= j < i ==> !is_settlement(#[trigger] txns@[j], amount@, account),
        decreases txns@.len() - i,
    {
        let txn = &txns[i];
        let same = txn.amount.cents() == batch_amount;
        let in_account = match txn.plaid_account_id {
            Some(acct) => acct == account,
            None => false,
        };
        if same && in_account {
            return Some(i);
        }
        i += 1;
    }
    None
}

/// Whether `latest` is the latest date among `txns`: the date of one of
/// them that none of them comes after, or nothing where there are none.
pub open spec fn is_latest_date(txns: Seq<Transaction>, latest: Option<Date>) -> bool {
    match latest {
        Some(date) => {
            &&& exists|i: int| 0 <= i < txns.len() && (#[trigger] txns[i]).date == date
            &&& forall|j: int|
                0 <= j < txns.len() ==> !ymd_before(date@, (#[trigger] txns[j]).date@)
        },
        None => txns.len() == 0,
    }
}

/// The latest date among `txns`: where the search for the repayment starts.
pub fn latest_date(txns: &Vec<Transaction>) -> (latest: Option<Date>)
    ensures
        is_latest_date(txns@, latest),
{
    if txns.len() == 0 {
        return None;
    }
    let mut latest: Date = txns[0].date;
    let mut i: usize = 1;
    while i < txns.len()
        invariant
            1 <= i <= txns@.len(),
            exists|k: int| 0 <= k < i && (#[trigger] txns@[k]).date == latest,
            forall|j: int| 0 <= j < i ==> !ymd_before(latest@, (#[trigger] txns@[j]).date@),
        decreases txns@.len() - i,
    {
        if txns[i].date.is_after(&latest) {
            latest = txns[i].date;
        }
        i += 1;
    }
    Some(latest)
}

// ---------------------------------------------------------------------
// The changes that mark a repayment
// ---------------------------------------------------------------------

/// The line of the debtor's repayment that mirrors the batched transaction
/// `txn`: its amount, payee, notes and date, with no category, so that the
/// debtor can categorise each expense.
pub open spec fn debtor_line_of(txn: Transaction) -> SplitUpdateItemView {
    SplitUpdateItemView {
        amount: txn.amount@,
        payee: Some(txn.payee@),
        category_id: None,
        notes: text_of(txn.notes),
        date: Some(txn.date@),
    }
}

/// The lines of the debtor's repayment, one for each of `txns`, in their
/// order.
pub open spec fn debtor_lines_of(txns: Seq<Transaction>) -> Seq<SplitUpdateItemView> {
    txns.map_values(|txn: Transaction| debtor_line_of(txn))
}

/// The change that marks the creditor's repayment as used: it moves to the
/// proxy category, is cleared, and is noted with the batch's id.
pub open spec fn credit_mark_of(batch_id: Seq<char>, proxy_category_id: u32) -> TransactionUpdateItemView {
    TransactionUpdateItemView {
        payee: None,
        category_id: Some(proxy_category_id),
        notes: Some(batch_id),
        tags: None,
        status: Some(TransactionStatus::Cleared),
    }
}

/// `batch` with the reconciliation `settlement`, and nothing else changed.
pub open spec fn reconciled_with(batch: BatchView, settlement: Settlement) -> BatchView {
    BatchView {
        id: batch.id,
        amount: batch.amount,
        transaction_ids: batch.transaction_ids,
        reconciliation: Some(settlement),
    }
}

/// The lines into which the debtor's repayment is split, one for each
/// batched transaction.
pub fn debtor_lines(txns: &Vec<Transaction>) -> (lines: Vec<SplitUpdateItem>)
    ensures
        lines_of(lines@) == debtor_lines_of(txns@),
{
    let mut lines: Vec<SplitUpdateItem> = Vec::new();
    let mut i: usize = 0;
    while i < txns.len()
        invariant
            i <= txns@.len(),
            lines@.len() == i,
            forall|j: int| 0 <= j < i ==> (#[trigger] lines@[j])@ == debtor_line_of(txns@[j]),
        decreases txns@.len() - i,
    {
        let txn = &txns[i];
        let notes = match &txn.notes {
            Some(notes) => Some(notes.clone()),
            None => None,
        };
        lines.push(
            SplitUpdateItem {
                amount: txn.amount,
                payee: Some(txn.payee.clone()),
                category_id: None,
                notes,
                date: Some(txn.date),
            },
        );
        i += 1;
    }
    assert(lines_of(lines@) =~= debtor_lines_of(txns@));
    lines
}

/// The change that marks the creditor's repayment as used.
pub fn credit_mark(batch_id: &String, proxy_category_id: u32) -> (item: TransactionUpdateItem)
    ensures
        item@ == credit_mark_of(batch_id@, proxy_category_id),
{
    TransactionUpdateItem {
        payee: None,
        category_id: Some(proxy_category_id),
        notes: Some(batch_id.clone()),
        tags: None,
        status: Some(TransactionStatus::Cleared),
    }
}

// ---------------------------------------------------------------------
// The course of one reconciliation
// ---------------------------------------------------------------------

/// How far the reconciliation of one batch has come. It starts `Open` and
/// ends `Reconciled` or `Failed`; in every state but `Reconciled` the batch
/// is the open batch that it started with.
#[derive(Debug, PartialEq)]
pub enum ReconcileState {
    /// Nothing has been done yet.
    Open { batch: Batch },
    /// Waiting for the batch's own transactions from the creditor's ledger.
    LoadingBatch { batch: Batch },
    /// Waiting for the creditor's transactions since `since`.
    FindingCredit { batch: Batch, since: Date, lines: Vec<SplitUpdateItem> },
    /// Waiting for the debtor's transactions since `since`.
    FindingDebit { batch: Batch, since: Date, lines: Vec<SplitUpdateItem>, credit_id: TransactionId },
    /// Waiting for the creditor's ledger to mark its repayment.
    MarkingCredit { batch: Batch, lines: Vec<SplitUpdateItem>, settlement: Settlement },
    /// Waiting for the debtor's ledger to split its repayment.
    SplittingDebit { batch: Batch, settlement: Settlement },
    /// Waiting for the batch record to be rewritten.
    Saving { batch: Batch, settlement: Settlement },
    /// Both repayments are marked and the record is rewritten.
    Reconciled { batch: Batch },
    /// The reconciliation was given up; the record was not rewritten.
    Failed { batch: Batch, error: ReconcileError },
}

/// What happened outside since the last action was handed out.
#[derive(Debug, PartialEq)]
pub enum ReconcileEvent {
    /// The run starts.
    Begin,
    /// A ledger returned transactions, or failed to.
    Transactions(Result<Vec<Transaction>, String>),
    /// A ledger changed a transaction, or failed to.
    Changed(UpdateOutcome),
    /// The batch record was written, or failed to be.
    Saved(Result<(), String>),
}

/// What is to be done outside next.
#[derive(Debug, PartialEq)]
pub enum ReconcileAction {
    GetTransactionsById { party: Party, ids: Vec<TransactionId> },
    GetTransactions { party: Party, start_date: Date, end_date: Date },
    Change { party: Party, txn_id: TransactionId, action: Action },
    SaveBatch { batch: Batch },
    /// Nothing: the batch is reconciled.
    Finish,
    /// Nothing: the reconciliation failed with the error in the state.
    Stop,
}

impl ReconcileState {
    /// The batch that is being reconciled.
    pub open spec fn batch(self) -> Batch {
        match self {
            ReconcileState::Open { batch } => batch,
            ReconcileState::LoadingBatch { batch } => batch,
            ReconcileState::FindingCredit { batch, .. } => batch,
            ReconcileState::FindingDebit { batch, .. } => batch,
            ReconcileState::MarkingCredit { batch, .. } => batch,
            ReconcileState::SplittingDebit { batch, .. } => batch,
            ReconcileState::Saving { batch, .. } => batch,
            ReconcileState::Reconciled { batch } => batch,
            ReconcileState::Failed { batch, .. } => batch,
        }
    }

    /// Whether nothing more will be done.
    pub open spec fn is_terminal(self) -> bool {
        self is Reconciled || self is Failed
    }
}

/// Whether giving up on `batch` with `error` leads to `next` and `action`:
/// the batch is kept as it is and nothing more is done.
pub open spec fn fails_with(
    batch: Batch,
    error: ReconcileError,
    next: ReconcileState,
    action: ReconcileAction,
) -> bool {
    next == (ReconcileState::Failed { batch, error }) && action is Stop
}

/// The one step that the state `state` takes on the event `event`: whether
/// it leads to the state `next` and the action `action`.
pub open spec fn reconcile_transition(
    state: ReconcileState,
    event: ReconcileEvent,
    config: Config,
    today: Date,
    next: ReconcileState,
    action: ReconcileAction,
) -> bool {
    match state {
        ReconcileState::Open { batch } => match event {
            ReconcileEvent::Begin => if batch.reconciliation.is_some() {
                fails_with(batch, ReconcileError::AlreadyReconciled, next, action)
            } else {
                &&& next == (ReconcileState::LoadingBatch { batch })
                &&& action matches ReconcileAction::GetTransactionsById { party, ids }
                &&& party == Party::Creditor
                &&& ids@ == batch.transaction_ids@
            },
            _ => fails_with(batch, ReconcileError::UnexpectedEvent, next, action),
        },
        ReconcileState::LoadingBatch { batch } => match event {
            ReconcileEvent::Transactions(Ok(txns)) => if txns@.len() == 0 {
                fails_with(batch, ReconcileError::NoBatchTransactions, next, action)
            } else {
                &&& next matches ReconcileState::FindingCredit { batch: kept, since, lines }
                &&& kept == batch
                &&& is_latest_date(txns@, Some(since))
                &&& lines_of(lines@) == debtor_lines_of(txns@)
                &&& action == (ReconcileAction::GetTransactions {
                    party: Party::Creditor,
                    start_date: since,
                    end_date: today,
                })
            },
            ReconcileEvent::Transactions(Err(message)) => fails_with(
                batch,
                ReconcileError::Ledger(message),
                next,
                action,
            ),
            _ => fails_with(batch, ReconcileError::UnexpectedEvent, next, action),
        },
        ReconcileState::FindingCredit { batch, since, lines } => match event {
            ReconcileEvent::Transactions(Ok(txns)) => if no_settlement(
                txns@,
                credit_amount(batch.amount@),
                config.creditor.repayment_account_id,
            ) {
                fails_with(batch, ReconcileError::NoSettlementFound(Party::Creditor), next, action)
            } else {
                &&& next matches ReconcileState::FindingDebit {
                    batch: kept,
                    since: kept_since,
                    lines: kept_lines,
                    credit_id,
                }
                &&& kept == batch
                &&& kept_since == since
                &&& kept_lines == lines
                &&& exists|i: int|
                    is_first_settlement(
                        txns@,
                        i,
                        credit_amount(batch.amount@),
                        config.creditor.repayment_account_id,
                    ) && credit_id == txns@[i].id
                &&& action == (ReconcileAction::GetTransactions {
                    party: Party::Debtor,
                    start_date: since,
                    end_date: today,
                })
            },
            ReconcileEvent::Transactions(Err(message)) => fails_with(
                batch,
                ReconcileError::Ledger(message),
                next,
                action,
            ),
            _ => fails_with(batch, ReconcileError::UnexpectedEvent, next, action),
        },
        ReconcileState::FindingDebit { batch, since, lines, credit_id } => match event {
            ReconcileEvent::Transactions(Ok(txns)) => if no_settlement(
                txns@,
                batch.amount@,
                config.debtor.repayment_account_id,
            ) {
                fails_with(batch, ReconcileError::NoSettlementFound(Party::Debtor), next, action)
            } else {
                &&& next matches ReconcileState::MarkingCredit {
                    batch: kept,
                    lines: kept_lines,
                    settlement,
                }
                &&& kept == batch
                &&& kept_lines == lines
                &&& settlement.settlement_credit_id == credit_id
                &&& exists|i: int|
                    is_first_settlement(
                        txns@,
                        i,
                        batch.amount@,
                        config.debtor.repayment_account_id,
                    ) && settlement.settlement_debit_id == txns@[i].id
                &&& action matches ReconcileAction::Change { party, txn_id, action: change }
                &&& party == Party::Creditor
                &&& txn_id == credit_id
                &&& change matches Action::Update(item)
                &&& item@ == credit_mark_of(batch.id@, config.creditor.proxy_category_id)
            },
            ReconcileEvent::Transactions(Err(message)) => fails_with(
                batch,
                ReconcileError::Ledger(message),
                next,
                action,
            ),
            _ => fails_with(batch, ReconcileError::UnexpectedEvent, next, action),
        },
        ReconcileState::MarkingCredit { batch, lines, settlement } => match event {
            ReconcileEvent::Changed(Ok(_)) => {
                &&& next == (ReconcileState::SplittingDebit { batch, settlement })
                &&& action == (ReconcileAction::Change {
                    party: Party::Debtor,
                    txn_id: settlement.settlement_debit_id,
                    action: Action::Split(lines),
                })
            },
            ReconcileEvent::Changed(Err(message)) => fails_with(
                batch,
                ReconcileError::Ledger(message),
                next,
                action,
            ),
            _ => fails_with(batch, ReconcileError::UnexpectedEvent, next, action),
        },
        ReconcileState::SplittingDebit { batch, settlement } => match event {
            ReconcileEvent::Changed(Ok(Some(_))) => {
                &&& next == (ReconcileState::Saving { batch, settlement })
                &&& action matches ReconcileAction::SaveBatch { batch: record }
                &&& record@ == reconciled_with(batch@, settlement)
            },
            ReconcileEvent::Changed(Ok(None)) => fails_with(
                batch,
                ReconcileError::NoSplitIds,
                next,
                action,
            ),
            ReconcileEvent::Changed(Err(message)) => fails_with(
                batch,
                ReconcileError::Ledger(message),
                next,
                action,
            ),
            _ => fails_with(batch, ReconcileError::UnexpectedEvent, next, action),
        },
        ReconcileState::Saving { batch, settlement } => match event {
            ReconcileEvent::Saved(Ok(_)) => {
                &&& next matches ReconcileState::Reconciled { batch: record }
                &&& record@ == reconciled_with(batch@, settlement)
                &&& action is Finish
            },
            ReconcileEvent::Saved(Err(message)) => fails_with(
                batch,
                ReconcileError::Store(message),
                next,
                action,
            ),
            _ => fails_with(batch, ReconcileError::UnexpectedEvent, next, action),
        },
        ReconcileState::Reconciled { batch } => {
            next == (ReconcileState::Reconciled { batch }) && action is Finish
        },
        ReconcileState::Failed { batch, error } => {
            next == (ReconcileState::Failed { batch, error }) && action is Stop
        },
    }
}

fn fail(batch: Batch, error: ReconcileError) -> (out: (ReconcileState, ReconcileAction))
    ensures
        fails_with(batch, error, out.0, out.1),
{
    (ReconcileState::Failed { batch, error }, ReconcileAction::Stop)
}

/// Takes the reconciliation one step on: from what happened outside to what
/// is to be done outside next. Both repayments are looked for before either
/// ledger is changed, and the record is rewritten only after both ledgers
/// are; any failure ends the run with the batch as it was.
pub fn reconcile_step(state: ReconcileState, event: ReconcileEvent, config: &Config, today: Date) -> (out:
    (ReconcileState, ReconcileAction))
    ensures
        reconcile_transition(state, event, *config, today, out.0, out.1),
{
    match state {
        ReconcileState::Open { batch } => match event {
            ReconcileEvent::Begin => {
                if batch.reconciliation.is_some() {
                    fail(batch, ReconcileError::AlreadyReconciled)
                } else {
                    let ids = copy_ids(&batch.transaction_ids);
                    (
                        ReconcileState::LoadingBatch { batch },
                        ReconcileAction::GetTransactionsById { party: Party::Creditor, ids },
                    )
                }
            },
            _ => fail(batch, ReconcileError::UnexpectedEvent),
        },
        ReconcileState::LoadingBatch { batch } => match event {
            ReconcileEvent::Transactions(Ok(txns)) => {
                match latest_date(&txns) {
                    None => fail(batch, ReconcileError::NoBatchTransactions),
                    Some(since) => {
                        let lines = debtor_lines(&txns);
                        (
                            ReconcileState::FindingCredit { batch, since, lines },
                            ReconcileAction::GetTransactions {
                                party: Party::Creditor,
                                start_date: since,
                                end_date: today,
                            },
                        )
                    },
                }
            },
            ReconcileEvent::Transactions(Err(message)) => fail(
                batch,
                ReconcileError::Ledger(message),
            ),
            _ => fail(batch, ReconcileError::UnexpectedEvent),
        },
        ReconcileState::FindingCredit { batch, since, lines } => match event {
            ReconcileEvent::Transactions(Ok(txns)) => {
                match find_settlement_credit(
                    &txns,
                    batch.amount,
                    config.creditor.repayment_account_id,
                ) {
                    None => fail(batch, ReconcileError::NoSettlementFound(Party::Creditor)),
                    Some(i) => {
                        let credit_id = txns[i].id;
                        (
                            ReconcileState::FindingDebit { batch, since, lines, credit_id },
                            ReconcileAction::GetTransactions {
                                party: Party::Debtor,
                                start_date: since,
                                end_date: today,
                            },
                        )
                    },
                }
            },
            ReconcileEvent::Transactions(Err(message)) => fail(
                batch,
                ReconcileError::Ledger(message),
            ),
            _ => fail(batch, ReconcileError::UnexpectedEvent),
        },
        ReconcileState::FindingDebit { batch, since, lines, credit_id } => match event {
            ReconcileEvent::Transactions(Ok(txns)) => {
                match find_settlement_debit(&txns, batch.amount, config.debtor.repayment_account_id) {
                    None => fail(batch, ReconcileError::NoSettlementFound(Party::Debtor)),
                    Some(i) => {
                        let settlement = Settlement {
                            settlement_credit_id: credit_id,
                            settlement_debit_id: txns[i].id,
                        };
                        let item = credit_mark(&batch.id, config.creditor.proxy_category_id);
                        (
                            ReconcileState::MarkingCredit { batch, lines, settlement },
                            ReconcileAction::Change {
                                party: Party::Creditor,
                                txn_id: credit_id,
                                action: Action::Update(item),
                            },
                        )
                    },
                }
            },
            ReconcileEvent::Transactions(Err(message)) => fail(
                batch,
                ReconcileError::Ledger(message),
            ),
            _ => fail(batch, ReconcileError::UnexpectedEvent),
        },
        ReconcileState::MarkingCredit { batch, lines, settlement } => match event {
            ReconcileEvent::Changed(Ok(_)) => (
                ReconcileState::SplittingDebit { batch, settlement },
                ReconcileAction::Change {
                    party: Party::Debtor,
                    txn_id: settlement.settlement_debit_id,
                    action: Action::Split(lines),
                },
            ),
            ReconcileEvent::Changed(Err(message)) => fail(batch, ReconcileError::Ledger(message)),
            _ => fail(batch, ReconcileError::UnexpectedEvent),
        },
        ReconcileState::SplittingDebit { batch, settlement } => match event {
            ReconcileEvent::Changed(Ok(Some(_))) => {
                let record = reconciled(&batch, settlement);
                (ReconcileState::Saving { batch, settlement }, ReconcileAction::SaveBatch { batch: record })
            },
            ReconcileEvent::Changed(Ok(None)) => fail(batch, ReconcileError::NoSplitIds),
            ReconcileEvent::Changed(Err(message)) => fail(batch, ReconcileError::Ledger(message)),
            _ => fail(batch, ReconcileError::UnexpectedEvent),
        },
        ReconcileState::Saving { batch, settlement } => match event {
            ReconcileEvent::Saved(Ok(_)) => {
                let record = reconciled(&batch, settlement);
                (ReconcileState::Reconciled { batch: record }, ReconcileAction::Finish)
            },
            ReconcileEvent::Saved(Err(message)) => fail(batch, ReconcileError::Store(message)),
            _ => fail(batch, ReconcileError::UnexpectedEvent),
        },
        ReconcileState::Reconciled { batch } => (
            ReconcileState::Reconciled { batch },
            ReconcileAction::Finish,
        ),
        ReconcileState::Failed { batch, error } => (
            ReconcileState::Failed { batch, error },
            ReconcileAction::Stop,
        ),
    }
}

/// A copy of `batch` with the reconciliation `settlement`.
pub fn reconciled(batch: &Batch, settlement: Settlement) -> (record: Batch)
    ensures
        record@ == reconciled_with(batch@, settlement),
{
    let mut record = batch.duplicate();
    record.reconciliation = Some(settlement);
    record
}

/// Where the reconciliation of `batch` starts.
pub fn reconcile_batch(batch: Batch) -> (state: ReconcileState)
    ensures
        state == (ReconcileState::Open { batch }),
{
    ReconcileState::Open { batch }
}

/// Where the reconciliations of a run over every open batch start: one for
/// each batch of `all` that is still open, in their order. Each runs
/// independently of the others.
pub fn reconcile_all(all: Vec<Batch>) -> (states: Vec<ReconcileState>)
    ensures
        states@ == all@.filter(|batch: Batch| batch.reconciliation.is_none()).map_values(
            |batch: Batch| ReconcileState::Open { batch },
        ),
{
    let open = unreconciled_batches(all);
    let ghost given = open@;
    let mut states: Vec<ReconcileState> = Vec::new();
    for batch in it: open
        invariant
            it.seq() == given,
            states@ == given.take(it.index() as int).map_values(
                |batch: Batch| ReconcileState::Open { batch },
            ),
    {
        proof {
            let i = it.index() as int;
            assert(given.take(i + 1).map_values(|batch: Batch| ReconcileState::Open { batch })
                =~= given.take(i).map_values(|batch: Batch| ReconcileState::Open { batch }).push(
                ReconcileState::Open { batch: given[i] },
            ));
        }
        states.push(reconcile_batch(batch));
    }
    assert(given.take(given.len() as int) == given);
    states
}

// ---------------------------------------------------------------------
// Dry runs
// ---------------------------------------------------------------------

impl ReconcileAction {
    /// Whether the action changes anything outside: a ledger or the batch
    /// record.
    pub open spec fn changes_outside(self) -> bool {
        self is Change || self is SaveBatch
    }
}

/// Whether `event` stands in for carrying out `action` in the mode `mode`.
/// In a live run nothing does. In a dry run every action that would change
/// something outside is answered with success at once, a change to a ledger
/// with two made-up split ids; reading is still done for real.
pub open spec fn stands_in_for(mode: RunMode, action: ReconcileAction, event: Option<ReconcileEvent>) -> bool {
    if mode == RunMode::DryRun && action is Change {
        event matches Some(ReconcileEvent::Changed(Ok(Some(made)))) && made.split_ids@
            == seq![0u32, 1u32]
    } else if mode == RunMode::DryRun && action is SaveBatch {
        event matches Some(ReconcileEvent::Saved(Ok(_)))
    } else {
        event.is_none()
    }
}

/// The event that stands in for carrying out `action`, if it must not be
/// carried out in the mode `mode`.
pub fn simulated_event(mode: RunMode, action: &ReconcileAction) -> (event: Option<ReconcileEvent>)
    ensures
        stands_in_for(mode, *action, event),
        event.is_some() <==> mode == RunMode::DryRun && action.changes_outside(),
{
    match mode {
        RunMode::Live => None,
        RunMode::DryRun => match action {
            ReconcileAction::Change { .. } => Some(ReconcileEvent::Changed(dry_run_outcome())),
            ReconcileAction::SaveBatch { .. } => Some(ReconcileEvent::Saved(Ok(()))),
            _ => None,
        },
    }
}

// ---------------------------------------------------------------------
// Reconciling every open batch
// ---------------------------------------------------------------------

/// What became of the batches of one run over every open batch: the ids of
/// those that were reconciled, and the id and error of each that was not.
/// One batch's failure does not keep the others from being tried.
#[derive(Debug, PartialEq)]
pub struct ReconcileReport {
    pub reconciled: Vec<String>,
    pub failed: Vec<(String, ReconcileError)>,
}

impl ReconcileReport {
    /// The report of a run that has tried no batch yet.
    pub fn new() -> (report: ReconcileReport)
        ensures
            report.reconciled@.len() == 0,
            report.failed@.len() == 0,
    {
        ReconcileReport { reconciled: Vec::new(), failed: Vec::new() }
    }

    /// Notes how the reconciliation of one batch ended. A state that is not
    /// an end changes nothing.
    pub fn record(&mut self, end: ReconcileState)
        ensures
            match end {
                ReconcileState::Reconciled { batch } => {
                    &&& final(self).reconciled@ == old(self).reconciled@.push(batch.id)
                    &&& final(self).failed@ == old(self).failed@
                },
                ReconcileState::Failed { batch, error } => {
                    &&& final(self).reconciled@ == old(self).reconciled@
                    &&& final(self).failed@ == old(self).failed@.push((batch.id, error))
                },
                _ => *final(self) == *old(self),
            },
    {
        match end {
            ReconcileState::Reconciled { batch } => {
                self.reconciled.push(batch.id);
            },
            ReconcileState::Failed { batch, error } => {
                self.failed.push((batch.id, error));
            },
            _ => {},
        }
    }
}

// ---------------------------------------------------------------------
// What holds of every step
// ---------------------------------------------------------------------

/// Until a batch is reconciled, no step changes it: every state holds the
/// batch that the step before it held. The one step that does change it goes
/// from `Saving` to `Reconciled` once the record is written, and adds the
/// reconciliation and nothing else.
pub proof fn lemma_batch_kept_until_reconciled(
    state: ReconcileState,
    event: ReconcileEvent,
    config: Config,
    today: Date,
    next: ReconcileState,
    action: ReconcileAction,
)
    requires
        reconcile_transition(state, event, config, today, next, action),
    ensures
        !(next is Reconciled) ==> next.batch() == state.batch(),
        next is Reconciled && !(state is Reconciled) ==> {
            &&& state matches ReconcileState::Saving { batch, settlement }
            &&& event matches ReconcileEvent::Saved(Ok(_))
            &&& next.batch()@ == reconciled_with(batch@, settlement)
        },
        next is Reconciled && state is Reconciled ==> next == state,
{
}

/// The batch record is rewritten only once both ledgers have been changed:
/// the action to save comes from no state but `SplittingDebit`, on the
/// debtor's ledger answering that it has split the repayment. What is saved
/// is the batch with its reconciliation and nothing else changed.
pub proof fn lemma_saved_only_after_both_changes(
    state: ReconcileState,
    event: ReconcileEvent,
    config: Config,
    today: Date,
    next: ReconcileState,
    action: ReconcileAction,
)
    requires
        reconcile_transition(state, event, config, today, next, action),
        action is SaveBatch,
    ensures
        state matches ReconcileState::SplittingDebit { batch, settlement } && action
            ->SaveBatch_batch@ == reconciled_with(batch@, settlement),
        event matches ReconcileEvent::Changed(Ok(Some(_))),
        next is Saving,
{
}

/// No ledger is changed before both repayments are found: a change is asked
/// for only when the debtor's repayment has just been found, the creditor's
/// having been found before, or when the creditor's ledger has just been
/// changed.
pub proof fn lemma_changes_only_after_both_found(
    state: ReconcileState,
    event: ReconcileEvent,
    config: Config,
    today: Date,
    next: ReconcileState,
    action: ReconcileAction,
)
    requires
        reconcile_transition(state, event, config, today, next, action),
        action is Change,
    ensures
        state is FindingDebit || state is MarkingCredit,
        state is FindingDebit ==> {
            &&& event matches ReconcileEvent::Transactions(Ok(_))
            &&& action->Change_party == Party::Creditor
            &&& action->Change_action is Update
            &&& next is MarkingCredit
        },
        state is MarkingCredit ==> {
            &&& event matches ReconcileEvent::Changed(Ok(_))
            &&& action->Change_party == Party::Debtor
            &&& action->Change_action is Split
            &&& next is SplittingDebit
        },
{
}

/// Where the window of a party holds no repayment of the batch's amount in
/// the party's repayment account, the reconciliation fails with
/// `NoSettlementFound` for that party, the batch stays as it was, and
/// nothing is changed or saved.
pub proof fn lemma_no_settlement_fails(
    state: ReconcileState,
    txns: Vec<Transaction>,
    config: Config,
    today: Date,
    next: ReconcileState,
    action: ReconcileAction,
)
    requires
        reconcile_transition(
            state,
            ReconcileEvent::Transactions(Ok(txns)),
            config,
            today,
            next,
            action,
        ),
    ensures
        state is FindingCredit && no_settlement(
            txns@,
            credit_amount(state.batch().amount@),
            config.creditor.repayment_account_id,
        ) ==> next == (ReconcileState::Failed {
            batch: state.batch(),
            error: ReconcileError::NoSettlementFound(Party::Creditor),
        }) && action is Stop,
        state is FindingDebit && no_settlement(
            txns@,
            state.batch().amount@,
            config.debtor.repayment_account_id,
        ) ==> next == (ReconcileState::Failed {
            batch: state.batch(),
            error: ReconcileError::NoSettlementFound(Party::Debtor),
        }) && action is Stop,
{
}

/// The two ends are final: from `Reconciled` and from `Failed` every event
/// leads to the same state, and nothing is done outside.
pub proof fn lemma_ends_are_final(
    state: ReconcileState,
    event: ReconcileEvent,
    config: Config,
    today: Date,
    next: ReconcileState,
    action: ReconcileAction,
)
    requires
        reconcile_transition(state, event, config, today, next, action),
        state.is_terminal(),
    ensures
        next == state,
        !action.changes_outside(),
        action is Finish <==> state is Reconciled,
        action is Stop <==> state is Failed,
{
}

/// Any failure ends the run with the batch as it was: a step into `Failed`
/// asks for nothing outside.
pub proof fn lemma_failure_stops(
    state: ReconcileState,
    event: ReconcileEvent,
    config: Config,
    today: Date,
    next: ReconcileState,
    action: ReconcileAction,
)
    requires
        reconcile_transition(state, event, config, today, next, action),
    ensures
        next is Failed <==> action is Stop,
        next is Failed ==> next.batch() == state.batch(),
{
}

// ---------------------------------------------------------------------
// What holds of every run
// ---------------------------------------------------------------------

/// Whether `states` is a run: each state but the first is the one that the
/// state before it steps to on the event of `events` at its place, and the
/// action of `actions` at that place is the one handed out.
pub open spec fn is_run(
    states: Seq<ReconcileState>,
    events: Seq<ReconcileEvent>,
    actions: Seq<ReconcileAction>,
    config: Config,
    today: Date,
) -> bool {
    &&& states.len() == events.len() + 1
    &&& actions.len() == events.len()
    &&& forall|i: int|
        0 <= i < events.len() ==> reconcile_transition(
            states[i],
            #[trigger] events[i],
            config,
            today,
            states[i + 1],
            actions[i],
        )
}

/// Whether one of the first `n` of `actions` asks the ledger of `party` for
/// a change.
pub open spec fn asked_to_change(actions: Seq<ReconcileAction>, n: int, party: Party) -> bool {
    exists|j: int|
        0 <= j < n && j < actions.len() && (#[trigger] actions[j]) is Change
            && actions[j]->Change_party == party
}

/// What a state says of the actions that led to it.
spec fn follows_from(state: ReconcileState, actions: Seq<ReconcileAction>, n: int) -> bool {
    &&& state is MarkingCredit ==> asked_to_change(actions, n, Party::Creditor)
    &&& state is SplittingDebit || state is Saving || state is Reconciled ==> asked_to_change(
        actions,
        n,
        Party::Creditor,
    ) && asked_to_change(actions, n, Party::Debtor)
}

proof fn lemma_run_up_to(
    states: Seq<ReconcileState>,
    events: Seq<ReconcileEvent>,
    actions: Seq<ReconcileAction>,
    config: Config,
    today: Date,
    n: int,
)
    requires
        is_run(states, events, actions, config, today),
        states[0] is Open,
        0 <= n < states.len(),
    ensures
        follows_from(states[n], actions, n),
        states[n] is Reconciled ==> exists|settlement: Settlement|
            states[n].batch()@ == reconciled_with(states[0].batch()@, settlement),
        !(states[n] is Reconciled) ==> states[n].batch() == states[0].batch(),
    decreases n,
{
    if n > 0 {
        lemma_run_up_to(states, events, actions, config, today, n - 1);
        let before = states[n - 1];
        assert(reconcile_transition(
            before,
            events[n - 1],
            config,
            today,
            states[n],
            actions[n - 1],
        ));
        if before is FindingDebit && states[n] is MarkingCredit {
            assert(actions[n - 1] is Change && actions[n - 1]->Change_party == Party::Creditor);
        }
        if before is MarkingCredit && states[n] is SplittingDebit {
            assert(actions[n - 1] is Change && actions[n - 1]->Change_party == Party::Debtor);
            let j = choose|j: int|
                0 <= j < n - 1 && j < actions.len() && (#[trigger] actions[j]) is Change
                    && actions[j]->Change_party == Party::Creditor;
            assert(actions[j] is Change);
        }
        if before is SplittingDebit || before is Saving || before is Reconciled {
            let j = choose|j: int|
                0 <= j < n - 1 && j < actions.len() && (#[trigger] actions[j]) is Change
                    && actions[j]->Change_party == Party::Creditor;
            let k = choose|k: int|
                0 <= k < n - 1 && k < actions.len() && (#[trigger] actions[k]) is Change
                    && actions[k]->Change_party == Party::Debtor;
            assert(actions[j] is Change && actions[k] is Change);
        }
        if before is Saving && states[n] is Reconciled {
            let settlement = before->Saving_settlement;
            assert(states[n].batch()@ == reconciled_with(states[0].batch()@, settlement));
        }
    }
}

/// A reconciliation is all or nothing. In every run that starts open, the
/// record is asked to be written only after both ledgers were asked to
/// change; until the run ends reconciled, the batch is the one that it
/// started with; and where it ends reconciled, the batch is the one that it
/// started with, with a reconciliation and nothing else changed.
pub proof fn lemma_run_is_all_or_nothing(
    states: Seq<ReconcileState>,
    events: Seq<ReconcileEvent>,
    actions: Seq<ReconcileAction>,
    config: Config,
    today: Date,
    n: int,
)
    requires
        is_run(states, events, actions, config, today),
        states[0] is Open,
        0 <= n < states.len(),
    ensures
        n < actions.len() && actions[n] is SaveBatch ==> asked_to_change(
            actions,
            n,
            Party::Creditor,
        ) && asked_to_change(actions, n, Party::Debtor),
        states[n] is Reconciled ==> exists|settlement: Settlement|
            states[n].batch()@ == reconciled_with(states[0].batch()@, settlement),
        !(states[n] is Reconciled) ==> states[n].batch() == states[0].batch(),
{
    lemma_run_up_to(states, events, actions, config, today, n);
    if n < actions.len() && actions[n] is SaveBatch {
        assert(reconcile_transition(
            states[n],
            events[n],
            config,
            today,
            states[n + 1],
            actions[n],
        ));
    }
}

} // verus!
