//! Forming a batch: asking the ledger to mark what was tagged, and recording
//! what it marked.

pub mod create_updates;
pub mod process_tags;

use crate::commands::create_batch::create_updates::{
    add_update_of,
    create_add_update,
    create_split_update,
    split_lines_of,
    split_parent_update_of,
};
use crate::commands::create_batch::process_tags::{
    issue_views,
    Issue,
    IssueView,
    ProcessTagsOutput,
};
use crate::commands::create_batch::process_tags::{adds_of, issues_of, process_tags, splits_of};
use crate::config::{fresh_batch_id, Config, RunMode, TAG_BATCH_ADD, TAG_BATCH_SPLIT};
use crate::date_helpers::{ymd_before, Date};
use crate::email::{BatchSummary, Txn};
use crate::lunch_money::api::update_transaction::{
    lines_of,
    no_split_ids_text,
    texts_of,
    dry_run_outcome,
    Action,
    UpdateOutcome,
};
use crate::lunch_money::model::transaction::{Transaction, TransactionId};
use crate::persist::Batch;
use crate::text::{append_decimal, append_string, decimal_digits};
use crate::usd::{even_split, USD};
use vstd::prelude::*;

verus! {

// ---------------------------------------------------------------------
// The plan: one change for each transaction that goes into the batch
// ---------------------------------------------------------------------

/// One change that is still to be asked of the ledger, with the line that
/// the batch gets if the ledger makes it.
#[derive(Debug, PartialEq)]
pub struct Planned {
    /// The transaction that is changed.
    pub txn_id: TransactionId,
    /// What the batch shows for it: the payee, the date, and the amount
    /// that the debtor owes of it.
    pub line: Txn,
    pub action: Action,
}

/// Whether `planned` batches `txn` in full: the whole amount is owed.
pub open spec fn plans_add(planned: Planned, txn: Transaction, proxy_category_id: u32, add_tag: Seq<char>) -> bool {
    &&& planned.txn_id == txn.id
    &&& planned.line.payee@ == txn.payee@
    &&& planned.line.amount == txn.amount
    &&& planned.line.date == txn.date
    &&& planned.action matches Action::Update(item)
    &&& (txn.id, item@) == add_update_of(txn, proxy_category_id, add_tag)
}

/// Whether `planned` splits `txn` in two: the debtor's half is owed.
pub open spec fn plans_split(
    planned: Planned,
    txn: Transaction,
    proxy_category_id: u32,
    split_tag: Seq<char>,
) -> bool {
    &&& planned.txn_id == txn.id
    &&& planned.line.payee@ == txn.payee@
    &&& planned.line.date == txn.date
    &&& planned.action matches Action::UpdateAndSplit(item, lines)
    &&& (txn.id, item@) == split_parent_update_of(txn, split_tag)
    &&& exists|creditor_rounds_away: bool|
        {
            &&& lines_of(lines@) == split_lines_of(
                txn.amount@,
                proxy_category_id,
                creditor_rounds_away,
            )
            &&& planned.line.amount@ == #[trigger] even_split(
                txn.amount@,
                creditor_rounds_away,
            ).1
        }
}

/// Whether `plan` is the plan for batching `adds` in full and splitting
/// `splits`: one change for each, those of `adds` first, each in its order.
pub open spec fn is_plan(
    plan: Seq<Planned>,
    adds: Seq<Transaction>,
    splits: Seq<Transaction>,
    proxy_category_id: u32,
    add_tag: Seq<char>,
    split_tag: Seq<char>,
) -> bool {
    &&& plan.len() == adds.len() + splits.len()
    &&& forall|k: int|
        0 <= k < adds.len() ==> plans_add(#[trigger] plan[k], adds[k], proxy_category_id, add_tag)
    &&& forall|k: int|
        0 <= k < splits.len() ==> plans_split(
            #[trigger] plan[adds.len() + k],
            splits[k],
            proxy_category_id,
            split_tag,
        )
}

/// The change that batches `txn` in full, with its line.
pub fn plan_add(txn: Transaction, proxy_category_id: u32, add_tag: &String) -> (planned: Planned)
    ensures
        plans_add(planned, txn, proxy_category_id, add_tag@),
{
    let line = Txn { payee: txn.payee.clone(), amount: txn.amount, date: txn.date };
    let (txn_id, item) = create_add_update(txn, proxy_category_id, add_tag);
    Planned { txn_id, line, action: Action::Update(item) }
}

/// The change that splits `txn` in two, with the line of the debtor's half.
/// The half that was rounded away from zero is the creditor's if
/// `creditor_rounds_away`.
pub fn plan_split(
    txn: Transaction,
    proxy_category_id: u32,
    split_tag: &String,
    creditor_rounds_away: bool,
) -> (planned: Planned)
    ensures
        plans_split(planned, txn, proxy_category_id, split_tag@),
        planned.line.amount@ == even_split(txn.amount@, creditor_rounds_away).1,
{
    let payee = txn.payee.clone();
    let date = txn.date;
    let (_, debtor_amt) = txn.amount.rounded_even_split(creditor_rounds_away);
    let (txn_id, item, lines) = create_split_update(
        txn,
        proxy_category_id,
        split_tag,
        creditor_rounds_away,
    );
    Planned {
        txn_id,
        line: Txn { payee, amount: debtor_amt, date },
        action: Action::UpdateAndSplit(item, lines),
    }
}

/// The plan for what `processed_data` holds. For each split a fair coin
/// decides who gets the half that is rounded away from zero.
pub fn plan_batch(processed_data: ProcessTagsOutput, proxy_category_id: u32) -> (out: (
    Vec<Planned>,
    Vec<Issue>,
))
    ensures
        is_plan(
            out.0@,
            processed_data.txns_to_add@,
            processed_data.txns_to_split@,
            proxy_category_id,
            processed_data.add_tag@,
            processed_data.split_tag@,
        ),
        out.1 == processed_data.issues,
{
    let ghost adds = processed_data.txns_to_add@;
    let ghost splits = processed_data.txns_to_split@;
    let add_tag = processed_data.add_tag;
    let split_tag = processed_data.split_tag;
    let mut plan: Vec<Planned> = Vec::new();
    for txn in it: processed_data.txns_to_add
        invariant
            it.seq() == adds,
            plan@.len() == it.index(),
            forall|k: int|
                0 <= k < plan@.len() ==> plans_add(
                    #[trigger] plan@[k],
                    adds[k],
                    proxy_category_id,
                    add_tag@,
                ),
    {
        let planned = plan_add(txn, proxy_category_id, &add_tag);
        plan.push(planned);
    }
    for txn in it: processed_data.txns_to_split
        invariant
            it.seq() == splits,
            plan@.len() == adds.len() + it.index(),
            forall|k: int|
                0 <= k < adds.len() ==> plans_add(
                    #[trigger] plan@[k],
                    adds[k],
                    proxy_category_id,
                    add_tag@,
                ),
            forall|k: int|
                0 <= k < it.index() ==> plans_split(
                    #[trigger] plan@[adds.len() + k],
                    splits[k],
                    proxy_category_id,
                    split_tag@,
                ),
    {
        let creditor_rounds_away = crate::usd::coin_flip();
        let planned = plan_split(txn, proxy_category_id, &split_tag, creditor_rounds_away);
        plan.push(planned);
    }
    (plan, processed_data.issues)
}

// ---------------------------------------------------------------------
// Recording what the ledger answered
// ---------------------------------------------------------------------

/// The change that the ledger has been asked for and has not answered yet.
#[derive(Debug, PartialEq)]
pub struct InFlight {
    pub txn_id: TransactionId,
    pub line: Txn,
    /// Whether the change splits the transaction.
    pub splits: bool,
}

impl Planned {
    /// What is kept of the change while the ledger works on it.
    pub open spec fn in_flight(self) -> InFlight {
        InFlight { txn_id: self.txn_id, line: self.line, splits: self.action is UpdateAndSplit }
    }
}

/// What is noted where the ledger split a transaction and named no second
/// line.
pub open spec fn no_debtor_split_id_text() -> Seq<char> {
    "no item in position 1 of split ids in transaction update response - expected debtor proxy split id"@
}

/// The id under which the batch holds the line of `in_flight`, if the
/// ledger's answer `outcome` gives it one: the transaction's own id where it
/// was changed, the id of its second line, which is the debtor's, where it
/// was split.
pub open spec fn batched_id(in_flight: InFlight, outcome: UpdateOutcome) -> Option<TransactionId> {
    match outcome {
        Ok(made) => if !in_flight.splits {
            Some(in_flight.txn_id)
        } else {
            match made {
                Some(made) => if made.split_ids@.len() > 1 {
                    Some(made.split_ids@[1])
                } else {
                    None
                },
                None => None,
            }
        },
        Err(_) => None,
    }
}

/// Why the line of `in_flight` does not go into the batch, if the ledger's
/// answer `outcome` keeps it out.
pub open spec fn update_error(in_flight: InFlight, outcome: UpdateOutcome) -> Option<Seq<char>> {
    match outcome {
        Ok(made) => if !in_flight.splits {
            None
        } else {
            match made {
                Some(made) => if made.split_ids@.len() > 1 {
                    None
                } else {
                    Some(no_debtor_split_id_text())
                },
                None => Some(no_split_ids_text()),
            }
        },
        Err(message) => Some(message@),
    }
}

/// The lines of the batch once the answer `outcome` to `in_flight` is
/// recorded.
pub open spec fn lines_after(
    lines: Seq<(TransactionId, Txn)>,
    in_flight: InFlight,
    outcome: UpdateOutcome,
) -> Seq<(TransactionId, Txn)> {
    match batched_id(in_flight, outcome) {
        Some(id) => lines.push((id, in_flight.line)),
        None => lines,
    }
}

/// The issues of the run once the answer `outcome` to `in_flight` is
/// recorded. A change that failed is an issue and no more: the changes after
/// it are still asked for.
pub open spec fn issues_after(issues: Seq<IssueView>, in_flight: InFlight, outcome: UpdateOutcome) -> Seq<
    IssueView,
> {
    match update_error(in_flight, outcome) {
        Some(message) => issues.push(IssueView::TransactionUpdateError(in_flight.txn_id, message)),
        None => issues,
    }
}

/// Records the ledger's answer to one change: a line of the batch where the
/// change was made, an issue where it was not.
pub fn record_outcome(
    in_flight: InFlight,
    outcome: UpdateOutcome,
    lines: &mut Vec<(TransactionId, Txn)>,
    issues: &mut Vec<Issue>,
)
    ensures
        final(lines)@ == lines_after(old(lines)@, in_flight, outcome),
        issue_views(final(issues)@) == issues_after(issue_views(old(issues)@), in_flight, outcome),
{
    let ghost before = issues@;
    let txn_id = in_flight.txn_id;
    let failed: Option<String> = match outcome {
        Ok(made) => {
            if !in_flight.splits {
                lines.push((txn_id, in_flight.line));
                None
            } else {
                match made {
                    Some(made) => {
                        if made.split_ids.len() > 1 {
                            lines.push((made.split_ids[1], in_flight.line));
                            None
                        } else {
                            Some(
                                String::from_str(
                                    "no item in position 1 of split ids in transaction update response - expected debtor proxy split id",
                                ),
                            )
                        }
                    },
                    None => Some(
                        String::from_str(
                            "no split ids found in transaction update that contained splits",
                        ),
                    ),
                }
            }
        },
        Err(message) => Some(message),
    };
    match failed {
        Some(message) => {
            issues.push(Issue::TransactionUpdateError(txn_id, message));
            assert(issue_views(issues@) =~= issue_views(before).push(
                IssueView::TransactionUpdateError(txn_id, message@),
            ));
        },
        None => {},
    }
}

// ---------------------------------------------------------------------
// Closing the batch
// ---------------------------------------------------------------------

/// The sum of the amounts of `lines`, in cents.
pub open spec fn total_of(lines: Seq<(TransactionId, Txn)>) -> int
    decreases lines.len(),
{
    if lines.len() == 0 {
        0
    } else {
        total_of(lines.drop_last()) + lines.last().1.amount@
    }
}

/// The ids of `lines`, in their order.
pub open spec fn ids_of(lines: Seq<(TransactionId, Txn)>) -> Seq<TransactionId> {
    lines.map_values(|line: (TransactionId, Txn)| line.0)
}

/// What `lines` show, in their order.
pub open spec fn txns_of(lines: Seq<(TransactionId, Txn)>) -> Seq<Txn> {
    lines.map_values(|line: (TransactionId, Txn)| line.1)
}

/// What the user is told of `issue`.
pub open spec fn issue_text(issue: IssueView) -> Seq<char> {
    match issue {
        IssueView::AddTagHasChildren(txn) => {
            "Transaction was tagged for batch, but it has children: "@ + decimal_digits(txn as nat)
        },
        IssueView::SplitTagHasParent(txn) => {
            "Transaction was tagged to split, but it has a parent: "@ + decimal_digits(txn as nat)
        },
        IssueView::SplitTagHasChildren(txn) => {
            "Transaction was tagged to split, but it already has children: "@ + decimal_digits(
                txn as nat,
            )
        },
        IssueView::TransactionUpdateError(txn, e_str) => {
            "Error when updating transaction "@ + decimal_digits(txn as nat) + ": "@ + e_str
        },
    }
}

/// What the user is told of each of `issues`, in their order.
pub open spec fn warnings_of(issues: Seq<IssueView>) -> Seq<Seq<char>> {
    issues.map_values(|issue: IssueView| issue_text(issue))
}

/// What the user is told of `issue`.
pub fn text_for_issue(issue: &Issue) -> (text: String)
    ensures
        text@ == issue_text(issue@),
{
    match issue {
        Issue::AddTagHasChildren(txn) => {
            let mut text = String::from_str(
                "Transaction was tagged for batch, but it has children: ",
            );
            append_decimal(&mut text, *txn as u128);
            text
        },
        Issue::SplitTagHasParent(txn) => {
            let mut text = String::from_str(
                "Transaction was tagged to split, but it has a parent: ",
            );
            append_decimal(&mut text, *txn as u128);
            text
        },
        Issue::SplitTagHasChildren(txn) => {
            let mut text = String::from_str(
                "Transaction was tagged to split, but it already has children: ",
            );
            append_decimal(&mut text, *txn as u128);
            text
        },
        Issue::TransactionUpdateError(txn, e_str) => {
            let mut text = String::from_str("Error when updating transaction ");
            append_decimal(&mut text, *txn as u128);
            text.append(": ");
            append_string(&mut text, e_str);
            text
        },
    }
}

/// What the user is told of each of `issues`, in their order.
pub fn warnings_for(issues: &Vec<Issue>) -> (warnings: Vec<String>)
    ensures
        texts_of(warnings@) == warnings_of(issue_views(issues@)),
{
    let mut warnings: Vec<String> = Vec::new();
    let mut i: usize = 0;
    while i < issues.len()
        invariant
            i <= issues@.len(),
            warnings@.len() == i,
            forall|j: int| 0 <= j < i ==> (#[trigger] warnings@[j])@ == issue_text(issues@[j]@),
        decreases issues@.len() - i,
    {
        warnings.push(text_for_issue(&issues[i]));
        i += 1;
    }
    assert(texts_of(warnings@) =~= warnings_of(issue_views(issues@)));
    warnings
}

/// The sum of the amounts of `lines`; `None` if and only if it is more, or
/// less, than an amount can hold.
pub fn total_amount(lines: &Vec<(TransactionId, Txn)>) -> (total: Option<USD>)
    ensures
        total.is_some() <==> i64::MIN <= total_of(lines@) <= i64::MAX,
        total matches Some(sum) ==> sum@ == total_of(lines@),
{
    let mut sum: i128 = 0;
    let mut i: usize = 0;
    while i < lines.len()
        invariant
            i <= lines@.len(),
            sum == total_of(lines@.take(i as int)),
            -(i as int) * 0x8000_0000_0000_0000 <= sum <= (i as int) * 0x8000_0000_0000_0000,
        decreases lines@.len() - i,
    {
        proof {
            assert(lines@.take(i + 1).drop_last() == lines@.take(i as int));
            lines[i as int].1.amount.lemma_view_range();
        }
        sum = sum + lines[i].1.amount.cents() as i128;
        i += 1;
    }
    assert(lines@.take(i as int) == lines@);
    if sum < i64::MIN as i128 || sum > i64::MAX as i128 {
        None
    } else {
        Some(USD::new_from_cents(sum as i64))
    }
}

/// Whether `batch` and `summary` close a run that batched `lines` and met
/// `issues`: the batch is open, holds the id of every line and the exact sum
/// of their amounts, and the summary shows the same id and sum, every line,
/// and a warning for every issue.
pub open spec fn closes_batch(
    lines: Seq<(TransactionId, Txn)>,
    issues: Seq<IssueView>,
    batch: Batch,
    summary: BatchSummary,
) -> bool {
    &&& batch.amount@ == total_of(lines)
    &&& batch.transaction_ids@ == ids_of(lines)
    &&& batch.reconciliation.is_none()
    &&& summary.batch_id@ == batch.id@
    &&& summary.total_amount == batch.amount
    &&& summary.line_items@ == txns_of(lines)
    &&& texts_of(summary.warnings@) == warnings_of(issues)
}

/// Closes a run under the id `batch_id`: the batch to keep and the summary
/// to send. `None` if and only if the sum of the lines is more, or less,
/// than an amount can hold.
pub fn close_batch(batch_id: String, lines: Vec<(TransactionId, Txn)>, issues: &Vec<Issue>) -> (closed:
    Option<(Batch, BatchSummary)>)
    ensures
        closed.is_some() <==> i64::MIN <= total_of(lines@) <= i64::MAX,
        closed matches Some((batch, summary)) ==> {
            &&& closes_batch(lines@, issue_views(issues@), batch, summary)
            &&& batch.id@ == batch_id@
        },
{
    let total = match total_amount(&lines) {
        Some(total) => total,
        None => {
            return None;
        },
    };
    let ghost all = lines@;
    let mut transaction_ids: Vec<TransactionId> = Vec::new();
    let mut line_items: Vec<Txn> = Vec::new();
    for line in it: lines
        invariant
            it.seq() == all,
            transaction_ids@ == ids_of(all.take(it.index() as int)),
            line_items@ == txns_of(all.take(it.index() as int)),
    {
        proof {
            let i = it.index() as int;
            assert(ids_of(all.take(i + 1)) == ids_of(all.take(i)).push(all[i].0));
            assert(txns_of(all.take(i + 1)) == txns_of(all.take(i)).push(all[i].1));
        }
        transaction_ids.push(line.0);
        line_items.push(line.1);
    }
    assert(all.take(all.len() as int) == all);
    let warnings = warnings_for(issues);
    let summary = BatchSummary {
        batch_id: batch_id.clone(),
        total_amount: total,
        line_items,
        warnings,
    };
    let batch = Batch { id: batch_id, amount: total, transaction_ids, reconciliation: None };
    proof {
        total.lemma_view_injective(batch.amount);
    }
    Some((batch, summary))
}

// ---------------------------------------------------------------------
// The course of one run
// ---------------------------------------------------------------------

/// Why no batch was formed, or why a batch that was formed did not reach
/// its end.
#[derive(Debug, PartialEq)]
pub enum BatchError {
    /// The first day asked for comes after the last.
    StartAfterEnd,
    /// The ledger could not be read, with its message.
    Ledger(String),
    /// No transaction in the days asked for is validly tagged.
    NoValidTransactions,
    /// The sum of the batch is more, or less, than an amount can hold.
    TotalOutOfRange,
    /// Writing the batch record failed, with its message.
    Store(String),
    /// Sending the notification failed, with its message.
    Notify(String),
    /// An event came that the state was not waiting for.
    UnexpectedEvent,
}

impl BatchError {
    /// What the user is told of the error.
    pub open spec fn text(self) -> Seq<char> {
        match self {
            BatchError::StartAfterEnd => "start date cannot be after end date"@,
            BatchError::Ledger(message) => message@,
            BatchError::NoValidTransactions => {
                "No valid transactions found to create batch from"@
            },
            BatchError::TotalOutOfRange => "batch total is out of range"@,
            BatchError::Store(message) => message@,
            BatchError::Notify(message) => message@,
            BatchError::UnexpectedEvent => "event out of turn"@,
        }
    }

    /// What the user is told of the error.
    pub fn message(&self) -> (message: String)
        ensures
            message@ == self.text(),
    {
        match self {
            BatchError::StartAfterEnd => String::from_str("start date cannot be after end date"),
            BatchError::Ledger(message) => message.clone(),
            BatchError::NoValidTransactions => String::from_str(
                "No valid transactions found to create batch from",
            ),
            BatchError::TotalOutOfRange => String::from_str("batch total is out of range"),
            BatchError::Store(message) => message.clone(),
            BatchError::Notify(message) => message.clone(),
            BatchError::UnexpectedEvent => String::from_str("event out of turn"),
        }
    }
}

/// How far the run has come. It starts at `Start` and ends `Done` or
/// `Failed`.
#[derive(Debug, PartialEq)]
pub enum CreateState {
    /// Nothing has been done yet.
    Start,
    /// Waiting for the creditor's transactions.
    Fetching,
    /// Waiting for the ledger's answer to one change, with the changes
    /// still to ask for, and the lines and issues so far.
    Updating {
        in_flight: InFlight,
        queue: Vec<Planned>,
        lines: Vec<(TransactionId, Txn)>,
        issues: Vec<Issue>,
    },
    /// Waiting for the batch record to be written.
    Saving { batch: Batch, summary: BatchSummary },
    /// Waiting for the notification to be sent.
    Notifying { batch: Batch },
    /// The batch is kept and the user is told.
    Done { batch: Batch },
    /// The run was given up.
    Failed { error: BatchError },
}

/// What happened outside since the last action was handed out.
#[derive(Debug, PartialEq)]
pub enum CreateEvent {
    /// The run starts, for the days from `start_date` to `end_date`.
    Begin { start_date: Date, end_date: Date },
    /// The ledger returned transactions, or failed to.
    Transactions(Result<Vec<Transaction>, String>),
    /// The ledger changed a transaction, or failed to.
    Changed(UpdateOutcome),
    /// The batch record was written, or failed to be.
    Saved(Result<(), String>),
    /// The notification was sent, or failed to be.
    Notified(Result<(), String>),
}

/// What is to be done outside next.
#[derive(Debug, PartialEq)]
pub enum CreateAction {
    GetTransactions { start_date: Date, end_date: Date },
    Change { txn_id: TransactionId, action: Action },
    SaveBatch { batch: Batch },
    Notify { summary: BatchSummary },
    /// Nothing: the run is done.
    Finish,
    /// Nothing: the run failed with the error in the state.
    Stop,
}

/// Whether giving up with `error` leads to `next` and `action`.
pub open spec fn gives_up(error: BatchError, next: CreateState, action: CreateAction) -> bool {
    next == (CreateState::Failed { error }) && action is Stop
}

/// Whether a run with the changes of `queue` still to ask for, and with
/// `lines` and `issues` so far, goes on to `next` and `action`: it asks for
/// the first change of `queue`; where there is none left it closes the batch
/// and asks for the record to be written.
pub open spec fn goes_on(
    queue: Seq<Planned>,
    lines: Seq<(TransactionId, Txn)>,
    issues: Seq<IssueView>,
    next: CreateState,
    action: CreateAction,
) -> bool {
    if queue.len() > 0 {
        &&& next matches CreateState::Updating {
            in_flight,
            queue: rest,
            lines: kept_lines,
            issues: kept_issues,
        }
        &&& in_flight == queue[0].in_flight()
        &&& rest@ == queue.skip(1)
        &&& kept_lines@ == lines
        &&& issue_views(kept_issues@) == issues
        &&& action == (CreateAction::Change { txn_id: queue[0].txn_id, action: queue[0].action })
    } else if !(i64::MIN <= total_of(lines) <= i64::MAX) {
        gives_up(BatchError::TotalOutOfRange, next, action)
    } else {
        &&& next matches CreateState::Saving { batch, summary }
        &&& closes_batch(lines, issues, batch, summary)
        &&& action matches CreateAction::SaveBatch { batch: record }
        &&& record@ == batch@
    }
}

/// The one step that the state `state` takes on the event `event`: whether
/// it leads to the state `next` and the action `action`.
pub open spec fn create_transition(
    state: CreateState,
    event: CreateEvent,
    config: Config,
    next: CreateState,
    action: CreateAction,
) -> bool {
    match state {
        CreateState::Start => match event {
            CreateEvent::Begin { start_date, end_date } => if ymd_before(end_date@, start_date@) {
                gives_up(BatchError::StartAfterEnd, next, action)
            } else {
                &&& next == CreateState::Fetching
                &&& action == (CreateAction::GetTransactions { start_date, end_date })
            },
            _ => gives_up(BatchError::UnexpectedEvent, next, action),
        },
        CreateState::Fetching => match event {
            CreateEvent::Transactions(Ok(txns)) => {
                let adds = adds_of(txns@, TAG_BATCH_ADD@);
                let splits = splits_of(txns@, TAG_BATCH_ADD@, TAG_BATCH_SPLIT@);
                if adds.len() + splits.len() == 0 {
                    gives_up(BatchError::NoValidTransactions, next, action)
                } else {
                    &&& next matches CreateState::Updating { in_flight, queue, lines, issues }
                    &&& action matches CreateAction::Change { txn_id, action: first }
                    &&& in_flight == (Planned { txn_id, line: in_flight.line, action: first }).in_flight()
                    &&& is_plan(
                        seq![Planned { txn_id, line: in_flight.line, action: first }] + queue@,
                        adds,
                        splits,
                        config.creditor.proxy_category_id,
                        TAG_BATCH_ADD@,
                        TAG_BATCH_SPLIT@,
                    )
                    &&& lines@.len() == 0
                    &&& issue_views(issues@) == issue_views(
                        issues_of(txns@, TAG_BATCH_ADD@, TAG_BATCH_SPLIT@),
                    )
                }
            },
            CreateEvent::Transactions(Err(message)) => gives_up(
                BatchError::Ledger(message),
                next,
                action,
            ),
            _ => gives_up(BatchError::UnexpectedEvent, next, action),
        },
        CreateState::Updating { in_flight, queue, lines, issues } => match event {
            CreateEvent::Changed(outcome) => goes_on(
                queue@,
                lines_after(lines@, in_flight, outcome),
                issues_after(issue_views(issues@), in_flight, outcome),
                next,
                action,
            ),
            _ => gives_up(BatchError::UnexpectedEvent, next, action),
        },
        CreateState::Saving { batch, summary } => match event {
            CreateEvent::Saved(Ok(_)) => {
                &&& next == (CreateState::Notifying { batch })
                &&& action == (CreateAction::Notify { summary })
            },
            CreateEvent::Saved(Err(message)) => gives_up(BatchError::Store(message), next, action),
            _ => gives_up(BatchError::UnexpectedEvent, next, action),
        },
        CreateState::Notifying { batch } => match event {
            CreateEvent::Notified(Ok(_)) => {
                &&& next == (CreateState::Done { batch })
                &&& action is Finish
            },
            CreateEvent::Notified(Err(message)) => gives_up(
                BatchError::Notify(message),
                next,
                action,
            ),
            _ => gives_up(BatchError::UnexpectedEvent, next, action),
        },
        CreateState::Done { batch } => next == (CreateState::Done { batch }) && action is Finish,
        CreateState::Failed { error } => next == (CreateState::Failed { error }) && action is Stop,
    }
}

fn give_up(error: BatchError) -> (out: (CreateState, CreateAction))
    ensures
        gives_up(error, out.0, out.1),
{
    (CreateState::Failed { error }, CreateAction::Stop)
}

/// Goes on with a run: asks for the next change, or closes the batch under
/// a fresh id where none is left.
fn go_on(queue: Vec<Planned>, lines: Vec<(TransactionId, Txn)>, issues: Vec<Issue>) -> (out: (
    CreateState,
    CreateAction,
))
    ensures
        goes_on(queue@, lines@, issue_views(issues@), out.0, out.1),
{
    if queue.len() > 0 {
        let ghost all = queue@;
        let mut queue = queue;
        let first = queue.remove(0);
        assert(queue@ =~= all.skip(1));
        let in_flight = InFlight {
            txn_id: first.txn_id,
            line: first.line,
            splits: matches!(first.action, Action::UpdateAndSplit(_, _)),
        };
        (
            CreateState::Updating { in_flight, queue, lines, issues },
            CreateAction::Change { txn_id: first.txn_id, action: first.action },
        )
    } else {
        let batch_id = fresh_batch_id();
        match close_batch(batch_id, lines, &issues) {
            None => give_up(BatchError::TotalOutOfRange),
            Some((batch, summary)) => {
                let record = batch.duplicate();
                (CreateState::Saving { batch, summary }, CreateAction::SaveBatch { batch: record })
            },
        }
    }
}

/// Takes the run one step on: from what happened outside to what is to be
/// done outside next. Every change is asked for whatever became of those
/// before it, one at a time and in the order of the plan; the batch is kept
/// only once every change has been answered, and the user is told only once
/// the batch is kept.
pub fn create_step(state: CreateState, event: CreateEvent, config: &Config) -> (out: (
    CreateState,
    CreateAction,
))
    ensures
        create_transition(state, event, *config, out.0, out.1),
{
    match state {
        CreateState::Start => match event {
            CreateEvent::Begin { start_date, end_date } => {
                if start_date.is_after(&end_date) {
                    give_up(BatchError::StartAfterEnd)
                } else {
                    (CreateState::Fetching, CreateAction::GetTransactions { start_date, end_date })
                }
            },
            _ => give_up(BatchError::UnexpectedEvent),
        },
        CreateState::Fetching => match event {
            CreateEvent::Transactions(Ok(txns)) => {
                let add_tag = String::from_str(TAG_BATCH_ADD);
                let split_tag = String::from_str(TAG_BATCH_SPLIT);
                let processed = process_tags(txns, &add_tag, &split_tag);
                if processed.txns_to_add.len() == 0 && processed.txns_to_split.len() == 0 {
                    give_up(BatchError::NoValidTransactions)
                } else {
                    let (plan, issues) = plan_batch(processed, config.creditor.proxy_category_id);
                    let ghost planned = plan@;
                    let out = go_on(plan, Vec::new(), issues);
                    proof {
                        let first = planned[0];
                        assert(seq![first] + planned.skip(1) =~= planned);
                    }
                    out
                }
            },
            CreateEvent::Transactions(Err(message)) => give_up(BatchError::Ledger(message)),
            _ => give_up(BatchError::UnexpectedEvent),
        },
        CreateState::Updating { in_flight, queue, mut lines, mut issues } => match event {
            CreateEvent::Changed(outcome) => {
                record_outcome(in_flight, outcome, &mut lines, &mut issues);
                go_on(queue, lines, issues)
            },
            _ => give_up(BatchError::UnexpectedEvent),
        },
        CreateState::Saving { batch, summary } => match event {
            CreateEvent::Saved(Ok(_)) => (
                CreateState::Notifying { batch },
                CreateAction::Notify { summary },
            ),
            CreateEvent::Saved(Err(message)) => give_up(BatchError::Store(message)),
            _ => give_up(BatchError::UnexpectedEvent),
        },
        CreateState::Notifying { batch } => match event {
            CreateEvent::Notified(Ok(_)) => (CreateState::Done { batch }, CreateAction::Finish),
            CreateEvent::Notified(Err(message)) => give_up(BatchError::Notify(message)),
            _ => give_up(BatchError::UnexpectedEvent),
        },
        CreateState::Done { batch } => (CreateState::Done { batch }, CreateAction::Finish),
        CreateState::Failed { error } => (CreateState::Failed { error }, CreateAction::Stop),
    }
}

/// Starts a run for the days from `start_date` to `end_date`: the first
/// step, which asks for the creditor's transactions of those days, or fails
/// at once where the days are in the wrong order.
pub fn create_batch(start_date: Date, end_date: Date, config: &Config) -> (out: (
    CreateState,
    CreateAction,
))
    ensures
        create_transition(
            CreateState::Start,
            CreateEvent::Begin { start_date, end_date },
            *config,
            out.0,
            out.1,
        ),
{
    create_step(CreateState::Start, CreateEvent::Begin { start_date, end_date }, config)
}

// ---------------------------------------------------------------------
// Dry runs
// ---------------------------------------------------------------------

impl CreateAction {
    /// Whether the action changes anything outside: the ledger, the batch
    /// record, or the user's inbox.
    pub open spec fn changes_outside(self) -> bool {
        self is Change || self is SaveBatch || self is Notify
    }
}

/// Whether `event` stands in for carrying out `action` in the mode `mode`.
/// In a live run nothing does. In a dry run every action that would change
/// something outside is answered with success at once, a change to the
/// ledger with two made-up split ids; reading is still done for real.
pub open spec fn stands_in_for(mode: RunMode, action: CreateAction, event: Option<CreateEvent>) -> bool {
    if mode == RunMode::DryRun && action is Change {
        event matches Some(CreateEvent::Changed(Ok(Some(made)))) && made.split_ids@
            == seq![0u32, 1u32]
    } else if mode == RunMode::DryRun && action is SaveBatch {
        event matches Some(CreateEvent::Saved(Ok(_)))
    } else if mode == RunMode::DryRun && action is Notify {
        event matches Some(CreateEvent::Notified(Ok(_)))
    } else {
        event.is_none()
    }
}

/// The event that stands in for carrying out `action`, if it must not be
/// carried out in the mode `mode`.
pub fn simulated_event(mode: RunMode, action: &CreateAction) -> (event: Option<CreateEvent>)
    ensures
        stands_in_for(mode, *action, event),
        event.is_some() <==> mode == RunMode::DryRun && action.changes_outside(),
{
    match mode {
        RunMode::Live => None,
        RunMode::DryRun => match action {
            CreateAction::Change { .. } => Some(CreateEvent::Changed(dry_run_outcome())),
            CreateAction::SaveBatch { .. } => Some(CreateEvent::Saved(Ok(()))),
            CreateAction::Notify { .. } => Some(CreateEvent::Notified(Ok(()))),
            _ => None,
        },
    }
}

// ---------------------------------------------------------------------
// What holds of every step
// ---------------------------------------------------------------------

/// A run for days in the wrong order fails before the ledger is read.
pub proof fn lemma_days_in_wrong_order_fail_fast(
    start_date: Date,
    end_date: Date,
    config: Config,
    next: CreateState,
    action: CreateAction,
)
    requires
        create_transition(
            CreateState::Start,
            CreateEvent::Begin { start_date, end_date },
            config,
            next,
            action,
        ),
        ymd_before(end_date@, start_date@),
    ensures
        next == (CreateState::Failed { error: BatchError::StartAfterEnd }),
        action is Stop,
{
}

/// A run that finds no validly tagged transaction fails before the ledger
/// is changed.
pub proof fn lemma_nothing_to_batch_fails_fast(
    txns: Vec<Transaction>,
    config: Config,
    next: CreateState,
    action: CreateAction,
)
    requires
        create_transition(
            CreateState::Fetching,
            CreateEvent::Transactions(Ok(txns)),
            config,
            next,
            action,
        ),
        adds_of(txns@, TAG_BATCH_ADD@).len() + splits_of(
            txns@,
            TAG_BATCH_ADD@,
            TAG_BATCH_SPLIT@,
        ).len() == 0,
    ensures
        next == (CreateState::Failed { error: BatchError::NoValidTransactions }),
        action is Stop,
{
}

/// A change that the ledger refuses is an issue and no more: while changes
/// are left to ask for, the next one is asked for whatever the ledger
/// answered to the one before, the refusal is the newest issue, and the
/// lines of the batch are as they were.
pub proof fn lemma_failed_change_does_not_stop(
    state: CreateState,
    message: String,
    config: Config,
    next: CreateState,
    action: CreateAction,
)
    requires
        create_transition(state, CreateEvent::Changed(Err(message)), config, next, action),
        state matches CreateState::Updating { queue, .. } && queue@.len() > 0,
    ensures
        next matches CreateState::Updating { in_flight, queue, lines, issues } && {
            &&& in_flight == state->Updating_queue@[0].in_flight()
            &&& queue@ == state->Updating_queue@.skip(1)
            &&& lines@ == state->Updating_lines@
            &&& issue_views(issues@) == issue_views(state->Updating_issues@).push(
                IssueView::TransactionUpdateError(state->Updating_in_flight.txn_id, message@),
            )
        },
        action == (CreateAction::Change {
            txn_id: state->Updating_queue@[0].txn_id,
            action: state->Updating_queue@[0].action,
        }),
{
}

/// The batch is kept only once every change has been answered, and what is
/// kept is an open batch whose amount is the exact sum of its lines and
/// whose ids are the ids of its lines. The user is told only once the batch
/// is kept.
pub proof fn lemma_batch_is_sum_of_lines(
    state: CreateState,
    event: CreateEvent,
    config: Config,
    next: CreateState,
    action: CreateAction,
)
    requires
        create_transition(state, event, config, next, action),
    ensures
        action is SaveBatch ==> {
            &&& state matches CreateState::Updating { in_flight, queue, lines, issues }
            &&& queue@.len() == 0
            &&& event matches CreateEvent::Changed(outcome)
            &&& action->SaveBatch_batch@.amount == total_of(lines_after(lines@, in_flight, outcome))
            &&& action->SaveBatch_batch@.transaction_ids == ids_of(
                lines_after(lines@, in_flight, outcome),
            )
            &&& action->SaveBatch_batch@.reconciliation.is_none()
            &&& next matches CreateState::Saving { batch, summary }
            &&& batch@ == action->SaveBatch_batch@
        },
        action is Notify ==> {
            &&& state matches CreateState::Saving { batch, summary }
            &&& event matches CreateEvent::Saved(Ok(_))
            &&& action->Notify_summary == summary
            &&& next == (CreateState::Notifying { batch })
        },
{
}

/// The two ends are final: from `Done` and from `Failed` every event leads
/// to the same state, and nothing is done outside. A step into `Failed`
/// asks for nothing outside either.
pub proof fn lemma_ends_are_final(
    state: CreateState,
    event: CreateEvent,
    config: Config,
    next: CreateState,
    action: CreateAction,
)
    requires
        create_transition(state, event, config, next, action),
    ensures
        state is Done || state is Failed ==> next == state && !action.changes_outside(),
        next is Failed <==> action is Stop,
        next is Done <==> action is Finish,
{
}

} // verus!
