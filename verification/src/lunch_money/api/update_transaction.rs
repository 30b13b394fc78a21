//! Changes asked of the ledger, and what it answers.

use crate::date_helpers::Date;
use crate::lunch_money::model::transaction::{TransactionId, TransactionStatus};
use crate::text::{append_decimal, append_string, decimal_digits};
use crate::usd::USD;
use vstd::prelude::*;

verus! {

/// A change of fields of the transaction with the given id.
pub type TransactionUpdate = (TransactionId, TransactionUpdateItem);

/// New values for some fields of a transaction. A field left `None` is not
/// touched.
#[derive(Debug, PartialEq, Clone)]
pub struct TransactionUpdateItem {
    pub payee: Option<String>,
    pub category_id: Option<u32>,
    pub notes: Option<String>,
    pub tags: Option<Vec<String>>,
    pub status: Option<TransactionStatus>,
}

/// A split of the transaction with the given id into lines.
pub type SplitUpdate = (TransactionId, Vec<SplitUpdateItem>);

/// One line of a split: a part of the parent's amount with its own fields.
#[derive(Debug, PartialEq, Clone)]
pub struct SplitUpdateItem {
    pub amount: USD,
    pub payee: Option<String>,
    pub category_id: Option<u32>,
    pub notes: Option<String>,
    pub date: Option<Date>,
}

/// A change of fields of the transaction with the given id, and its split
/// into lines, at once.
pub type TransactionAndSplitUpdate = (TransactionId, TransactionUpdateItem, Vec<SplitUpdateItem>);

/// The ids of the transactions that a split made, in the order of the lines
/// that were sent.
#[derive(Debug, PartialEq, Clone)]
pub struct SplitResponse {
    pub split_ids: Vec<TransactionId>,
}

/// The text of `s`, if there is one.
pub open spec fn text_of(s: Option<String>) -> Option<Seq<char>> {
    match s {
        Some(s) => Some(s@),
        None => None,
    }
}

/// The texts of `names`, in their order.
pub open spec fn texts_of(names: Seq<String>) -> Seq<Seq<char>> {
    names.map_values(|name: String| name@)
}

/// New values for fields of a transaction, with texts as plain text.
pub struct TransactionUpdateItemView {
    pub payee: Option<Seq<char>>,
    pub category_id: Option<u32>,
    pub notes: Option<Seq<char>>,
    pub tags: Option<Seq<Seq<char>>>,
    pub status: Option<TransactionStatus>,
}

impl View for TransactionUpdateItem {
    type V = TransactionUpdateItemView;

    open spec fn view(&self) -> TransactionUpdateItemView {
        TransactionUpdateItemView {
            payee: text_of(self.payee),
            category_id: self.category_id,
            notes: text_of(self.notes),
            tags: match self.tags {
                Some(tags) => Some(texts_of(tags@)),
                None => None,
            },
            status: self.status,
        }
    }
}

/// One line of a split, with its amount in cents and texts as plain text.
pub struct SplitUpdateItemView {
    pub amount: int,
    pub payee: Option<Seq<char>>,
    pub category_id: Option<u32>,
    pub notes: Option<Seq<char>>,
    pub date: Option<(int, int, int)>,
}

impl View for SplitUpdateItem {
    type V = SplitUpdateItemView;

    open spec fn view(&self) -> SplitUpdateItemView {
        SplitUpdateItemView {
            amount: self.amount@,
            payee: text_of(self.payee),
            category_id: self.category_id,
            notes: text_of(self.notes),
            date: match self.date {
                Some(date) => Some(date@),
                None => None,
            },
        }
    }
}

/// The lines of a split, each by its view.
pub open spec fn lines_of(lines: Seq<SplitUpdateItem>) -> Seq<SplitUpdateItemView> {
    lines.map_values(|line: SplitUpdateItem| line@)
}

/// One change to one transaction: new field values, a split into lines, or
/// both at once.
#[derive(Debug, PartialEq)]
pub enum Action {
    Update(TransactionUpdateItem),
    Split(Vec<SplitUpdateItem>),
    UpdateAndSplit(TransactionUpdateItem, Vec<SplitUpdateItem>),
}

/// The two parts of the request that asks the ledger for a change, each
/// present only where the change has it.
#[derive(Debug, PartialEq)]
pub struct RequestBodySource<'a> {
    pub transaction: Option<&'a TransactionUpdateItem>,
    pub split: Option<&'a Vec<SplitUpdateItem>>,
}

/// The parts of the request that asks for `action`.
pub fn request_body<'a>(action: &'a Action) -> (body: RequestBodySource<'a>)
    ensures
        body == match *action {
            Action::Update(update) => (RequestBodySource { transaction: Some(&update), split: None }),
            Action::Split(splits) => (RequestBodySource { transaction: None, split: Some(&splits) }),
            Action::UpdateAndSplit(update, splits) => (RequestBodySource {
                transaction: Some(&update),
                split: Some(&splits),
            }),
        },
{
    match action {
        Action::Update(update) => RequestBodySource { transaction: Some(update), split: None },
        Action::Split(splits) => RequestBodySource { transaction: None, split: Some(splits) },
        Action::UpdateAndSplit(update, splits) => RequestBodySource {
            transaction: Some(update),
            split: Some(splits),
        },
    }
}

/// What the ledger answers to a change: that it was made, with the ids of a
/// split's lines if there was a split, or the errors that it found.
#[derive(Debug, PartialEq)]
pub enum Response {
    Success { updated: bool, split: Option<Vec<TransactionId>> },
    Error { error: Vec<String> },
}

/// The outcome of a change: the ids of a split's lines if there was a split,
/// or the message of what went wrong.
pub type UpdateOutcome = Result<Option<SplitResponse>, String>;

/// What is noted where the ledger answers that it changed nothing.
pub open spec fn not_updated_text() -> Seq<char> {
    "transaction not updated, no error given"@
}

/// What is noted where the ledger answers with an error and names none.
pub open spec fn unspecified_error_text(http_code: Seq<char>) -> Seq<char> {
    "unspecified error with response code "@ + http_code
}

/// What is noted where the ledger names no lines of a split.
pub open spec fn no_split_ids_text() -> Seq<char> {
    "no split ids found in transaction update that contained splits"@
}

/// Whether `outcome` is what the ledger's answer `response`, sent with the
/// status `http_code`, means: the split ids where the change was made, else
/// the first error named, or a message of our own where none was.
pub open spec fn is_outcome_of(response: Response, http_code: Seq<char>, outcome: UpdateOutcome) -> bool {
    match response {
        Response::Success { updated, split } => if updated {
            match split {
                Some(ids) => outcome matches Ok(Some(made)) && made.split_ids == ids,
                None => outcome == Ok::<Option<SplitResponse>, String>(None),
            }
        } else {
            outcome matches Err(message) && message@ == not_updated_text()
        },
        Response::Error { error } => {
            &&& outcome matches Err(message)
            &&& message@ == if error@.len() > 0 {
                error@[0]@
            } else {
                unspecified_error_text(http_code)
            }
        },
    }
}

/// Reads the ledger's answer to a change.
pub fn interpret_response(response: Response, http_code: &String) -> (outcome: UpdateOutcome)
    ensures
        is_outcome_of(response, http_code@, outcome),
{
    match response {
        Response::Success { updated, split } => {
            if updated {
                match split {
                    Some(ids) => Ok(Some(SplitResponse { split_ids: ids })),
                    None => Ok(None),
                }
            } else {
                Err(String::from_str("transaction not updated, no error given"))
            }
        },
        Response::Error { error } => {
            if error.len() > 0 {
                Err(error[0].clone())
            } else {
                let mut message = String::from_str("unspecified error with response code ");
                append_string(&mut message, http_code);
                Err(message)
            }
        },
    }
}

/// The answer that stands in for the ledger's in a dry run: a change that
/// was made, with two made-up split ids.
pub fn dry_run_outcome() -> (outcome: UpdateOutcome)
    ensures
        outcome matches Ok(Some(made)) && made.split_ids@ == seq![0u32, 1u32],
{
    let mut split_ids: Vec<TransactionId> = Vec::new();
    split_ids.push(0);
    split_ids.push(1);
    Ok(Some(SplitResponse { split_ids }))
}

/// The outcome of a change of fields alone: whether it was made. Split ids
/// are of no interest.
pub fn update_result(outcome: UpdateOutcome) -> (result: Result<(), String>)
    ensures
        result == match outcome {
            Ok(_) => Ok::<(), String>(()),
            Err(message) => Err::<(), String>(message),
        },
{
    match outcome {
        Ok(_) => Ok(()),
        Err(message) => Err(message),
    }
}

/// The outcome of a change with a split: the split ids, which must be there.
pub fn split_result(outcome: UpdateOutcome) -> (result: Result<SplitResponse, String>)
    ensures
        match outcome {
            Ok(Some(made)) => result == Ok::<SplitResponse, String>(made),
            Ok(None) => result matches Err(message) && message@ == no_split_ids_text(),
            Err(message) => result == Err::<SplitResponse, String>(message),
        },
{
    match outcome {
        Ok(Some(made)) => Ok(made),
        Ok(None) => Err(
            String::from_str("no split ids found in transaction update that contained splits"),
        ),
        Err(message) => Err(message),
    }
}

/// The address at which the ledger takes changes to the transaction
/// `txn_id`.
pub fn transaction_url(txn_id: TransactionId) -> (url: String)
    ensures
        url@ == "https://dev.lunchmoney.app/v1/transactions/"@ + decimal_digits(txn_id as nat),
{
    let mut url = String::from_str("https://dev.lunchmoney.app/v1/transactions/");
    append_decimal(&mut url, txn_id as u128);
    url
}

/// The authorization header that carries `auth_token`.
pub fn auth_header(auth_token: &String) -> (header: String)
    ensures
        header@ == "Bearer "@ + auth_token@,
{
    let mut header = String::from_str("Bearer ");
    append_string(&mut header, auth_token);
    header
}

} // verus!
