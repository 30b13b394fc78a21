//! Sorting tagged transactions into those to batch in full, those to split,
//! and those that were tagged by mistake.

use crate::lunch_money::model::transaction::{Transaction, TransactionId};
use vstd::prelude::*;

verus! {

/// Something about one transaction that needs the user's attention. An issue
/// never stops the other transactions from being processed.
#[derive(Debug, PartialEq, Clone)]
pub enum Issue {
    AddTagHasChildren(TransactionId),
    SplitTagHasParent(TransactionId),
    SplitTagHasChildren(TransactionId),
    TransactionUpdateError(TransactionId, String),
}

/// An issue with its message as plain text.
pub enum IssueView {
    AddTagHasChildren(TransactionId),
    SplitTagHasParent(TransactionId),
    SplitTagHasChildren(TransactionId),
    TransactionUpdateError(TransactionId, Seq<char>),
}

impl View for Issue {
    type V = IssueView;

    open spec fn view(&self) -> IssueView {
        match *self {
            Issue::AddTagHasChildren(id) => IssueView::AddTagHasChildren(id),
            Issue::SplitTagHasParent(id) => IssueView::SplitTagHasParent(id),
            Issue::SplitTagHasChildren(id) => IssueView::SplitTagHasChildren(id),
            Issue::TransactionUpdateError(id, message) => IssueView::TransactionUpdateError(
                id,
                message@,
            ),
        }
    }
}

/// The issues of `issues`, each by its view.
pub open spec fn issue_views(issues: Seq<Issue>) -> Seq<IssueView> {
    issues.map_values(|issue: Issue| issue@)
}

/// The outcome of classifying a ledger: what to batch in full, what to
/// split, and what was tagged by mistake, with the two tags that were looked
/// for.
#[derive(Debug, PartialEq)]
pub struct ProcessTagsOutput {
    pub add_tag: String,
    pub split_tag: String,
    pub txns_to_add: Vec<Transaction>,
    pub txns_to_split: Vec<Transaction>,
    pub issues: Vec<Issue>,
}

/// Whether `txn` is tagged to be batched in full. Pending transactions are
/// never eligible.
pub open spec fn tagged_to_add(txn: Transaction, add_tag: Seq<char>) -> bool {
    !txn.pending() && txn.has_tag(add_tag)
}

/// Whether `txn` is tagged to be split. The tag to batch in full wins over
/// the tag to split where a transaction carries both.
pub open spec fn tagged_to_split(txn: Transaction, add_tag: Seq<char>, split_tag: Seq<char>) -> bool {
    !txn.pending() && !txn.has_tag(add_tag) && txn.has_tag(split_tag)
}

/// What is wrong with batching `txn` in full, if anything: it has been split
/// at the ledger already.
pub open spec fn issue_to_add(txn: Transaction) -> Option<Issue> {
    if txn.has_children {
        Some(Issue::AddTagHasChildren(txn.id))
    } else {
        None
    }
}

/// What is wrong with splitting `txn`, if anything: it has been split
/// already, or is itself a part of a split.
pub open spec fn issue_to_split(txn: Transaction) -> Option<Issue> {
    if txn.has_children {
        Some(Issue::SplitTagHasChildren(txn.id))
    } else if txn.parent_id.is_some() {
        Some(Issue::SplitTagHasParent(txn.id))
    } else {
        None
    }
}

/// The transactions of `txns` tagged to be batched in full, in their order.
pub open spec fn provisional_adds(txns: Seq<Transaction>, add_tag: Seq<char>) -> Seq<Transaction> {
    txns.filter(|txn: Transaction| tagged_to_add(txn, add_tag))
}

/// The transactions of `txns` tagged to be split, in their order.
pub open spec fn provisional_splits(
    txns: Seq<Transaction>,
    add_tag: Seq<char>,
    split_tag: Seq<char>,
) -> Seq<Transaction> {
    txns.filter(|txn: Transaction| tagged_to_split(txn, add_tag, split_tag))
}

/// The transactions of `txns` that are batched in full.
pub open spec fn adds_of(txns: Seq<Transaction>, add_tag: Seq<char>) -> Seq<Transaction> {
    provisional_adds(txns, add_tag).filter(|txn: Transaction| issue_to_add(txn).is_none())
}

/// The transactions of `txns` that are split.
pub open spec fn splits_of(txns: Seq<Transaction>, add_tag: Seq<char>, split_tag: Seq<char>) -> Seq<
    Transaction,
> {
    provisional_splits(txns, add_tag, split_tag).filter(
        |txn: Transaction| issue_to_split(txn).is_none(),
    )
}

/// The issues of the transactions of `txns` tagged to be batched in full,
/// in their order.
pub open spec fn add_issues_of(txns: Seq<Transaction>, add_tag: Seq<char>) -> Seq<Issue> {
    provisional_adds(txns, add_tag).filter_map(|txn: Transaction| issue_to_add(txn))
}

/// The issues of the transactions of `txns` tagged to be split, in their
/// order.
pub open spec fn split_issues_of(
    txns: Seq<Transaction>,
    add_tag: Seq<char>,
    split_tag: Seq<char>,
) -> Seq<Issue> {
    provisional_splits(txns, add_tag, split_tag).filter_map(
        |txn: Transaction| issue_to_split(txn),
    )
}

/// The issues that `txns` raise: those of the transactions tagged to be
/// batched in full, then those of the transactions tagged to be split.
pub open spec fn issues_of(txns: Seq<Transaction>, add_tag: Seq<char>, split_tag: Seq<char>) -> Seq<
    Issue,
> {
    add_issues_of(txns, add_tag) + split_issues_of(txns, add_tag, split_tag)
}

/// Classifies the transactions of a ledger by their tags. Pending
/// transactions are passed over; of the others, those tagged `add_tag` are
/// to be batched in full, and those tagged `split_tag` and not `add_tag` are
/// to be split. One that has been split already, or, if it is to be split,
/// is itself a part of a split, is set aside with an issue instead.
pub fn process_tags(in_txns: Vec<Transaction>, add_tag: &String, split_tag: &String) -> (out:
    ProcessTagsOutput)
    ensures
        out.add_tag@ == add_tag@,
        out.split_tag@ == split_tag@,
        out.txns_to_add@ == adds_of(in_txns@, add_tag@),
        out.txns_to_split@ == splits_of(in_txns@, add_tag@, split_tag@),
        out.issues@ == issues_of(in_txns@, add_tag@, split_tag@),
{
    let ghost all = in_txns@;
    let ghost to_add = |txn: Transaction| tagged_to_add(txn, add_tag@);
    let ghost to_split = |txn: Transaction| tagged_to_split(txn, add_tag@, split_tag@);
    let mut add: Vec<Transaction> = Vec::new();
    let mut split: Vec<Transaction> = Vec::new();
    // Pending transactions are passed over, whatever their tags.
    for txn in it: in_txns
        invariant
            it.seq() == all,
            add@ == all.take(it.index() as int).filter(to_add),
            split@ == all.take(it.index() as int).filter(to_split),
            to_add == |txn: Transaction| tagged_to_add(txn, add_tag@),
            to_split == |txn: Transaction| tagged_to_split(txn, add_tag@, split_tag@),
    {
        proof {
            let i = it.index() as int;
            assert(all.take(i + 1) == all.take(i).push(all[i]));
            all.take(i).lemma_filter_push(all[i], to_add);
            all.take(i).lemma_filter_push(all[i], to_split);
        }
        if !txn.is_unsettled() {
            if txn.is_tagged(add_tag) {
                add.push(txn);
            } else if txn.is_tagged(split_tag) {
                split.push(txn);
            }
        }
    }
    assert(all.take(all.len() as int) == all);
    let (txns_to_add, mut issues) = filter_invalid_txns_to_add(add);
    let (txns_to_split, mut new_issues) = filter_invalid_txns_to_split(split);
    issues.append(&mut new_issues);
    ProcessTagsOutput {
        add_tag: add_tag.clone(),
        split_tag: split_tag.clone(),
        txns_to_add,
        txns_to_split,
        issues,
    }
}

/// Sets aside the transactions that cannot be batched in full, with an issue
/// for each.
fn filter_invalid_txns_to_add(txns: Vec<Transaction>) -> (out: (Vec<Transaction>, Vec<Issue>))
    ensures
        out.0@ == txns@.filter(|txn: Transaction| issue_to_add(txn).is_none()),
        out.1@ == txns@.filter_map(|txn: Transaction| issue_to_add(txn)),
{
    let ghost all = txns@;
    let ghost keep = |txn: Transaction| issue_to_add(txn).is_none();
    let ghost issue = |txn: Transaction| issue_to_add(txn);
    let mut valid: Vec<Transaction> = Vec::new();
    let mut issues: Vec<Issue> = Vec::new();
    for txn in it: txns
        invariant
            it.seq() == all,
            valid@ == all.take(it.index() as int).filter(keep),
            issues@ == all.take(it.index() as int).filter_map(issue),
            keep == |txn: Transaction| issue_to_add(txn).is_none(),
            issue == |txn: Transaction| issue_to_add(txn),
    {
        proof {
            let i = it.index() as int;
            assert(all.take(i + 1) == all.take(i).push(all[i]));
            all.take(i).lemma_filter_push(all[i], keep);
            all.lemma_filter_map_take_succ(issue, i);
        }
        if txn.has_children {
            // Already split at the ledger: tagging it was a mistake.
            issues.push(Issue::AddTagHasChildren(txn.id));
        } else {
            valid.push(txn);
        }
    }
    assert(all.take(all.len() as int) == all);
    (valid, issues)
}

/// Sets aside the transactions that cannot be split, with an issue for each.
fn filter_invalid_txns_to_split(txns: Vec<Transaction>) -> (out: (Vec<Transaction>, Vec<Issue>))
    ensures
        out.0@ == txns@.filter(|txn: Transaction| issue_to_split(txn).is_none()),
        out.1@ == txns@.filter_map(|txn: Transaction| issue_to_split(txn)),
{
    let ghost all = txns@;
    let ghost keep = |txn: Transaction| issue_to_split(txn).is_none();
    let ghost issue = |txn: Transaction| issue_to_split(txn);
    let mut valid: Vec<Transaction> = Vec::new();
    let mut issues: Vec<Issue> = Vec::new();
    for txn in it: txns
        invariant
            it.seq() == all,
            valid@ == all.take(it.index() as int).filter(keep),
            issues@ == all.take(it.index() as int).filter_map(issue),
            keep == |txn: Transaction| issue_to_split(txn).is_none(),
            issue == |txn: Transaction| issue_to_split(txn),
    {
        proof {
            let i = it.index() as int;
            assert(all.take(i + 1) == all.take(i).push(all[i]));
            all.take(i).lemma_filter_push(all[i], keep);
            all.lemma_filter_map_take_succ(issue, i);
        }
        if txn.has_children {
            // Already split at the ledger.
            issues.push(Issue::SplitTagHasChildren(txn.id));
        } else if txn.parent_id.is_some() {
            // Itself a part of a split.
            issues.push(Issue::SplitTagHasParent(txn.id));
        } else {
            valid.push(txn);
        }
    }
    assert(all.take(all.len() as int) == all);
    (valid, issues)
}

/// What is batched in full was tagged for that, is not pending and has not
/// been split; what is split was tagged for that and not for batching in
/// full, is not pending, has not been split and is no part of a split. So
/// nothing is in both lists, a transaction tagged to be batched in full is
/// never split, one tagged only to be split is never batched in full, and a
/// pending transaction is in neither list, whatever its tags.
pub proof fn lemma_classes_are_exclusive(
    txns: Seq<Transaction>,
    add_tag: Seq<char>,
    split_tag: Seq<char>,
    txn: Transaction,
)
    ensures
        adds_of(txns, add_tag).contains(txn) ==> {
            &&& txns.contains(txn)
            &&& tagged_to_add(txn, add_tag)
            &&& !txn.has_children
        },
        splits_of(txns, add_tag, split_tag).contains(txn) ==> {
            &&& txns.contains(txn)
            &&& tagged_to_split(txn, add_tag, split_tag)
            &&& !txn.has_children
            &&& txn.parent_id.is_none()
        },
        txn.has_tag(add_tag) ==> !splits_of(txns, add_tag, split_tag).contains(txn),
        !txn.has_tag(add_tag) ==> !adds_of(txns, add_tag).contains(txn),
        txn.pending() ==> !adds_of(txns, add_tag).contains(txn) && !splits_of(
            txns,
            add_tag,
            split_tag,
        ).contains(txn),
        !(adds_of(txns, add_tag).contains(txn) && splits_of(txns, add_tag, split_tag).contains(
            txn,
        )),
{
    let to_add = |txn: Transaction| tagged_to_add(txn, add_tag);
    let to_split = |txn: Transaction| tagged_to_split(txn, add_tag, split_tag);
    let add_ok = |txn: Transaction| issue_to_add(txn).is_none();
    let split_ok = |txn: Transaction| issue_to_split(txn).is_none();
    if adds_of(txns, add_tag).contains(txn) {
        let i = choose|i: int|
            0 <= i < adds_of(txns, add_tag).len() && adds_of(txns, add_tag)[i] == txn;
        provisional_adds(txns, add_tag).lemma_filter_pred(add_ok, i);
        provisional_adds(txns, add_tag).lemma_filter_contains_rev(add_ok, txn);
        let j = choose|j: int|
            0 <= j < provisional_adds(txns, add_tag).len() && provisional_adds(txns, add_tag)[j]
                == txn;
        txns.lemma_filter_pred(to_add, j);
        txns.lemma_filter_contains_rev(to_add, txn);
    }
    if splits_of(txns, add_tag, split_tag).contains(txn) {
        let i = choose|i: int|
            0 <= i < splits_of(txns, add_tag, split_tag).len() && splits_of(
                txns,
                add_tag,
                split_tag,
            )[i] == txn;
        provisional_splits(txns, add_tag, split_tag).lemma_filter_pred(split_ok, i);
        provisional_splits(txns, add_tag, split_tag).lemma_filter_contains_rev(split_ok, txn);
        let j = choose|j: int|
            0 <= j < provisional_splits(txns, add_tag, split_tag).len() && provisional_splits(
                txns,
                add_tag,
                split_tag,
            )[j] == txn;
        txns.lemma_filter_pred(to_split, j);
        txns.lemma_filter_contains_rev(to_split, txn);
    }
}

/// Every transaction of the input that is validly tagged is in its list.
pub proof fn lemma_classes_are_complete(
    txns: Seq<Transaction>,
    add_tag: Seq<char>,
    split_tag: Seq<char>,
    i: int,
)
    requires
        0 <= i < txns.len(),
    ensures
        tagged_to_add(txns[i], add_tag) && !txns[i].has_children ==> adds_of(
            txns,
            add_tag,
        ).contains(txns[i]),
        tagged_to_split(txns[i], add_tag, split_tag) && !txns[i].has_children
            && txns[i].parent_id.is_none() ==> splits_of(txns, add_tag, split_tag).contains(
            txns[i],
        ),
{
    let to_add = |txn: Transaction| tagged_to_add(txn, add_tag);
    let to_split = |txn: Transaction| tagged_to_split(txn, add_tag, split_tag);
    let add_ok = |txn: Transaction| issue_to_add(txn).is_none();
    let split_ok = |txn: Transaction| issue_to_split(txn).is_none();
    if tagged_to_add(txns[i], add_tag) && !txns[i].has_children {
        txns.lemma_filter_contains(to_add, i);
        let j = choose|j: int|
            0 <= j < provisional_adds(txns, add_tag).len() && provisional_adds(txns, add_tag)[j]
                == txns[i];
        provisional_adds(txns, add_tag).lemma_filter_contains(add_ok, j);
    }
    if tagged_to_split(txns[i], add_tag, split_tag) && !txns[i].has_children
        && txns[i].parent_id.is_none() {
        txns.lemma_filter_contains(to_split, i);
        let j = choose|j: int|
            0 <= j < provisional_splits(txns, add_tag, split_tag).len() && provisional_splits(
                txns,
                add_tag,
                split_tag,
            )[j] == txns[i];
        provisional_splits(txns, add_tag, split_tag).lemma_filter_contains(split_ok, j);
    }
}

/// What one more transaction at the end of the input adds to the outcome.
/// One that is not validly tagged adds to no list. One tagged to be batched
/// in full that has been split already adds exactly one issue,
/// `AddTagHasChildren` with its id, and is not batched. One tagged to be
/// split that has been split already adds exactly one issue,
/// `SplitTagHasChildren` with its id; one that has not, but is a part of a
/// split, adds exactly one issue, `SplitTagHasParent` with its id; neither is
/// split. Every other tagged transaction adds itself to its list and no
/// issue.
pub proof fn lemma_one_more_transaction(
    txns: Seq<Transaction>,
    add_tag: Seq<char>,
    split_tag: Seq<char>,
    txn: Transaction,
)
    ensures
        adds_of(txns.push(txn), add_tag) == if tagged_to_add(txn, add_tag) && !txn.has_children {
            adds_of(txns, add_tag).push(txn)
        } else {
            adds_of(txns, add_tag)
        },
        add_issues_of(txns.push(txn), add_tag) == if tagged_to_add(txn, add_tag)
            && txn.has_children {
            add_issues_of(txns, add_tag).push(Issue::AddTagHasChildren(txn.id))
        } else {
            add_issues_of(txns, add_tag)
        },
        splits_of(txns.push(txn), add_tag, split_tag) == if tagged_to_split(
            txn,
            add_tag,
            split_tag,
        ) && !txn.has_children && txn.parent_id.is_none() {
            splits_of(txns, add_tag, split_tag).push(txn)
        } else {
            splits_of(txns, add_tag, split_tag)
        },
        split_issues_of(txns.push(txn), add_tag, split_tag) == if tagged_to_split(
            txn,
            add_tag,
            split_tag,
        ) && txn.has_children {
            split_issues_of(txns, add_tag, split_tag).push(Issue::SplitTagHasChildren(txn.id))
        } else if tagged_to_split(txn, add_tag, split_tag) && txn.parent_id.is_some() {
            split_issues_of(txns, add_tag, split_tag).push(Issue::SplitTagHasParent(txn.id))
        } else {
            split_issues_of(txns, add_tag, split_tag)
        },
{
    let to_add = |txn: Transaction| tagged_to_add(txn, add_tag);
    let to_split = |txn: Transaction| tagged_to_split(txn, add_tag, split_tag);
    let add_ok = |txn: Transaction| issue_to_add(txn).is_none();
    let split_ok = |txn: Transaction| issue_to_split(txn).is_none();
    let add_issue = |txn: Transaction| issue_to_add(txn);
    let split_issue = |txn: Transaction| issue_to_split(txn);
    txns.lemma_filter_push(txn, to_add);
    txns.lemma_filter_push(txn, to_split);
    let adds = provisional_adds(txns, add_tag);
    let splits = provisional_splits(txns, add_tag, split_tag);
    adds.lemma_filter_push(txn, add_ok);
    splits.lemma_filter_push(txn, split_ok);
    assert(adds.push(txn).drop_last() == adds);
    assert(splits.push(txn).drop_last() == splits);
    assert(adds.push(txn).filter_map(add_issue) == match issue_to_add(txn) {
        Some(issue) => adds.filter_map(add_issue).push(issue),
        None => adds.filter_map(add_issue),
    });
    assert(splits.push(txn).filter_map(split_issue) == match issue_to_split(txn) {
        Some(issue) => splits.filter_map(split_issue).push(issue),
        None => splits.filter_map(split_issue),
    });
}

/// Mapping what is kept of two sequences, one after the other, is mapping
/// what is kept of each.
proof fn lemma_filter_map_add<A, B>(a: Seq<A>, b: Seq<A>, f: spec_fn(A) -> Option<B>)
    ensures
        (a + b).filter_map(f) == a.filter_map(f) + b.filter_map(f),
    decreases b.len(),
{
    if b.len() == 0 {
        assert(a + b == a);
        assert(a.filter_map(f) + b.filter_map(f) == a.filter_map(f));
    } else {
        lemma_filter_map_add(a, b.drop_last(), f);
        assert((a + b).drop_last() == a + b.drop_last());
        assert((a + b).last() == b.last());
        match f(b.last()) {
            Some(kept) => {
                assert((a.filter_map(f) + b.drop_last().filter_map(f)) + seq![kept]
                    == a.filter_map(f) + (b.drop_last().filter_map(f) + seq![kept]));
            },
            None => {},
        }
    }
}

/// Every transaction is classified on its own: the outcome for two ledgers,
/// one after the other, is the outcome for the first followed by the
/// outcome for the second, list by list. So a transaction adds what it adds
/// wherever it stands among the others.
pub proof fn lemma_outcome_is_put_together(
    first: Seq<Transaction>,
    second: Seq<Transaction>,
    add_tag: Seq<char>,
    split_tag: Seq<char>,
)
    ensures
        adds_of(first + second, add_tag) == adds_of(first, add_tag) + adds_of(second, add_tag),
        splits_of(first + second, add_tag, split_tag) == splits_of(first, add_tag, split_tag)
            + splits_of(second, add_tag, split_tag),
        add_issues_of(first + second, add_tag) == add_issues_of(first, add_tag) + add_issues_of(
            second,
            add_tag,
        ),
        split_issues_of(first + second, add_tag, split_tag) == split_issues_of(
            first,
            add_tag,
            split_tag,
        ) + split_issues_of(second, add_tag, split_tag),
{
    let to_add = |txn: Transaction| tagged_to_add(txn, add_tag);
    let to_split = |txn: Transaction| tagged_to_split(txn, add_tag, split_tag);
    let add_ok = |txn: Transaction| issue_to_add(txn).is_none();
    let split_ok = |txn: Transaction| issue_to_split(txn).is_none();
    let add_issue = |txn: Transaction| issue_to_add(txn);
    let split_issue = |txn: Transaction| issue_to_split(txn);
    Seq::filter_distributes_over_add(first, second, to_add);
    Seq::filter_distributes_over_add(first, second, to_split);
    Seq::filter_distributes_over_add(first.filter(to_add), second.filter(to_add), add_ok);
    Seq::filter_distributes_over_add(first.filter(to_split), second.filter(to_split), split_ok);
    lemma_filter_map_add(first.filter(to_add), second.filter(to_add), add_issue);
    lemma_filter_map_add(first.filter(to_split), second.filter(to_split), split_issue);
}

} // verus!
