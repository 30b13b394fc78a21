//! Turning classified transactions into the changes to ask of the ledger.

use crate::commands::create_batch::process_tags::ProcessTagsOutput;
use crate::lunch_money::api::update_transaction::{
    lines_of,
    texts_of,
    Action,
    SplitUpdateItem,
    SplitUpdateItemView,
    TransactionAndSplitUpdate,
    TransactionUpdate,
    TransactionUpdateItem,
    TransactionUpdateItemView,
};
use crate::lunch_money::model::transaction::{
    names_of,
    Tag,
    Transaction,
    TransactionId,
    TransactionStatus,
};
use crate::usd::{even_split, USD};
use vstd::prelude::*;

verus! {

/// Whether a name is another name than `name`.
pub open spec fn other_than(name: Seq<char>) -> spec_fn(Seq<char>) -> bool {
    |n: Seq<char>| n != name
}

/// `names` without every occurrence of `name`, the others in their order.
pub open spec fn names_without(names: Seq<Seq<char>>, name: Seq<char>) -> Seq<Seq<char>> {
    names.filter(other_than(name))
}

/// The change that batches `txn` in full: it moves to the proxy category,
/// loses the tag that asked for this, and is cleared.
pub open spec fn add_update_of(txn: Transaction, proxy_category_id: u32, add_tag: Seq<char>) -> (
    TransactionId,
    TransactionUpdateItemView,
) {
    (
        txn.id,
        TransactionUpdateItemView {
            payee: None,
            category_id: Some(proxy_category_id),
            notes: None,
            tags: Some(names_without(names_of(txn.tags@), add_tag)),
            status: Some(TransactionStatus::Cleared),
        },
    )
}

/// The change to the parent of a split: it loses the tag that asked for the
/// split and is cleared, and keeps its category.
pub open spec fn split_parent_update_of(txn: Transaction, split_tag: Seq<char>) -> (
    TransactionId,
    TransactionUpdateItemView,
) {
    (
        txn.id,
        TransactionUpdateItemView {
            payee: None,
            category_id: None,
            notes: None,
            tags: Some(names_without(names_of(txn.tags@), split_tag)),
            status: Some(TransactionStatus::Cleared),
        },
    )
}

/// The creditor's line of a split: its part of the amount and nothing else.
pub open spec fn creditor_line(amount: int) -> SplitUpdateItemView {
    SplitUpdateItemView { amount, payee: None, category_id: None, notes: None, date: None }
}

/// The debtor's line of a split: its part of the amount, in the proxy
/// category.
pub open spec fn debtor_line(amount: int, proxy_category_id: u32) -> SplitUpdateItemView {
    SplitUpdateItemView {
        amount,
        payee: None,
        category_id: Some(proxy_category_id),
        notes: None,
        date: None,
    }
}

/// The two lines into which `amount` is split, the creditor's first.
pub open spec fn split_lines_of(amount: int, proxy_category_id: u32, creditor_rounds_away: bool) -> Seq<
    SplitUpdateItemView,
> {
    seq![
        creditor_line(even_split(amount, creditor_rounds_away).0),
        debtor_line(even_split(amount, creditor_rounds_away).1, proxy_category_id),
    ]
}

/// The changes for what `processed_data` holds as one list, without the ids
/// of the transactions: those that batch in full first, then those that
/// split.
pub fn create_actions(processed_data: ProcessTagsOutput, proxy_category_id: u32) -> (actions: Vec<
    Action,
>)
    ensures
        actions@.len() == processed_data.txns_to_add@.len() + processed_data.txns_to_split@.len(),
        forall|i: int|
            0 <= i < processed_data.txns_to_add@.len() ==> {
                &&& (#[trigger] actions@[i]) matches Action::Update(item)
                &&& item@ == add_update_of(
                    processed_data.txns_to_add@[i],
                    proxy_category_id,
                    processed_data.add_tag@,
                ).1
            },
        forall|i: int|
            0 <= i < processed_data.txns_to_split@.len() ==> {
                &&& (#[trigger] actions@[processed_data.txns_to_add@.len() + i])
                    matches Action::UpdateAndSplit(item, lines)
                &&& item@ == split_parent_update_of(
                    processed_data.txns_to_split@[i],
                    processed_data.split_tag@,
                ).1
                &&& exists|creditor_rounds_away: bool|
                    lines_of(lines@) == split_lines_of(
                        processed_data.txns_to_split@[i].amount@,
                        proxy_category_id,
                        creditor_rounds_away,
                    )
            },
{
    let ghost adds = processed_data.txns_to_add@;
    let ghost splits = processed_data.txns_to_split@;
    let ghost add_tag = processed_data.add_tag@;
    let ghost split_tag = processed_data.split_tag@;
    let (add_updates, split_updates) = create_updates(processed_data, proxy_category_id);
    let ghost add_list = add_updates@;
    let ghost split_list = split_updates@;
    let mut actions: Vec<Action> = Vec::new();
    for update in it: add_updates
        invariant
            it.seq() == add_list,
            add_list.len() == adds.len(),
            actions@.len() == it.index(),
            forall|i: int|
                0 <= i < add_list.len() ==> (add_list[i].0, add_list[i].1@) == add_update_of(
                    #[trigger] adds[i],
                    proxy_category_id,
                    add_tag,
                ),
            forall|i: int|
                0 <= i < actions@.len() ==> {
                    &&& (#[trigger] actions@[i]) matches Action::Update(item)
                    &&& item@ == add_update_of(adds[i], proxy_category_id, add_tag).1
                },
    {
        actions.push(Action::Update(update.1));
    }
    for update in it: split_updates
        invariant
            it.seq() == split_list,
            split_list.len() == splits.len(),
            actions@.len() == adds.len() + it.index(),
            forall|i: int|
                0 <= i < split_list.len() ==> {
                    &&& (split_list[i].0, split_list[i].1@) == split_parent_update_of(
                        #[trigger] splits[i],
                        split_tag,
                    )
                    &&& exists|creditor_rounds_away: bool|
                        lines_of(split_list[i].2@) == split_lines_of(
                            splits[i].amount@,
                            proxy_category_id,
                            creditor_rounds_away,
                        )
                },
            forall|i: int|
                0 <= i < adds.len() ==> {
                    &&& (#[trigger] actions@[i]) matches Action::Update(item)
                    &&& item@ == add_update_of(adds[i], proxy_category_id, add_tag).1
                },
            forall|i: int|
                0 <= i < it.index() ==> {
                    &&& (#[trigger] actions@[adds.len() + i]) matches Action::UpdateAndSplit(
                        item,
                        lines,
                    )
                    &&& item@ == split_parent_update_of(splits[i], split_tag).1
                    &&& exists|creditor_rounds_away: bool|
                        lines_of(lines@) == split_lines_of(
                            splits[i].amount@,
                            proxy_category_id,
                            creditor_rounds_away,
                        )
                },
    {
        actions.push(Action::UpdateAndSplit(update.1, update.2));
    }
    actions
}

/// The changes for what `processed_data` holds: one for each transaction to
/// batch in full, and one, with its two lines, for each transaction to
/// split. For each split a fair coin decides who gets the half that is
/// rounded away from zero.
pub fn create_updates(processed_data: ProcessTagsOutput, proxy_category_id: u32) -> (updates: (
    Vec<TransactionUpdate>,
    Vec<TransactionAndSplitUpdate>,
))
    ensures
        updates.0@.len() == processed_data.txns_to_add@.len(),
        forall|i: int|
            0 <= i < updates.0@.len() ==> (updates.0@[i].0, updates.0@[i].1@) == add_update_of(
                #[trigger] processed_data.txns_to_add@[i],
                proxy_category_id,
                processed_data.add_tag@,
            ),
        updates.1@.len() == processed_data.txns_to_split@.len(),
        forall|i: int|
            0 <= i < updates.1@.len() ==> {
                &&& (updates.1@[i].0, updates.1@[i].1@) == split_parent_update_of(
                    #[trigger] processed_data.txns_to_split@[i],
                    processed_data.split_tag@,
                )
                &&& exists|creditor_rounds_away: bool|
                    lines_of(updates.1@[i].2@) == split_lines_of(
                        processed_data.txns_to_split@[i].amount@,
                        proxy_category_id,
                        creditor_rounds_away,
                    )
            },
{
    let add_updates = create_add_updates(
        processed_data.txns_to_add,
        proxy_category_id,
        processed_data.add_tag,
    );
    let split_updates = create_split_updates(
        processed_data.txns_to_split,
        proxy_category_id,
        processed_data.split_tag,
    );
    (add_updates, split_updates)
}

/// The changes that batch `txns_to_add` in full, one for each, in their
/// order.
pub fn create_add_updates(txns_to_add: Vec<Transaction>, proxy_category_id: u32, add_tag: String) -> (updates:
    Vec<TransactionUpdate>)
    ensures
        updates@.len() == txns_to_add@.len(),
        forall|i: int|
            0 <= i < updates@.len() ==> (updates@[i].0, updates@[i].1@) == add_update_of(
                #[trigger] txns_to_add@[i],
                proxy_category_id,
                add_tag@,
            ),
{
    let ghost all = txns_to_add@;
    let mut updates: Vec<TransactionUpdate> = Vec::new();
    for txn in it: txns_to_add
        invariant
            it.seq() == all,
            updates@.len() == it.index(),
            forall|i: int|
                0 <= i < updates@.len() ==> (updates@[i].0, updates@[i].1@) == add_update_of(
                    #[trigger] all[i],
                    proxy_category_id,
                    add_tag@,
                ),
    {
        let update = create_add_update(txn, proxy_category_id, &add_tag);
        updates.push(update);
    }
    updates
}

/// The change that batches `txn` in full.
pub fn create_add_update(txn: Transaction, proxy_category_id: u32, add_tag: &String) -> (update:
    TransactionUpdate)
    ensures
        (update.0, update.1@) == add_update_of(txn, proxy_category_id, add_tag@),
{
    let id = txn.id;
    let item = TransactionUpdateItem {
        payee: None,
        category_id: Some(proxy_category_id),
        notes: None,
        tags: Some(tag_names_removing(txn.tags, add_tag)),
        status: Some(TransactionStatus::Cleared),
    };
    (id, item)
}

/// The changes that split `txn` in two: the change to the parent and the two
/// lines, the half rounded away from zero being the creditor's if
/// `creditor_rounds_away`.
pub fn create_split_update(
    txn: Transaction,
    proxy_category_id: u32,
    split_tag: &String,
    creditor_rounds_away: bool,
) -> (update: TransactionAndSplitUpdate)
    ensures
        (update.0, update.1@) == split_parent_update_of(txn, split_tag@),
        lines_of(update.2@) == split_lines_of(txn.amount@, proxy_category_id, creditor_rounds_away),
{
    let (creditor_amt, debtor_amt) = txn.amount.rounded_even_split(creditor_rounds_away);
    let (creditor_split, debtor_split) = create_splits(creditor_amt, debtor_amt, proxy_category_id);
    let id = txn.id;
    let item = TransactionUpdateItem {
        payee: None,
        category_id: None,
        notes: None,
        tags: Some(tag_names_removing(txn.tags, split_tag)),
        status: Some(TransactionStatus::Cleared),
    };
    let mut lines: Vec<SplitUpdateItem> = Vec::new();
    lines.push(creditor_split);
    lines.push(debtor_split);
    assert(lines_of(lines@) =~= split_lines_of(
        txn.amount@,
        proxy_category_id,
        creditor_rounds_away,
    ));
    (id, item, lines)
}

/// The changes that split `txns_to_split`, one for each, in their order.
/// For each a fair coin decides who gets the half that is rounded away from
/// zero.
pub fn create_split_updates(txns_to_split: Vec<Transaction>, proxy_category_id: u32, split_tag: String) -> (updates:
    Vec<TransactionAndSplitUpdate>)
    ensures
        updates@.len() == txns_to_split@.len(),
        forall|i: int|
            0 <= i < updates@.len() ==> {
                &&& (updates@[i].0, updates@[i].1@) == split_parent_update_of(
                    #[trigger] txns_to_split@[i],
                    split_tag@,
                )
                &&& exists|creditor_rounds_away: bool|
                    lines_of(updates@[i].2@) == split_lines_of(
                        txns_to_split@[i].amount@,
                        proxy_category_id,
                        creditor_rounds_away,
                    )
            },
{
    let ghost all = txns_to_split@;
    let mut updates: Vec<TransactionAndSplitUpdate> = Vec::new();
    for txn in it: txns_to_split
        invariant
            it.seq() == all,
            updates@.len() == it.index(),
            forall|i: int|
                0 <= i < updates@.len() ==> {
                    &&& (updates@[i].0, updates@[i].1@) == split_parent_update_of(
                        #[trigger] all[i],
                        split_tag@,
                    )
                    &&& exists|creditor_rounds_away: bool|
                        lines_of(updates@[i].2@) == split_lines_of(
                            all[i].amount@,
                            proxy_category_id,
                            creditor_rounds_away,
                        )
                },
    {
        let creditor_rounds_away = crate::usd::coin_flip();
        let update = create_split_update(txn, proxy_category_id, &split_tag, creditor_rounds_away);
        updates.push(update);
    }
    updates
}

/// The two lines of a split: the creditor's, which keeps the category of the
/// transaction, and the debtor's, which goes to the proxy category.
pub fn create_splits(creditor_amt: USD, debtor_amt: USD, proxy_category: u32) -> (lines: (
    SplitUpdateItem,
    SplitUpdateItem,
))
    ensures
        lines.0@ == creditor_line(creditor_amt@),
        lines.1@ == debtor_line(debtor_amt@, proxy_category),
{
    let creditor_split = SplitUpdateItem {
        amount: creditor_amt,
        payee: None,
        category_id: None,
        notes: None,
        date: None,
    };
    let debtor_split = SplitUpdateItem {
        amount: debtor_amt,
        payee: None,
        category_id: Some(proxy_category),
        notes: None,
        date: None,
    };
    (creditor_split, debtor_split)
}

/// The names of `tags` without every occurrence of `name_to_remove`, the
/// others in their order.
pub fn tag_names_removing(tags: Vec<Tag>, name_to_remove: &String) -> (names: Vec<String>)
    ensures
        texts_of(names@) == names_without(names_of(tags@), name_to_remove@),
{
    let ghost all = tags@;
    let ghost other = other_than(name_to_remove@);
    let mut names: Vec<String> = Vec::new();
    for tag in it: tags
        invariant
            it.seq() == all,
            other == other_than(name_to_remove@),
            texts_of(names@) == names_of(all.take(it.index() as int)).filter(other),
    {
        proof {
            let i = it.index() as int;
            assert(names_of(all.take(i + 1)) == names_of(all.take(i)).push(all[i].name@));
            names_of(all.take(i)).lemma_filter_push(all[i].name@, other);
        }
        let ghost before = names@;
        if tag.name != *name_to_remove {
            names.push(tag.name);
            assert(texts_of(names@) == texts_of(before).push(tag.name@));
        }
    }
    assert(all.take(all.len() as int) == all);
    names
}

/// The tags that a change leaves on a transaction are its tags without the
/// one that asked for the change, and nothing else is different: going
/// through the names in their order, every name but that one is kept where
/// it stood, as often as it stood there, and that one is dropped wherever it
/// stood.
pub proof fn lemma_names_without(names: Seq<Seq<char>>, name: Seq<char>, last: Seq<char>)
    ensures
        names_without(Seq::empty(), name) == Seq::<Seq<char>>::empty(),
        names_without(names.push(last), name) == if last == name {
            names_without(names, name)
        } else {
            names_without(names, name).push(last)
        },
        !names_without(names, name).contains(name),
        !names.contains(name) ==> names_without(names, name) == names,
{
    let other = other_than(name);
    names.lemma_filter_push(last, other);
    Seq::<Seq<char>>::empty().lemma_filter_len(other);
    if names_without(names, name).contains(name) {
        let i = choose|i: int|
            0 <= i < names_without(names, name).len() && names_without(names, name)[i] == name;
        names.lemma_filter_pred(other, i);
    }
    if !names.contains(name) {
        lemma_nothing_to_remove(names, name);
    }
}

proof fn lemma_nothing_to_remove(names: Seq<Seq<char>>, name: Seq<char>)
    requires
        !names.contains(name),
    ensures
        names_without(names, name) == names,
    decreases names.len(),
{
    let other = other_than(name);
    reveal(Seq::filter);
    if names.len() > 0 {
        assert(names.last() == names[names.len() - 1]);
        assert forall|i: int| 0 <= i < names.drop_last().len() implies names.drop_last()[i]
            != name by {
            assert(names.drop_last()[i] == names[i]);
        }
        lemma_nothing_to_remove(names.drop_last(), name);
        assert(names.drop_last().push(names.last()) == names);
    }
}

} // verus!
