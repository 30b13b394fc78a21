//! Batch records and where they are kept.

use crate::lunch_money::model::transaction::TransactionId;
use crate::text::append_string;
use crate::usd::USD;
use vstd::prelude::*;

verus! {

/// A group of expenses settled together. Without a reconciliation it is
/// open; once it has one, nothing else of it changes.
#[derive(Debug, PartialEq)]
pub struct Batch {
    pub id: String,
    pub amount: USD,
    pub transaction_ids: Vec<TransactionId>,
    pub reconciliation: Option<Settlement>,
}

/// The two repayment transactions, one at each party, that settled a batch.
#[derive(Debug, PartialEq, Eq, Clone, Copy, Structural)]
pub struct Settlement {
    pub settlement_credit_id: TransactionId,
    pub settlement_debit_id: TransactionId,
}

/// A batch with its id as plain text and its amount in cents.
pub struct BatchView {
    pub id: Seq<char>,
    pub amount: int,
    pub transaction_ids: Seq<TransactionId>,
    pub reconciliation: Option<Settlement>,
}

impl View for Batch {
    type V = BatchView;

    open spec fn view(&self) -> BatchView {
        BatchView {
            id: self.id@,
            amount: self.amount@,
            transaction_ids: self.transaction_ids@,
            reconciliation: self.reconciliation,
        }
    }
}

impl Batch {
    /// Whether the batch has not been reconciled yet.
    pub fn is_open(&self) -> (open: bool)
        ensures
            open == self.reconciliation.is_none(),
    {
        self.reconciliation.is_none()
    }

    /// A copy of the batch.
    pub fn duplicate(&self) -> (copy: Batch)
        ensures
            copy@ == self@,
    {
        Batch {
            id: self.id.clone(),
            amount: self.amount,
            transaction_ids: copy_ids(&self.transaction_ids),
            reconciliation: self.reconciliation,
        }
    }
}

/// A copy of `ids`.
pub fn copy_ids(ids: &Vec<TransactionId>) -> (copy: Vec<TransactionId>)
    ensures
        copy@ == ids@,
{
    let mut copy: Vec<TransactionId> = Vec::new();
    let mut i: usize = 0;
    while i < ids.len()
        invariant
            i <= ids@.len(),
            copy@ == ids@.take(i as int),
        decreases ids@.len() - i,
    {
        copy.push(ids[i]);
        assert(ids@.take(i + 1) == ids@.take(i as int).push(ids@[i as int]));
        i += 1;
    }
    assert(ids@.take(i as int) == ids@);
    copy
}

/// The batches of `all` that are still open, in their order.
pub fn unreconciled_batches(all: Vec<Batch>) -> (open: Vec<Batch>)
    ensures
        open@ == all@.filter(|batch: Batch| batch.reconciliation.is_none()),
{
    let ghost given = all@;
    let ghost is_open = |batch: Batch| batch.reconciliation.is_none();
    let mut open: Vec<Batch> = Vec::new();
    for batch in it: all
        invariant
            it.seq() == given,
            is_open == |batch: Batch| batch.reconciliation.is_none(),
            open@ == given.take(it.index() as int).filter(is_open),
    {
        proof {
            let i = it.index() as int;
            assert(given.take(i + 1) == given.take(i).push(given[i]));
            given.take(i).lemma_filter_push(given[i], is_open);
        }
        if batch.is_open() {
            open.push(batch);
        }
    }
    assert(given.take(given.len() as int) == given);
    open
}

/// The directory of a profile's batch records, below the base directory.
pub open spec fn data_dir_path(profile: Seq<char>) -> Seq<char> {
    "profiles/"@ + profile + "/data"@
}

/// The file of the record of the batch `batch_name`, below the base
/// directory.
pub open spec fn batch_file_path(batch_name: Seq<char>, profile: Seq<char>) -> Seq<char> {
    data_dir_path(profile) + "/"@ + batch_name + ".json"@
}

/// The directory of a profile's batch records, below the base directory.
pub fn data_dir_for(profile: &String) -> (path: String)
    ensures
        path@ == data_dir_path(profile@),
{
    let mut path = String::from_str("profiles/");
    append_string(&mut path, profile);
    path.append("/data");
    path
}

/// The file in which the record of the batch `batch_name` is kept, below
/// the base directory.
pub fn filename_for(batch_name: &String, profile: &String) -> (path: String)
    ensures
        path@ == batch_file_path(batch_name@, profile@),
{
    let mut path = data_dir_for(profile);
    path.append("/");
    append_string(&mut path, batch_name);
    path.append(".json");
    path
}

/// Whether a file of the data directory holds a batch record, by its name:
/// whether the name ends in "json".
pub open spec fn names_batch_file(path: Seq<char>) -> bool {
    path.len() >= 4 && path.subrange(path.len() - 4, path.len() as int) == seq!['j', 's', 'o', 'n']
}

/// Whether a file of the data directory holds a batch record, by its name.
pub fn is_batch_file(path: &str) -> (is_batch: bool)
    ensures
        is_batch == names_batch_file(path@),
{
    let length = path.unicode_len();
    if length < 4 {
        return false;
    }
    let found = path.get_char(length - 4) == 'j' && path.get_char(length - 3) == 's'
        && path.get_char(length - 2) == 'o' && path.get_char(length - 1) == 'n';
    proof {
        let tail = path@.subrange(path@.len() - 4, path@.len() as int);
        if found {
            assert(tail =~= seq!['j', 's', 'o', 'n']);
        } else {
            assert(tail[0] == path@[length - 4]);
            assert(tail[1] == path@[length - 3]);
            assert(tail[2] == path@[length - 2]);
            assert(tail[3] == path@[length - 1]);
        }
    }
    found
}

} // verus!
