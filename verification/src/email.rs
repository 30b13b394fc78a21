//! What the notification of a new batch says.

use crate::date_helpers::{iso_text, long_text, Date};
use crate::text::append_string;
use crate::usd::{fixed_point_text, USD};
use vstd::prelude::*;

verus! {

/// One line of a batch as the notification shows it.
#[derive(Debug, PartialEq, Clone)]
pub struct Txn {
    pub payee: String,
    pub amount: USD,
    pub date: Date,
}

/// What the notification channel is given for a new batch. Delivery is not
/// this library's concern.
#[derive(Debug, PartialEq)]
pub struct BatchSummary {
    pub batch_id: String,
    pub total_amount: USD,
    pub line_items: Vec<Txn>,
    pub warnings: Vec<String>,
}

/// The link that opens a payment request of `amount` cents to the debtor.
pub open spec fn venmo_link_text(venmo_username: Seq<char>, text: Seq<char>, amount: int) -> Seq<char> {
    "https://venmo.com/"@ + venmo_username + "?txn=charge&note="@ + text + "&amount="@
        + fixed_point_text(amount)
}

/// The link that opens a payment request of `amount` to the debtor, with the
/// note `text`.
pub fn venmo_request_link(venmo_username: &String, text: &String, amount: &USD) -> (link: String)
    ensures
        link@ == venmo_link_text(venmo_username@, text@, amount@),
{
    let mut link = String::from_str("https://venmo.com/");
    append_string(&mut link, venmo_username);
    link.append("?txn=charge&note=");
    append_string(&mut link, text);
    link.append("&amount=");
    let amount_text = amount.to_string();
    append_string(&mut link, &amount_text);
    link
}

/// The note of the payment request that is made on the day `today`.
pub fn venmo_note(today: &Date) -> (note: String)
    ensures
        note@ == "equailizer_"@ + iso_text(today@.0, today@.1, today@.2),
{
    let day = today.to_iso_string();
    venmo_note_on(&day)
}

/// The note of the payment request that is made on the day written `day`.
pub fn venmo_note_on(day: &String) -> (note: String)
    ensures
        note@ == "equailizer_"@ + day@,
{
    let mut note = String::from_str("equailizer_");
    append_string(&mut note, day);
    note
}

/// The plain text of the notification.
pub open spec fn text_body_of(venmo_request_link: Seq<char>, batch_id: Seq<char>) -> Seq<char> {
    "New batch ready!\n\nClick here to initiate Venmo request: "@ + venmo_request_link
        + "\n\nbatch id: "@ + batch_id
}

/// The plain text of the notification.
pub fn text_body(venmo_request_link: &String, batch_id: &String) -> (body: String)
    ensures
        body@ == text_body_of(venmo_request_link@, batch_id@),
{
    let mut body = String::from_str("New batch ready!\n\nClick here to initiate Venmo request: ");
    append_string(&mut body, venmo_request_link);
    body.append("\n\nbatch id: ");
    append_string(&mut body, batch_id);
    body
}

/// A sender that the mail service knows: its id and its address, where the
/// service gave them.
#[derive(Debug, PartialEq, Clone)]
pub struct Identity {
    pub id: Option<String>,
    pub email: Option<String>,
}

/// Whether `identity` can send from `address`: it has that address, and an
/// id to send under.
pub open spec fn sends_from(identity: Identity, address: Seq<char>) -> bool {
    identity.email.is_some() && identity.email.unwrap()@ == address && identity.id.is_some()
}

/// The id to send under: that of the first of `identities` with the address
/// `sending_address` and an id. `None` if and only if there is no such
/// identity.
pub fn sending_identity(identities: &Vec<Identity>, sending_address: &String) -> (id: Option<String>)
    ensures
        match id {
            Some(id) => exists|i: int|
                {
                    &&& 0 <= i < identities@.len()
                    &&& sends_from(#[trigger] identities@[i], sending_address@)
                    &&& id@ == identities@[i].id.unwrap()@
                    &&& forall|j: int|
                        0 <= j < i ==> !sends_from(#[trigger] identities@[j], sending_address@)
                },
            None => forall|j: int|
                0 <= j < identities@.len() ==> !sends_from(
                    #[trigger] identities@[j],
                    sending_address@,
                ),
        },
{
    let mut i: usize = 0;
    while i < identities.len()
        invariant
            i <= identities@.len(),
            forall|j: int| 0 <= j < i ==> !sends_from(#[trigger] identities@[j], sending_address@),
        decreases identities@.len() - i,
    {
        let identity = &identities[i];
        match &identity.email {
            Some(email) => {
                if *email == *sending_address {
                    match &identity.id {
                        Some(id) => {
                            return Some(id.clone());
                        },
                        None => {},
                    }
                }
            },
            None => {},
        }
        i += 1;
    }
    None
}

// ---------------------------------------------------------------------
// The lines of a notification, day by day
// ---------------------------------------------------------------------

/// The lines of one day, under the day's name.
#[derive(Debug, PartialEq)]
pub struct DayGroup {
    pub date: Date,
    /// The day as the notification shows it, such as "Oct 21, 2025".
    pub label: String,
    pub txns: Vec<Txn>,
}

/// Whether a line is of the day `date`.
pub open spec fn on_day(date: Date) -> spec_fn(Txn) -> bool {
    |txn: Txn| txn.date == date
}

/// The days of `groups`, in their order.
pub open spec fn days_of(groups: Seq<DayGroup>) -> Seq<Date> {
    groups.map_values(|group: DayGroup| group.date)
}

/// The days that have a line among `txns`, each once, in the order in which
/// each first came.
pub open spec fn days_in_order(txns: Seq<Txn>) -> Seq<Date>
    decreases txns.len(),
{
    if txns.len() == 0 {
        Seq::empty()
    } else {
        let before = days_in_order(txns.drop_last());
        if before.contains(txns.last().date) {
            before
        } else {
            before.push(txns.last().date)
        }
    }
}

/// Whether `groups` are the lines `txns` day by day: one group for each day
/// that has a line, the days in the order in which each first came, each
/// group with the day's name and with all the lines of its day in the order
/// in which they came.
pub open spec fn groups_by_date(txns: Seq<Txn>, groups: Seq<DayGroup>) -> bool {
    &&& days_of(groups) == days_in_order(txns)
    &&& forall|g: int|
        0 <= g < groups.len() ==> {
            &&& (#[trigger] groups[g]).txns@ == txns.filter(on_day(groups[g].date))
            &&& groups[g].label@ == long_text(
                groups[g].date@.0,
                groups[g].date@.1,
                groups[g].date@.2,
            )
        }
}

/// Every day that has a line is among the days in order, and every day among
/// them has a line; no day is among them twice.
pub proof fn lemma_days_in_order(txns: Seq<Txn>)
    ensures
        forall|i: int| 0 <= i < txns.len() ==> days_in_order(txns).contains((#[trigger] txns[i]).date),
        forall|d: int|
            0 <= d < days_in_order(txns).len() ==> txns.filter(
                on_day(#[trigger] days_in_order(txns)[d]),
            ).len() > 0,
        forall|d: int, e: int|
            0 <= d < e < days_in_order(txns).len() ==> #[trigger] days_in_order(txns)[d]
                != #[trigger] days_in_order(txns)[e],
    decreases txns.len(),
{
    if txns.len() > 0 {
        let rest = txns.drop_last();
        let before = days_in_order(rest);
        let days = days_in_order(txns);
        let last = txns.last();
        lemma_days_in_order(rest);
        assert(rest.push(last) == txns);
        assert forall|i: int| 0 <= i < txns.len() implies days.contains(
            (#[trigger] txns[i]).date,
        ) by {
            if i < rest.len() {
                assert(rest[i] == txns[i]);
                let k = choose|k: int| 0 <= k < before.len() && before[k] == rest[i].date;
                assert(days[k] == txns[i].date);
            } else if before.contains(last.date) {
            } else {
                assert(days[before.len() as int] == last.date);
            }
        }
        assert forall|d: int| 0 <= d < days.len() implies txns.filter(
            on_day(#[trigger] days[d]),
        ).len() > 0 by {
            rest.lemma_filter_push(last, on_day(days[d]));
            if d < before.len() {
                assert(before[d] == days[d]);
            }
        }
        assert forall|d: int, e: int| 0 <= d < e < days.len() implies #[trigger] days[d]
            != #[trigger] days[e] by {
            if e < before.len() {
                assert(before[d] == days[d] && before[e] == days[e]);
            } else {
                assert(before[d] == days[d]);
            }
        }
    }
}

/// The place of the group of the day `date`; `None` if and only if there is
/// none.
fn group_of(groups: &Vec<DayGroup>, date: &Date) -> (place: Option<usize>)
    ensures
        match place {
            Some(k) => k < groups@.len() && groups@[k as int].date == *date,
            None => !days_of(groups@).contains(*date),
        },
{
    let mut k: usize = 0;
    while k < groups.len()
        invariant
            k <= groups@.len(),
            forall|g: int| 0 <= g < k ==> (#[trigger] groups@[g]).date != *date,
        decreases groups@.len() - k,
    {
        if groups[k].date.same_day(date) {
            return Some(k);
        }
        k += 1;
    }
    assert forall|g: int| 0 <= g < days_of(groups@).len() implies days_of(groups@)[g] != *date by {
        assert(days_of(groups@)[g] == groups@[g].date);
    }
    None
}

/// The lines `txns` day by day, the days in the order in which each first
/// came.
pub fn group_by_date(txns: Vec<Txn>) -> (groups: Vec<DayGroup>)
    ensures
        groups_by_date(txns@, groups@),
{
    let ghost all = txns@;
    let mut groups: Vec<DayGroup> = Vec::new();
    assert(days_of(groups@) =~= days_in_order(all.take(0)));
    for txn in it: txns
        invariant
            it.seq() == all,
            groups_by_date(all.take(it.index() as int), groups@),
    {
        let ghost i = it.index() as int;
        let ghost seen = all.take(i);
        let ghost old_groups = groups@;
        proof {
            assert(all.take(i + 1) == seen.push(txn));
            assert(all.take(i + 1).drop_last() == seen);
            lemma_days_in_order(seen);
            assert forall|g: int| 0 <= g < old_groups.len() implies all.take(i + 1).filter(
                on_day((#[trigger] old_groups[g]).date),
            ) == if old_groups[g].date == txn.date {
                old_groups[g].txns@.push(txn)
            } else {
                old_groups[g].txns@
            } by {
                seen.lemma_filter_push(txn, on_day(old_groups[g].date));
            }
            assert forall|g: int, h: int| 0 <= g < h < old_groups.len() implies (
            #[trigger] old_groups[g]).date != (#[trigger] old_groups[h]).date by {
                assert(days_of(old_groups)[g] == old_groups[g].date);
                assert(days_of(old_groups)[h] == old_groups[h].date);
            }
        }
        match group_of(&groups, &txn.date) {
            Some(k) => {
                groups[k].txns.push(txn);
                proof {
                    assert(days_of(old_groups)[k as int] == txn.date);
                    assert(days_of(groups@) =~= days_of(old_groups));
                }
            },
            None => {
                let label = txn.date.to_long_string();
                let date = txn.date;
                let mut lines: Vec<Txn> = Vec::new();
                lines.push(txn);
                groups.push(DayGroup { date, label, txns: lines });
                proof {
                    assert(days_of(groups@) =~= days_of(old_groups).push(date));
                    // No line so far is of the new day.
                    assert forall|j: int| 0 <= j < seen.len() implies !on_day(date)(seen[j]) by {
                        assert(days_in_order(seen).contains(seen[j].date));
                    }
                    seen.lemma_all_neg_filter_empty(on_day(date));
                    seen.lemma_filter_push(txn, on_day(date));
                    assert(lines@ =~= all.take(i + 1).filter(on_day(date)));
                    assert forall|g: int| 0 <= g < old_groups.len() implies (
                    #[trigger] groups@[g]).txns@ == all.take(i + 1).filter(
                        on_day(groups@[g].date),
                    ) by {
                        assert(days_of(old_groups)[g] == old_groups[g].date);
                        assert(groups@[g] == old_groups[g]);
                    }
                }
            },
        }
    }
    assert(all.take(all.len() as int) == all);
    groups
}

} // verus!
