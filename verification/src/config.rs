//! What a run is configured with.

use crate::text::append_string;
use vstd::prelude::*;

verus! {

/// The tag that asks for a transaction to be split with the debtor.
pub const TAG_BATCH_SPLIT: &'static str = "eq-to-split";

/// The tag that asks for a transaction to be batched in full.
pub const TAG_BATCH_ADD: &'static str = "eq-to-batch";

/// The configuration of a profile.
#[derive(Debug)]
pub struct Config {
    pub creditor: Creditor,
    pub debtor: Debtor,
    pub jmap: JMAP,
}

/// The party that pays first and is owed.
#[derive(Debug)]
pub struct Creditor {
    pub api_key: String,
    pub proxy_category_id: u32,
    pub repayment_account_id: u32,
    pub email_address: String,
}

/// The party that owes.
#[derive(Debug)]
pub struct Debtor {
    pub api_key: String,
    pub repayment_account_id: u32,
    pub venmo_username: String,
}

/// The mail service that sends the notifications.
#[derive(Debug)]
pub struct JMAP {
    pub api_session_endpoint: String,
    pub api_key: String,
    pub sent_mailbox: String,
    pub sending_address: String,
}

/// Whether a run changes anything outside itself.
#[derive(Debug, Clone, Copy, PartialEq, Eq, Structural)]
pub enum RunMode {
    Live,
    DryRun,
}

/// The dry-run choice of a run: made at most once, and off until made.
#[derive(Debug)]
pub struct DryRun {
    choice: Option<bool>,
}

impl View for DryRun {
    type V = Option<bool>;

    /// The choice, if it has been made.
    closed spec fn view(&self) -> Option<bool> {
        self.choice
    }
}

impl DryRun {
    /// A run for which the choice has not been made yet.
    pub fn new() -> (flag: DryRun)
        ensures
            flag@.is_none(),
    {
        DryRun { choice: None }
    }

    /// The mode that the choice stands for.
    pub fn mode(&self) -> (mode: RunMode)
        ensures
            mode == if self@ == Some(true) {
                RunMode::DryRun
            } else {
                RunMode::Live
            },
    {
        if is_dry_run(self) {
            RunMode::DryRun
        } else {
            RunMode::Live
        }
    }
}

/// Whether the run is a dry run: only if that was chosen.
pub fn is_dry_run(flag: &DryRun) -> (dry_run: bool)
    ensures
        dry_run == (flag@ == Some(true)),
{
    match flag.choice {
        Some(chosen) => chosen,
        None => false,
    }
}

/// Makes the choice. It can be made once only.
pub fn set_dry_run(flag: &mut DryRun, dry_run: bool)
    requires
        old(flag)@.is_none(),
    ensures
        final(flag)@ == Some(dry_run),
{
    flag.choice = Some(dry_run);
}

/// The text of the UUID with the value `uuid`, as `uuid::Uuid` displays it.
pub uninterp spec fn uuid_text(uuid: int) -> Seq<char>;

/// The text of a UUID, by the `Display` of `uuid::Uuid`: the result is the
/// text that the crate writes for the UUID with this value.
#[verifier::external_body]
fn uuid_to_string(uuid: u128) -> (text: String)
    ensures
        text@ == uuid_text(uuid as int),
{
    uuid::Uuid::from_u128(uuid).to_string()
}

/// A fresh random UUID, by `uuid::Uuid::new_v4`, as its 128-bit value.
/// Nothing is claimed of which value comes back.
#[verifier::external_body]
fn random_uuid() -> (uuid: u128) {
    uuid::Uuid::new_v4().as_u128()
}

/// The name of the batch that is made from the UUID with the value
/// `from_uuid`.
pub fn eq_batch_name(from_uuid: u128) -> (name: String)
    ensures
        name@ == "eq"@ + uuid_text(from_uuid as int),
{
    let text = uuid_to_string(from_uuid);
    batch_name_of(&text)
}

/// The name of the batch that is made from the UUID that is written
/// `uuid`.
pub fn batch_name_of(uuid: &String) -> (name: String)
    ensures
        name@ == "eq"@ + uuid@,
{
    let mut name = String::from_str("eq");
    append_string(&mut name, uuid);
    name
}

/// Whether `text` is the text of a UUID, as `uuid::Uuid` displays it.
pub open spec fn is_uuid_text(text: Seq<char>) -> bool {
    exists|uuid: u128| text == #[trigger] uuid_text(uuid as int)
}

/// A fresh id for a batch: the text of a random UUID. Which UUID is drawn
/// is left to chance.
pub(crate) fn fresh_batch_id() -> (id: String)
    ensures
        is_uuid_text(id@),
{
    let uuid = random_uuid();
    uuid_to_string(uuid)
}

} // verus!
