use equailizer::commands::create_batch::process_tags::Issue;
use equailizer::commands::create_batch::{
    close_batch, create_batch, create_step, plan_add, plan_split, record_outcome,
    simulated_event, text_for_issue, total_amount, warnings_for, BatchError, CreateAction,
    CreateEvent, CreateState, InFlight, Planned,
};
use equailizer::config::{Config, Creditor, Debtor, RunMode, JMAP};
use equailizer::date_helpers::Date;
use equailizer::email::{BatchSummary, Txn};
use equailizer::lunch_money::api::update_transaction::{
    Action, SplitResponse, SplitUpdateItem, TransactionUpdateItem,
};
use equailizer::lunch_money::model::transaction::{Tag, Transaction, TransactionStatus};
use equailizer::persist::Batch;
use equailizer::usd::USD;

fn day(year: i32, month: u32, day: u32) -> Date {
    Date::from_ymd_opt(year, month, day).expect("NaiveDate creation failed")
}

fn config() -> Config {
    Config {
        creditor: Creditor {
            api_key: "creditor-key".to_string(),
            proxy_category_id: 20,
            repayment_account_id: 111,
            email_address: "creditor@example.com".to_string(),
        },
        debtor: Debtor {
            api_key: "debtor-key".to_string(),
            repayment_account_id: 222,
            venmo_username: "debtor".to_string(),
        },
        jmap: JMAP {
            api_session_endpoint: "https://mail.example.com/session".to_string(),
            api_key: "mail-key".to_string(),
            sent_mailbox: "sent".to_string(),
            sending_address: "quail@example.com".to_string(),
        },
    }
}

fn txn(id: u32, cents: i64, tags: Vec<&str>) -> Transaction {
    Transaction {
        id,
        date: day(2025, 10, id % 28 + 1),
        payee: format!("payee {}", id),
        amount: USD::new_from_cents(cents),
        plaid_account_id: None,
        category_id: Some(42),
        category_name: Some("Testing".to_string()),
        tags: tags.into_iter().map(|name| Tag { name: name.to_string(), id: 0 }).collect(),
        notes: None,
        status: TransactionStatus::Uncleared,
        parent_id: None,
        has_children: false,
        is_pending: false,
    }
}

fn line(id: u32, cents: i64) -> Txn {
    Txn {
        payee: format!("payee {}", id),
        amount: USD::new_from_cents(cents),
        date: day(2025, 10, id % 28 + 1),
    }
}

fn add_item(tags: Vec<&str>) -> TransactionUpdateItem {
    TransactionUpdateItem {
        payee: None,
        category_id: Some(20),
        notes: None,
        tags: Some(tags.into_iter().map(|name| name.to_string()).collect()),
        status: Some(TransactionStatus::Cleared),
    }
}

fn split_item() -> TransactionUpdateItem {
    TransactionUpdateItem {
        payee: None,
        category_id: None,
        notes: None,
        tags: Some(vec![]),
        status: Some(TransactionStatus::Cleared),
    }
}

fn split_lines(creditor: i64, debtor: i64) -> Vec<SplitUpdateItem> {
    vec![
        SplitUpdateItem {
            amount: USD::new_from_cents(creditor),
            payee: None,
            category_id: None,
            notes: None,
            date: None,
        },
        SplitUpdateItem {
            amount: USD::new_from_cents(debtor),
            payee: None,
            category_id: Some(20),
            notes: None,
            date: None,
        },
    ]
}

fn ledger() -> Vec<Transaction> {
    let mut parent = txn(3, 500, vec!["eq-to-batch"]);
    parent.has_children = true;
    let mut pending = txn(4, 500, vec!["eq-to-batch"]);
    pending.is_pending = true;
    vec![
        txn(1, 1852, vec!["eq-to-batch"]),
        txn(5, 1200, vec!["eq-to-split"]),
        txn(2, 1299, vec!["eq-to-batch", "other"]),
        parent,
        pending,
        txn(6, 999, vec!["groceries"]),
        txn(7, 400, vec!["eq-to-split"]),
    ]
}

fn start() -> CreateState {
    let (state, action) = create_batch(day(2025, 10, 1), day(2025, 10, 31), &config());
    assert_eq!(
        action,
        CreateAction::GetTransactions { start_date: day(2025, 10, 1), end_date: day(2025, 10, 31) }
    );
    assert_eq!(state, CreateState::Fetching);
    state
}

fn step(state: CreateState, event: CreateEvent) -> (CreateState, CreateAction) {
    create_step(state, event, &config())
}

fn planned_split(id: u32, whole: i64, half: i64) -> Planned {
    Planned {
        txn_id: id,
        line: line(id, half),
        action: Action::UpdateAndSplit(split_item(), split_lines(whole - half, half)),
    }
}

fn planned_add(id: u32, cents: i64, tags: Vec<&str>) -> Planned {
    Planned { txn_id: id, line: line(id, cents), action: Action::Update(add_item(tags)) }
}

#[test]
fn a_run_asks_for_every_change_in_the_order_of_the_plan() {
    let (state, action) = step(start(), CreateEvent::Transactions(Ok(ledger())));
    assert_eq!(action, CreateAction::Change { txn_id: 1, action: Action::Update(add_item(vec![])) });
    assert_eq!(
        state,
        CreateState::Updating {
            in_flight: InFlight { txn_id: 1, line: line(1, 1852), splits: false },
            queue: vec![
                planned_add(2, 1299, vec!["other"]),
                planned_split(5, 1200, 600),
                planned_split(7, 400, 200),
            ],
            lines: vec![],
            issues: vec![Issue::AddTagHasChildren(3)],
        }
    );

    let (state, action) = step(state, CreateEvent::Changed(Ok(None)));
    assert_eq!(
        action,
        CreateAction::Change { txn_id: 2, action: Action::Update(add_item(vec!["other"])) }
    );

    let (state, action) = step(state, CreateEvent::Changed(Err("refused".to_string())));
    assert_eq!(
        action,
        CreateAction::Change {
            txn_id: 5,
            action: Action::UpdateAndSplit(split_item(), split_lines(600, 600)),
        }
    );
    assert_eq!(
        state,
        CreateState::Updating {
            in_flight: InFlight { txn_id: 5, line: line(5, 600), splits: true },
            queue: vec![planned_split(7, 400, 200)],
            lines: vec![(1, line(1, 1852))],
            issues: vec![
                Issue::AddTagHasChildren(3),
                Issue::TransactionUpdateError(2, "refused".to_string()),
            ],
        }
    );

    let made = SplitResponse { split_ids: vec![900, 901] };
    let (state, action) = step(state, CreateEvent::Changed(Ok(Some(made))));
    assert_eq!(
        action,
        CreateAction::Change {
            txn_id: 7,
            action: Action::UpdateAndSplit(split_item(), split_lines(200, 200)),
        }
    );

    let made = SplitResponse { split_ids: vec![910, 911] };
    let (state, action) = step(state, CreateEvent::Changed(Ok(Some(made))));
    let (batch, summary) = match state {
        CreateState::Saving { batch, summary } => (batch, summary),
        other => panic!("the batch should be closed, not {:?}", other),
    };
    assert!(!batch.id.is_empty());
    assert_eq!(
        batch,
        Batch {
            id: batch.id.clone(),
            amount: USD::new_from_cents(1852 + 600 + 200),
            transaction_ids: vec![1, 901, 911],
            reconciliation: None,
        }
    );
    assert_eq!(
        summary,
        BatchSummary {
            batch_id: batch.id.clone(),
            total_amount: USD::new_from_cents(2652),
            line_items: vec![line(1, 1852), line(5, 600), line(7, 200)],
            warnings: vec![
                "Transaction was tagged for batch, but it has children: 3".to_string(),
                "Error when updating transaction 2: refused".to_string(),
            ],
        }
    );
    let id = batch.id.clone();
    assert_eq!(
        action,
        CreateAction::SaveBatch {
            batch: Batch {
                id: id.clone(),
                amount: USD::new_from_cents(2652),
                transaction_ids: vec![1, 901, 911],
                reconciliation: None,
            }
        }
    );

    let (state, action) = step(CreateState::Saving { batch, summary }, CreateEvent::Saved(Ok(())));
    assert!(matches!(state, CreateState::Notifying { .. }));
    match action {
        CreateAction::Notify { summary } => {
            assert_eq!(summary.batch_id, id);
            assert_eq!(summary.total_amount, USD::new_from_cents(2652));
        }
        other => panic!("the user should be told, not {:?}", other),
    }
    let (state, action) = step(state, CreateEvent::Notified(Ok(())));
    assert_eq!(action, CreateAction::Finish);
    match &state {
        CreateState::Done { batch } => assert_eq!(batch.id, id),
        other => panic!("the run should be done, not {:?}", other),
    }
    let (again, action) = step(state, CreateEvent::Begin {
        start_date: day(2025, 10, 1),
        end_date: day(2025, 10, 31),
    });
    assert_eq!(action, CreateAction::Finish);
    assert!(matches!(again, CreateState::Done { .. }));
}

#[test]
fn batch_ids_are_fresh() {
    let close = || {
        let (state, _) = step(start(), CreateEvent::Transactions(Ok(vec![txn(
            1,
            100,
            vec!["eq-to-batch"],
        )])));
        match step(state, CreateEvent::Changed(Ok(None))).0 {
            CreateState::Saving { batch, .. } => batch.id,
            other => panic!("the batch should be closed, not {:?}", other),
        }
    };
    let first = close();
    let second = close();
    assert_eq!(first.len(), 36);
    assert_ne!(first, second);
}

#[test]
fn days_in_the_wrong_order_fail_before_the_ledger_is_read() {
    let (state, action) = create_batch(day(2025, 10, 2), day(2025, 10, 1), &config());
    assert_eq!(action, CreateAction::Stop);
    assert_eq!(state, CreateState::Failed { error: BatchError::StartAfterEnd });
    let (state, action) = create_batch(day(2025, 10, 1), day(2025, 10, 1), &config());
    assert_eq!(
        action,
        CreateAction::GetTransactions { start_date: day(2025, 10, 1), end_date: day(2025, 10, 1) }
    );
    assert_eq!(state, CreateState::Fetching);
}

#[test]
fn nothing_validly_tagged_fails_before_the_ledger_is_changed() {
    let mut parent = txn(3, 500, vec!["eq-to-batch"]);
    parent.has_children = true;
    let (state, action) =
        step(start(), CreateEvent::Transactions(Ok(vec![parent, txn(6, 999, vec!["groceries"])])));
    assert_eq!(action, CreateAction::Stop);
    assert_eq!(state, CreateState::Failed { error: BatchError::NoValidTransactions });
    let (state, action) = step(start(), CreateEvent::Transactions(Ok(vec![])));
    assert_eq!(action, CreateAction::Stop);
    assert_eq!(state, CreateState::Failed { error: BatchError::NoValidTransactions });
}

#[test]
fn a_ledger_that_cannot_be_read_fails_the_run() {
    let (state, action) = step(start(), CreateEvent::Transactions(Err("timeout".to_string())));
    assert_eq!(action, CreateAction::Stop);
    assert_eq!(state, CreateState::Failed { error: BatchError::Ledger("timeout".to_string()) });
    let (state, action) = step(state, CreateEvent::Changed(Ok(None)));
    assert_eq!(action, CreateAction::Stop);
    assert_eq!(state, CreateState::Failed { error: BatchError::Ledger("timeout".to_string()) });
}

#[test]
fn failures_to_save_and_to_notify_are_told_apart() {
    let batch = Batch {
        id: "b".to_string(),
        amount: USD::new_from_cents(1),
        transaction_ids: vec![1],
        reconciliation: None,
    };
    let summary = BatchSummary {
        batch_id: "b".to_string(),
        total_amount: USD::new_from_cents(1),
        line_items: vec![line(1, 1)],
        warnings: vec![],
    };
    let (state, action) = step(
        CreateState::Saving { batch: batch.duplicate(), summary },
        CreateEvent::Saved(Err("disk full".to_string())),
    );
    assert_eq!(action, CreateAction::Stop);
    assert_eq!(state, CreateState::Failed { error: BatchError::Store("disk full".to_string()) });
    let (state, action) = step(
        CreateState::Notifying { batch },
        CreateEvent::Notified(Err("no route".to_string())),
    );
    assert_eq!(action, CreateAction::Stop);
    assert_eq!(state, CreateState::Failed { error: BatchError::Notify("no route".to_string()) });
}

#[test]
fn events_out_of_turn_fail_the_run() {
    let unexpected = CreateState::Failed { error: BatchError::UnexpectedEvent };
    let (state, action) = step(CreateState::Start, CreateEvent::Saved(Ok(())));
    assert_eq!((state, action), (
        CreateState::Failed { error: BatchError::UnexpectedEvent },
        CreateAction::Stop,
    ));
    let (state, action) = step(start(), CreateEvent::Changed(Ok(None)));
    assert_eq!(action, CreateAction::Stop);
    assert_eq!(state, unexpected);
    let (state, _) = step(start(), CreateEvent::Transactions(Ok(ledger())));
    let (state, action) = step(state, CreateEvent::Notified(Ok(())));
    assert_eq!(action, CreateAction::Stop);
    assert_eq!(state, unexpected);
}

#[test]
fn test_execute_adds() {
    let mut lines = vec![];
    let mut issues = vec![];
    let in_flight = |id: u32| InFlight { txn_id: id, line: line(id, 100 + id as i64), splits: false };
    record_outcome(in_flight(1), Ok(None), &mut lines, &mut issues);
    record_outcome(in_flight(2), Err("category not found".to_string()), &mut lines, &mut issues);
    let made = SplitResponse { split_ids: vec![0, 1] };
    record_outcome(in_flight(3), Ok(Some(made)), &mut lines, &mut issues);
    assert_eq!(lines, vec![(1, line(1, 101)), (3, line(3, 103))]);
    assert_eq!(
        issues,
        vec![Issue::TransactionUpdateError(2, "category not found".to_string())]
    );
}

#[test]
fn test_execute_splits() {
    let mut lines = vec![];
    let mut issues = vec![Issue::SplitTagHasParent(9)];
    let in_flight = |id: u32| InFlight { txn_id: id, line: line(id, 100 + id as i64), splits: true };
    let made = |ids: Vec<u32>| Ok(Some(SplitResponse { split_ids: ids }));
    record_outcome(in_flight(1), made(vec![70, 71]), &mut lines, &mut issues);
    record_outcome(in_flight(2), made(vec![80]), &mut lines, &mut issues);
    record_outcome(in_flight(3), made(vec![]), &mut lines, &mut issues);
    record_outcome(in_flight(4), Ok(None), &mut lines, &mut issues);
    record_outcome(in_flight(5), Err("amounts do not add up".to_string()), &mut lines, &mut issues);
    record_outcome(in_flight(6), made(vec![90, 91, 92]), &mut lines, &mut issues);
    assert_eq!(lines, vec![(71, line(1, 101)), (91, line(6, 106))]);
    let no_second = "no item in position 1 of split ids in transaction update response - expected debtor proxy split id";
    assert_eq!(
        issues,
        vec![
            Issue::SplitTagHasParent(9),
            Issue::TransactionUpdateError(2, no_second.to_string()),
            Issue::TransactionUpdateError(3, no_second.to_string()),
            Issue::TransactionUpdateError(
                4,
                "no split ids found in transaction update that contained splits".to_string()
            ),
            Issue::TransactionUpdateError(5, "amounts do not add up".to_string()),
        ]
    );
}

#[test]
fn a_batch_of_refused_changes_is_empty_but_kept() {
    let (state, _) =
        step(start(), CreateEvent::Transactions(Ok(vec![txn(1, 100, vec!["eq-to-batch"])])));
    let (state, action) = step(state, CreateEvent::Changed(Err("refused".to_string())));
    match (state, action) {
        (CreateState::Saving { batch, summary }, CreateAction::SaveBatch { batch: record }) => {
            assert_eq!(batch.amount, USD::new_from_cents(0));
            assert!(batch.transaction_ids.is_empty());
            assert_eq!(record, batch);
            assert_eq!(
                summary.warnings,
                vec!["Error when updating transaction 1: refused".to_string()]
            );
        }
        other => panic!("the batch should be closed, not {:?}", other),
    }
}

#[test]
fn planned_changes_carry_what_the_debtor_owes() {
    let planned = plan_add(txn(2, 1299, vec!["eq-to-batch", "other"]), 20, &"eq-to-batch".to_string());
    assert_eq!(planned, planned_add(2, 1299, vec!["other"]));
    let creditor_more = plan_split(txn(5, 1501, vec!["eq-to-split"]), 20, &"eq-to-split".to_string(), true);
    assert_eq!(creditor_more, planned_split(5, 1501, 750));
    let debtor_more = plan_split(txn(5, 1501, vec!["eq-to-split"]), 20, &"eq-to-split".to_string(), false);
    assert_eq!(debtor_more, planned_split(5, 1501, 751));
}

#[test]
fn the_total_is_the_exact_sum_of_the_lines() {
    assert_eq!(total_amount(&vec![]), Some(USD::new_from_cents(0)));
    let lines = vec![(1, line(1, 1852)), (2, line(2, -52)), (3, line(3, 1))];
    assert_eq!(total_amount(&lines), Some(USD::new_from_cents(1801)));
    let most = vec![(1, line(1, i64::MAX)), (2, line(2, 1))];
    assert_eq!(total_amount(&most), None);
    let back_in_range = vec![(1, line(1, i64::MAX)), (2, line(2, 1)), (3, line(3, -1))];
    assert_eq!(total_amount(&back_in_range), Some(USD::new_from_cents(i64::MAX)));
    let least = vec![(1, line(1, i64::MIN)), (2, line(2, -1))];
    assert_eq!(total_amount(&least), None);
}

#[test]
fn a_total_out_of_range_closes_no_batch() {
    let lines = vec![(1, line(1, i64::MAX)), (2, line(2, i64::MAX))];
    assert_eq!(close_batch("b".to_string(), lines, &vec![]), None);
    let queue_done = CreateState::Updating {
        in_flight: InFlight { txn_id: 3, line: line(3, 1), splits: false },
        queue: vec![],
        lines: vec![(1, line(1, i64::MAX))],
        issues: vec![],
    };
    let (state, action) = step(queue_done, CreateEvent::Changed(Ok(None)));
    assert_eq!(action, CreateAction::Stop);
    assert_eq!(state, CreateState::Failed { error: BatchError::TotalOutOfRange });
}

#[test]
fn closing_keeps_ids_lines_and_warnings_in_order() {
    let lines = vec![(9, line(1, 5)), (8, line(2, 7))];
    let issues = vec![Issue::SplitTagHasChildren(4), Issue::SplitTagHasParent(5)];
    let (batch, summary) = close_batch("b-7".to_string(), lines, &issues).expect("in range");
    assert_eq!(
        batch,
        Batch {
            id: "b-7".to_string(),
            amount: USD::new_from_cents(12),
            transaction_ids: vec![9, 8],
            reconciliation: None,
        }
    );
    assert_eq!(
        summary,
        BatchSummary {
            batch_id: "b-7".to_string(),
            total_amount: USD::new_from_cents(12),
            line_items: vec![line(1, 5), line(2, 7)],
            warnings: vec![
                "Transaction was tagged to split, but it already has children: 4".to_string(),
                "Transaction was tagged to split, but it has a parent: 5".to_string(),
            ],
        }
    );
}

#[test]
fn every_issue_has_its_text() {
    assert_eq!(
        text_for_issue(&Issue::AddTagHasChildren(1025)),
        "Transaction was tagged for batch, but it has children: 1025"
    );
    assert_eq!(
        text_for_issue(&Issue::SplitTagHasParent(0)),
        "Transaction was tagged to split, but it has a parent: 0"
    );
    assert_eq!(
        text_for_issue(&Issue::SplitTagHasChildren(u32::MAX)),
        "Transaction was tagged to split, but it already has children: 4294967295"
    );
    assert_eq!(
        text_for_issue(&Issue::TransactionUpdateError(7, "boom".to_string())),
        "Error when updating transaction 7: boom"
    );
    assert!(warnings_for(&vec![]).is_empty());
    assert_eq!(
        warnings_for(&vec![Issue::AddTagHasChildren(10), Issue::SplitTagHasParent(100)]),
        vec![
            "Transaction was tagged for batch, but it has children: 10".to_string(),
            "Transaction was tagged to split, but it has a parent: 100".to_string(),
        ]
    );
}

#[test]
fn a_dry_run_of_a_batch_changes_nothing_outside() {
    let change = CreateAction::Change { txn_id: 1, action: Action::Update(add_item(vec![])) };
    let save = CreateAction::SaveBatch {
        batch: Batch {
            id: "b".to_string(),
            amount: USD::new_from_cents(1),
            transaction_ids: vec![1],
            reconciliation: None,
        },
    };
    let notify = CreateAction::Notify {
        summary: BatchSummary {
            batch_id: "b".to_string(),
            total_amount: USD::new_from_cents(1),
            line_items: vec![],
            warnings: vec![],
        },
    };
    let read =
        CreateAction::GetTransactions { start_date: day(2025, 10, 1), end_date: day(2025, 10, 2) };
    assert_eq!(
        simulated_event(RunMode::DryRun, &change),
        Some(CreateEvent::Changed(Ok(Some(SplitResponse { split_ids: vec![0, 1] }))))
    );
    assert_eq!(simulated_event(RunMode::DryRun, &save), Some(CreateEvent::Saved(Ok(()))));
    assert_eq!(simulated_event(RunMode::DryRun, &notify), Some(CreateEvent::Notified(Ok(()))));
    assert_eq!(simulated_event(RunMode::DryRun, &read), None);
    assert_eq!(simulated_event(RunMode::DryRun, &CreateAction::Finish), None);
    assert_eq!(simulated_event(RunMode::DryRun, &CreateAction::Stop), None);
    for action in [&change, &save, &notify, &read] {
        assert_eq!(simulated_event(RunMode::Live, action), None);
    }
}

#[test]
fn a_dry_run_of_a_split_records_the_made_up_debtor_line() {
    let (state, action) =
        step(start(), CreateEvent::Transactions(Ok(vec![txn(5, 1200, vec!["eq-to-split"])])));
    let event = simulated_event(RunMode::DryRun, &action).expect("a change is simulated");
    match step(state, event).0 {
        CreateState::Saving { batch, .. } => {
            assert_eq!(batch.transaction_ids, vec![1]);
            assert_eq!(batch.amount, USD::new_from_cents(600));
        }
        other => panic!("the batch should be closed, not {:?}", other),
    }
}

#[test]
fn every_batch_error_has_its_message() {
    assert_eq!(BatchError::StartAfterEnd.message(), "start date cannot be after end date");
    assert_eq!(
        BatchError::NoValidTransactions.message(),
        "No valid transactions found to create batch from"
    );
    assert_eq!(BatchError::Ledger("timeout".to_string()).message(), "timeout");
    assert_eq!(BatchError::Store("disk full".to_string()).message(), "disk full");
    assert_eq!(BatchError::Notify("no route".to_string()).message(), "no route");
    assert_eq!(BatchError::TotalOutOfRange.message(), "batch total is out of range");
    assert_eq!(BatchError::UnexpectedEvent.message(), "event out of turn");
}
