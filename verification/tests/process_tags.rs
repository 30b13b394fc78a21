use equailizer::commands::create_batch::process_tags::{Issue, ProcessTagsOutput};
use equailizer::date_helpers::Date;
use equailizer::lunch_money::model::transaction::{Tag, Transaction, TransactionStatus};
use equailizer::usd::USD;

fn tagged(id: u32, tags: Vec<&str>) -> Transaction {
    Transaction {
        id,
        date: Date::from_ymd_opt(2025, 10, 22).expect("NaiveDate creation failed"),
        payee: "Split".to_string(),
        amount: USD::new_from_cents(1299),
        plaid_account_id: None,
        category_id: Some(42),
        category_name: Some("Testing".to_string()),
        tags: tags.into_iter().map(|name| Tag { name: name.to_string(), id: 0 }).collect(),
        notes: None,
        status: TransactionStatus::Uncleared,
        parent_id: None,
        has_children: false,
        is_pending: false,
    }
}

#[test]
fn process_tags() {
    let add_tag = "add-tag".to_string();
    let split_tag = "split-tag".to_string();

    let add_t: Transaction = Transaction {
        id: 1024,
        date: Date::from_ymd_opt(2025, 10, 21).expect("NaiveDate creation failed"),
        payee: "JetBlue".to_string(),
        amount: USD::new_from_cents(18522),
        plaid_account_id: None,
        category_id: Some(41),
        category_name: Some("Airfaire".to_string()),
        tags: vec![Tag {
            name: add_tag.clone(),
            id: 0,
        }],
        notes: Some("Ticket to Chicago".to_string()),
        status: TransactionStatus::Uncleared,
        parent_id: None,
        has_children: false,
        is_pending: false,
    };

    let add_has_children_t: Transaction = Transaction {
        id: 1025,
        date: Date::from_ymd_opt(2025, 10, 22).expect("NaiveDate creation failed"),
        payee: "Has Children".to_string(),
        amount: USD::new_from_cents(1299),
        plaid_account_id: None,
        category_id: Some(42),
        category_name: Some("Testing".to_string()),
        tags: vec![Tag {
            name: add_tag.clone(),
            id: 0,
        }],
        notes: None,
        status: TransactionStatus::Uncleared,
        parent_id: None,
        has_children: true,
        is_pending: false,
    };

    let split_t: Transaction = Transaction {
        id: 1026,
        date: Date::from_ymd_opt(2025, 10, 22).expect("NaiveDate creation failed"),
        payee: "Split".to_string(),
        amount: USD::new_from_cents(1299),
        plaid_account_id: None,
        category_id: Some(42),
        category_name: Some("Testing".to_string()),
        tags: vec![Tag {
            name: split_tag.clone(),
            id: 0,
        }],
        notes: None,
        status: TransactionStatus::Uncleared,
        parent_id: None,
        has_children: false,
        is_pending: false,
    };

    let split_has_parent_t: Transaction = Transaction {
        id: 1027,
        date: Date::from_ymd_opt(2025, 10, 22).expect("NaiveDate creation failed"),
        payee: "Split".to_string(),
        amount: USD::new_from_cents(1299),
        plaid_account_id: None,
        category_id: Some(42),
        category_name: Some("Testing".to_string()),
        tags: vec![Tag {
            name: split_tag.clone(),
            id: 0,
        }],
        notes: None,
        status: TransactionStatus::Uncleared,
        parent_id: Some(1),
        has_children: false,
        is_pending: false,
    };

    let split_has_children_t: Transaction = Transaction {
        id: 1028,
        date: Date::from_ymd_opt(2025, 10, 22).expect("NaiveDate creation failed"),
        payee: "Split".to_string(),
        amount: USD::new_from_cents(1299),
        plaid_account_id: None,
        category_id: Some(42),
        category_name: Some("Testing".to_string()),
        tags: vec![Tag {
            name: split_tag.clone(),
            id: 0,
        }],
        notes: None,
        status: TransactionStatus::Uncleared,
        parent_id: None,
        has_children: true,
        is_pending: false,
    };

    let output = equailizer::commands::create_batch::process_tags::process_tags(
        vec![
            add_t.clone(),
            add_has_children_t,
            split_t.clone(),
            split_has_parent_t,
            split_has_children_t,
        ],
        &add_tag,
        &split_tag,
    );

    let add_has_children_issue: Issue = Issue::AddTagHasChildren(1025);
    let split_has_parent_issue: Issue = Issue::SplitTagHasParent(1027);
    let split_has_children_issue: Issue = Issue::SplitTagHasChildren(1028);

    let assert_output: ProcessTagsOutput = ProcessTagsOutput {
        add_tag,
        split_tag,
        txns_to_add: vec![add_t],
        txns_to_split: vec![split_t],
        issues: vec![
            add_has_children_issue,
            split_has_parent_issue,
            split_has_children_issue,
        ],
    };

    assert_eq!(output, assert_output);
}

fn classify(txns: Vec<Transaction>) -> ProcessTagsOutput {
    equailizer::commands::create_batch::process_tags::process_tags(
        txns,
        &"add-tag".to_string(),
        &"split-tag".to_string(),
    )
}

#[test]
fn tagged_only_to_batch_is_never_split() {
    let out = classify(vec![tagged(1, vec!["add-tag"]), tagged(2, vec!["other", "add-tag"])]);
    assert_eq!(out.txns_to_add.len(), 2);
    assert!(out.txns_to_split.is_empty());
    assert!(out.issues.is_empty());
}

#[test]
fn tagged_only_to_split_is_never_batched_in_full() {
    let out = classify(vec![tagged(1, vec!["split-tag"])]);
    assert!(out.txns_to_add.is_empty());
    assert_eq!(out.txns_to_split, vec![tagged(1, vec!["split-tag"])]);
}

#[test]
fn both_tags_means_batch_in_full() {
    let out = classify(vec![tagged(7, vec!["split-tag", "add-tag"])]);
    assert_eq!(out.txns_to_add, vec![tagged(7, vec!["split-tag", "add-tag"])]);
    assert!(out.txns_to_split.is_empty());
    assert!(out.issues.is_empty());
}

#[test]
fn untagged_is_ignored() {
    let out = classify(vec![tagged(7, vec![]), tagged(8, vec!["groceries"])]);
    assert!(out.txns_to_add.is_empty());
    assert!(out.txns_to_split.is_empty());
    assert!(out.issues.is_empty());
}

#[test]
fn pending_flag_keeps_out_whatever_the_tags() {
    let mut add = tagged(1, vec!["add-tag"]);
    add.is_pending = true;
    let mut split = tagged(2, vec!["split-tag"]);
    split.is_pending = true;
    let mut both = tagged(3, vec!["add-tag", "split-tag"]);
    both.is_pending = true;
    both.has_children = true;
    let out = classify(vec![add, split, both]);
    assert!(out.txns_to_add.is_empty());
    assert!(out.txns_to_split.is_empty());
    assert!(out.issues.is_empty());
}

#[test]
fn pending_status_keeps_out_whatever_the_tags() {
    let mut add = tagged(1, vec!["add-tag"]);
    add.status = TransactionStatus::Pending;
    let mut split = tagged(2, vec!["split-tag"]);
    split.status = TransactionStatus::Pending;
    let out = classify(vec![add, split]);
    assert!(out.txns_to_add.is_empty());
    assert!(out.txns_to_split.is_empty());
    assert!(out.issues.is_empty());
}

#[test]
fn add_with_children_is_exactly_one_issue() {
    let mut parent = tagged(55, vec!["add-tag"]);
    parent.has_children = true;
    let out = classify(vec![tagged(54, vec!["add-tag"]), parent]);
    assert_eq!(out.txns_to_add, vec![tagged(54, vec!["add-tag"])]);
    assert_eq!(out.issues, vec![Issue::AddTagHasChildren(55)]);
}

#[test]
fn split_with_parent_is_exactly_one_issue() {
    let mut part = tagged(56, vec!["split-tag"]);
    part.parent_id = Some(9);
    let out = classify(vec![part]);
    assert!(out.txns_to_split.is_empty());
    assert_eq!(out.issues, vec![Issue::SplitTagHasParent(56)]);
}

#[test]
fn split_with_children_and_parent_reports_the_children() {
    let mut odd = tagged(57, vec!["split-tag"]);
    odd.parent_id = Some(9);
    odd.has_children = true;
    let out = classify(vec![odd]);
    assert!(out.txns_to_split.is_empty());
    assert_eq!(out.issues, vec![Issue::SplitTagHasChildren(57)]);
}

#[test]
fn issues_of_adds_come_before_issues_of_splits() {
    let mut split_parent = tagged(1, vec!["split-tag"]);
    split_parent.has_children = true;
    let mut add_parent = tagged(2, vec!["add-tag"]);
    add_parent.has_children = true;
    let out = classify(vec![split_parent, add_parent]);
    assert_eq!(
        out.issues,
        vec![Issue::AddTagHasChildren(2), Issue::SplitTagHasChildren(1)]
    );
}

#[test]
fn tag_names_are_in_order() {
    let txn = tagged(1, vec!["a", "b", "a"]);
    let names: Vec<String> = txn.tag_names().into_iter().cloned().collect();
    assert_eq!(names, vec!["a".to_string(), "b".to_string(), "a".to_string()]);
    assert!(txn.is_tagged(&"b".to_string()));
    assert!(!txn.is_tagged(&"c".to_string()));
}
