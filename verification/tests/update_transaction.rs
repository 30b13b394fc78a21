use equailizer::date_helpers::Date;
use equailizer::lunch_money::api::get_transactions::{may_be_truncated, PAGE_SIZE};
use equailizer::lunch_money::api::update_transaction::{
    auth_header, dry_run_outcome, interpret_response, request_body, split_result, transaction_url, update_result, Action, RequestBodySource, Response,
    SplitResponse, SplitUpdateItem, TransactionUpdateItem,
};
use equailizer::lunch_money::model::transaction::{Transaction, TransactionStatus};
use equailizer::usd::USD;

fn item() -> TransactionUpdateItem {
    TransactionUpdateItem {
        payee: None,
        category_id: Some(20),
        notes: None,
        tags: Some(vec!["other".to_string()]),
        status: Some(TransactionStatus::Cleared),
    }
}

fn lines() -> Vec<SplitUpdateItem> {
    vec![SplitUpdateItem {
        amount: USD::new_from_cents(750),
        payee: None,
        category_id: None,
        notes: None,
        date: None,
    }]
}

#[test]
fn a_request_has_the_parts_that_the_change_has() {
    let update = Action::Update(item());
    assert_eq!(
        request_body(&update),
        RequestBodySource { transaction: Some(&item()), split: None }
    );
    let split = Action::Split(lines());
    assert_eq!(request_body(&split), RequestBodySource { transaction: None, split: Some(&lines()) });
    let both = Action::UpdateAndSplit(item(), lines());
    assert_eq!(
        request_body(&both),
        RequestBodySource { transaction: Some(&item()), split: Some(&lines()) }
    );
}

#[test]
fn a_change_that_was_made_gives_its_split_ids() {
    let code = "200 OK".to_string();
    assert_eq!(
        interpret_response(Response::Success { updated: true, split: None }, &code),
        Ok(None)
    );
    assert_eq!(
        interpret_response(Response::Success { updated: true, split: Some(vec![5, 6]) }, &code),
        Ok(Some(SplitResponse { split_ids: vec![5, 6] }))
    );
    assert_eq!(
        interpret_response(Response::Success { updated: true, split: Some(vec![]) }, &code),
        Ok(Some(SplitResponse { split_ids: vec![] }))
    );
}

#[test]
fn a_change_that_was_not_made_gives_a_message() {
    let code = "404 Not Found".to_string();
    assert_eq!(
        interpret_response(Response::Success { updated: false, split: Some(vec![5, 6]) }, &code),
        Err("transaction not updated, no error given".to_string())
    );
    assert_eq!(
        interpret_response(
            Response::Error { error: vec!["bad category".to_string(), "bad tag".to_string()] },
            &code
        ),
        Err("bad category".to_string())
    );
    assert_eq!(
        interpret_response(Response::Error { error: vec![] }, &code),
        Err("unspecified error with response code 404 Not Found".to_string())
    );
}

#[test]
fn a_dry_run_answers_with_two_made_up_split_ids() {
    assert_eq!(dry_run_outcome(), Ok(Some(SplitResponse { split_ids: vec![0, 1] })));
}

#[test]
fn a_change_of_fields_does_not_need_split_ids() {
    assert_eq!(update_result(Ok(None)), Ok(()));
    assert_eq!(update_result(Ok(Some(SplitResponse { split_ids: vec![1] }))), Ok(()));
    assert_eq!(update_result(Err("no".to_string())), Err("no".to_string()));
}

#[test]
fn a_split_needs_split_ids() {
    assert_eq!(
        split_result(Ok(Some(SplitResponse { split_ids: vec![1, 2] }))),
        Ok(SplitResponse { split_ids: vec![1, 2] })
    );
    assert_eq!(
        split_result(Ok(None)),
        Err("no split ids found in transaction update that contained splits".to_string())
    );
    assert_eq!(split_result(Err("no".to_string())), Err("no".to_string()));
}

#[test]
fn requests_go_to_the_transaction_with_a_bearer_token() {
    assert_eq!(transaction_url(1024), "https://dev.lunchmoney.app/v1/transactions/1024");
    assert_eq!(transaction_url(0), "https://dev.lunchmoney.app/v1/transactions/0");
    assert_eq!(
        transaction_url(u32::MAX),
        "https://dev.lunchmoney.app/v1/transactions/4294967295"
    );
    assert_eq!(auth_header(&"abc".to_string()), "Bearer abc");
}

#[test]
fn a_full_page_may_be_truncated() {
    let txn = Transaction {
        id: 1,
        date: Date::from_ymd_opt(2025, 10, 21).expect("NaiveDate creation failed"),
        payee: "p".to_string(),
        amount: USD::new_from_cents(1),
        plaid_account_id: None,
        category_id: None,
        category_name: None,
        tags: vec![],
        notes: None,
        status: TransactionStatus::Cleared,
        parent_id: None,
        has_children: false,
        is_pending: false,
    };
    assert_eq!(PAGE_SIZE, 1000);
    assert!(!may_be_truncated(&vec![]));
    assert!(!may_be_truncated(&vec![txn.clone(); 999]));
    assert!(may_be_truncated(&vec![txn.clone(); 1000]));
    assert!(may_be_truncated(&vec![txn; 1001]));
}
