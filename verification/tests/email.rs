use equailizer::date_helpers::Date;
use equailizer::email::{
    group_by_date, sending_identity, text_body, venmo_note, venmo_note_on, venmo_request_link,
    DayGroup, Identity, Txn,
};
use equailizer::usd::USD;

fn identity(id: Option<&str>, email: Option<&str>) -> Identity {
    Identity { id: id.map(|id| id.to_string()), email: email.map(|email| email.to_string()) }
}

#[test]
fn the_request_link_names_debtor_note_and_amount() {
    assert_eq!(
        venmo_request_link(
            &"some-debtor".to_string(),
            &"equailizer_2025-10-21".to_string(),
            &USD::new_from_cents(2650)
        ),
        "https://venmo.com/some-debtor?txn=charge&note=equailizer_2025-10-21&amount=26.50"
    );
    assert_eq!(
        venmo_request_link(&"".to_string(), &"".to_string(), &USD::new_from_cents(-5)),
        "https://venmo.com/?txn=charge&note=&amount=-0.05"
    );
}

#[test]
fn the_note_names_the_day() {
    let day = Date::from_ymd_opt(2025, 10, 21).expect("NaiveDate creation failed");
    assert_eq!(venmo_note(&day), "equailizer_2025-10-21");
    let early = Date::from_ymd_opt(987, 1, 2).expect("NaiveDate creation failed");
    assert_eq!(venmo_note(&early), "equailizer_0987-01-02");
    assert_eq!(venmo_note_on(&"2025-10-21".to_string()), "equailizer_2025-10-21");
    assert_eq!(venmo_note_on(&"".to_string()), "equailizer_");
}

#[test]
fn the_text_body_carries_link_and_batch_id() {
    assert_eq!(
        text_body(&"https://venmo.com/x".to_string(), &"b-1".to_string()),
        "New batch ready!\n\nClick here to initiate Venmo request: https://venmo.com/x\n\nbatch id: b-1"
    );
}

#[test]
fn the_first_identity_with_the_address_and_an_id_sends() {
    let address = "quail@example.com".to_string();
    let identities = vec![
        identity(Some("i0"), Some("other@example.com")),
        identity(None, Some("quail@example.com")),
        identity(Some("i2"), None),
        identity(Some("i3"), Some("quail@example.com")),
        identity(Some("i4"), Some("quail@example.com")),
    ];
    assert_eq!(sending_identity(&identities, &address), Some("i3".to_string()));
    assert_eq!(sending_identity(&identities[..3].to_vec(), &address), None);
    assert_eq!(sending_identity(&vec![], &address), None);
    assert_eq!(
        sending_identity(&identities, &"QUAIL@example.com".to_string()),
        None
    );
}

fn line(payee: &str, cents: i64, month: u32, day: u32) -> Txn {
    Txn {
        payee: payee.to_string(),
        amount: USD::new_from_cents(cents),
        date: Date::from_ymd_opt(2025, month, day).expect("NaiveDate creation failed"),
    }
}

#[test]
fn lines_are_grouped_by_day_in_the_order_of_first_occurrence() {
    let groups = group_by_date(vec![
        line("a", 1, 10, 21),
        line("b", 2, 10, 22),
        line("c", 3, 10, 21),
        line("d", 4, 10, 1),
        line("a", 1, 10, 21),
        line("e", 5, 1, 22),
    ]);
    assert_eq!(
        groups,
        vec![
            DayGroup {
                date: Date::from_ymd_opt(2025, 10, 21).expect("NaiveDate creation failed"),
                label: "Oct 21, 2025".to_string(),
                txns: vec![line("a", 1, 10, 21), line("c", 3, 10, 21), line("a", 1, 10, 21)],
            },
            DayGroup {
                date: Date::from_ymd_opt(2025, 10, 22).expect("NaiveDate creation failed"),
                label: "Oct 22, 2025".to_string(),
                txns: vec![line("b", 2, 10, 22)],
            },
            DayGroup {
                date: Date::from_ymd_opt(2025, 10, 1).expect("NaiveDate creation failed"),
                label: "Oct 01, 2025".to_string(),
                txns: vec![line("d", 4, 10, 1)],
            },
            DayGroup {
                date: Date::from_ymd_opt(2025, 1, 22).expect("NaiveDate creation failed"),
                label: "Jan 22, 2025".to_string(),
                txns: vec![line("e", 5, 1, 22)],
            },
        ]
    );
}

#[test]
fn no_lines_make_no_groups() {
    assert!(group_by_date(vec![]).is_empty());
}
