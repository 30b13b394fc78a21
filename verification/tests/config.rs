use equailizer::config::{
    batch_name_of, eq_batch_name, is_dry_run, set_dry_run, DryRun, RunMode, TAG_BATCH_ADD,
    TAG_BATCH_SPLIT,
};

#[test]
fn a_run_is_live_until_a_dry_run_is_chosen() {
    let flag = DryRun::new();
    assert!(!is_dry_run(&flag));
    assert_eq!(flag.mode(), RunMode::Live);
}

#[test]
fn the_choice_of_a_dry_run_is_kept() {
    let mut flag = DryRun::new();
    set_dry_run(&mut flag, true);
    assert!(is_dry_run(&flag));
    assert_eq!(flag.mode(), RunMode::DryRun);
    let mut flag = DryRun::new();
    set_dry_run(&mut flag, false);
    assert!(!is_dry_run(&flag));
    assert_eq!(flag.mode(), RunMode::Live);
}

#[test]
fn the_tags_are_the_ones_the_user_sets() {
    assert_eq!(TAG_BATCH_ADD, "eq-to-batch");
    assert_eq!(TAG_BATCH_SPLIT, "eq-to-split");
}

#[test]
fn batch_names_are_made_from_uuids() {
    assert_eq!(
        eq_batch_name(0xa1a2a3a4b1b2c1c2d1d2d3d4d5d6d7d8),
        "eqa1a2a3a4-b1b2-c1c2-d1d2-d3d4d5d6d7d8"
    );
    assert_eq!(eq_batch_name(0), "eq00000000-0000-0000-0000-000000000000");
    assert_eq!(eq_batch_name(u128::MAX), "eqffffffff-ffff-ffff-ffff-ffffffffffff");
}

#[test]
fn batch_names_start_with_eq() {
    assert_eq!(batch_name_of(&"1f0e".to_string()), "eq1f0e");
    assert_eq!(batch_name_of(&"".to_string()), "eq");
}
