//! Tests of the slot registry's bookkeeping.

use rusty_code::registry::{SlotError, SlotRegistry, METHOD_COUNT_MAX};
use rusty_code::slot::TestResult;

fn counter_sum(s: &TestResult) -> u64 {
    s.taken_correct + s.taken_incorrect + s.not_taken_correct + s.not_taken_incorrect
}

#[test]
fn fresh_registry_is_zeroed() {
    let reg = SlotRegistry::new();
    assert_eq!(reg.slot_count(), 4);
    assert_eq!(METHOD_COUNT_MAX, 4);
    assert!(reg.is_wf());
    for i in 0..reg.slot_count() {
        let s = reg.slot(i);
        assert_eq!(s.taken_correct, 0);
        assert_eq!(s.taken_incorrect, 0);
        assert_eq!(s.not_taken_correct, 0);
        assert_eq!(s.not_taken_incorrect, 0);
        assert!(!s.used);
        assert_eq!(s.name, "");
    }
}

#[test]
fn default_slot_is_zeroed() {
    let s = TestResult::default();
    assert_eq!(counter_sum(&s), 0);
    assert!(!s.used);
    assert_eq!(s.name, "");
}

#[test]
fn each_outcome_moves_its_own_counter() {
    let mut reg = SlotRegistry::new();
    assert!(reg.report_branch(0, 0x1000, true, true).is_ok());
    assert!(reg.report_branch(0, 0x1004, true, false).is_ok());
    assert!(reg.report_branch(0, 0x1008, false, false).is_ok());
    assert!(reg.report_branch(0, 0x100c, false, true).is_ok());
    let s = reg.slot(0);
    assert_eq!(s.taken_correct, 1);
    assert_eq!(s.taken_incorrect, 1);
    assert_eq!(s.not_taken_correct, 1);
    assert_eq!(s.not_taken_incorrect, 1);
    assert!(s.used);
}

#[test]
fn one_report_touches_exactly_one_counter() {
    let mut reg = SlotRegistry::new();
    assert!(reg.report_branch(1, 0x2000, false, false).is_ok());
    let s = reg.slot(1);
    assert_eq!(s.not_taken_correct, 1);
    assert_eq!(s.taken_correct, 0);
    assert_eq!(s.taken_incorrect, 0);
    assert_eq!(s.not_taken_incorrect, 0);
}

#[test]
fn counter_sum_counts_the_calls() {
    let mut reg = SlotRegistry::new();
    for k in 0..5u64 {
        assert!(reg.report_branch(2, 0x3000 + 4 * k, k % 2 == 0, k % 3 == 0).is_ok());
    }
    assert_eq!(counter_sum(&reg.slot(2)), 5);
    assert_eq!(counter_sum(&reg.slot(0)), 0);
    assert_eq!(counter_sum(&reg.slot(1)), 0);
    assert_eq!(counter_sum(&reg.slot(3)), 0);
}

#[test]
fn reports_to_distinct_slots_stay_independent() {
    let mut reg = SlotRegistry::new();
    for _ in 0..3 {
        assert!(reg.report_branch(0, 0x10, true, true).is_ok());
    }
    for _ in 0..7 {
        assert!(reg.report_branch(3, 0x20, false, true).is_ok());
    }
    assert_eq!(counter_sum(&reg.slot(0)), 3);
    assert_eq!(counter_sum(&reg.slot(3)), 7);
    assert!(!reg.slot(1).used);
    assert!(!reg.slot(2).used);
}

#[test]
fn out_of_range_index_is_rejected_and_changes_nothing() {
    let mut reg = SlotRegistry::new();
    assert!(reg.report_branch(1, 0x40, true, false).is_ok());
    let before: Vec<TestResult> = (0..reg.slot_count()).map(|i| reg.slot(i)).collect();
    for bad in [4usize, 5, 100, usize::MAX] {
        let r = reg.report_branch(bad, 0x44, true, true);
        assert_eq!(r, Err(SlotError::SlotIndexOutOfRange));
    }
    for (i, old) in before.iter().enumerate() {
        let now = reg.slot(i);
        assert_eq!(now.taken_correct, old.taken_correct);
        assert_eq!(now.taken_incorrect, old.taken_incorrect);
        assert_eq!(now.not_taken_correct, old.not_taken_correct);
        assert_eq!(now.not_taken_incorrect, old.not_taken_incorrect);
        assert_eq!(now.used, old.used);
        assert_eq!(now.name, old.name);
    }
}

#[test]
fn used_never_falls_back() {
    let mut reg = SlotRegistry::new();
    assert!(!reg.slot(0).used);
    assert!(reg.report_branch(0, 0x50, true, true).is_ok());
    assert!(reg.slot(0).used);
    assert!(reg.report_branch(0, 0x54, false, false).is_ok());
    assert!(reg.slot(0).used);
    assert!(reg.name_slot(0, "gshare").is_ok());
    assert!(reg.slot(0).used);
    assert!(reg.report_branch(4, 0x58, true, true).is_err());
    assert!(reg.slot(0).used);
}

#[test]
fn naming_marks_used_and_keeps_counters() {
    let mut reg = SlotRegistry::new();
    assert!(reg.name_slot(1, "ttage").is_ok());
    let s = reg.slot(1);
    assert_eq!(s.name, "ttage");
    assert!(s.used);
    assert_eq!(counter_sum(&s), 0);
    assert!(reg.is_wf());
    assert_eq!(reg.name_slot(4, "nope"), Err(SlotError::SlotIndexOutOfRange));
    assert_eq!(reg.slot(1).name, "ttage");
}

#[test]
fn name_me_assigns_the_label_in_place() {
    let mut s = TestResult::default();
    s.name_me("Hi");
    assert_eq!(s.name, "Hi");
    assert!(s.used);
    assert_eq!(counter_sum(&s), 0);
}

#[test]
fn headroom_reflects_the_counter_sum() {
    let mut reg = SlotRegistry::new();
    assert!(reg.has_headroom(0));
    assert!(reg.report_branch(0, 0x60, true, true).is_ok());
    assert!(reg.has_headroom(0));
}
