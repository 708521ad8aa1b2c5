use bank_forks_utils::enforcement::apply_hard_forks;
use bank_forks_utils::hard_forks::HardForkSet;
use bank_forks_utils::root_state::RootState;

#[test]
fn candidates_filtered_against_root_slot() {
    // Root slot 100, candidates [50, 150, 150, 200]: the stale candidate is
    // dropped, the duplicate collapses, and the final set is {150, 200}.
    let mut root = RootState::from_genesis(100, 0);
    let candidates: Vec<u64> = vec![50, 150, 150, 200];
    let ignored = apply_hard_forks(&mut root, &candidates);
    assert_eq!(root.hard_forks.slots, vec![150, 200]);
    assert_eq!(ignored, vec![50]);
}

#[test]
fn registration_is_idempotent() {
    let mut once = HardForkSet::new();
    once.register(150);
    let mut twice = HardForkSet::new();
    twice.register(150);
    twice.register(150);
    assert_eq!(once.slots, twice.slots);
    assert_eq!(once.slots, vec![150]);
}

#[test]
fn registration_is_order_independent() {
    let mut ascending = HardForkSet::new();
    ascending.register(150);
    ascending.register(200);
    ascending.register(300);
    let mut descending = HardForkSet::new();
    descending.register(300);
    descending.register(200);
    descending.register(150);
    assert_eq!(ascending.slots, descending.slots);
    assert_eq!(ascending.slots, vec![150, 200, 300]);
}

#[test]
fn stale_candidates_never_enter_the_set() {
    let mut root = RootState::from_genesis(1000, 0);
    let candidates: Vec<u64> = vec![0, 1, 999, 1000, 1000, 500];
    let ignored = apply_hard_forks(&mut root, &candidates);
    assert!(root.hard_forks.slots.is_empty());
    assert_eq!(ignored, vec![0, 1, 999, 1000, 1000, 500]);
    assert!(!root.hard_forks.contains_slot(1000));
}

#[test]
fn empty_candidate_list_changes_nothing() {
    let mut root = RootState::from_genesis(7, 0);
    let candidates: Vec<u64> = Vec::new();
    let ignored = apply_hard_forks(&mut root, &candidates);
    assert!(ignored.is_empty());
    assert!(root.hard_forks.slots.is_empty());
}

#[test]
fn largest_slot_can_be_registered() {
    let mut root = RootState::from_genesis(0, 0);
    let candidates: Vec<u64> = vec![u64::MAX, 1];
    let ignored = apply_hard_forks(&mut root, &candidates);
    assert_eq!(root.hard_forks.slots, vec![1, u64::MAX]);
    assert!(ignored.is_empty());
    assert!(root.hard_forks.contains_slot(u64::MAX));
}

#[test]
fn contains_slot_reports_membership() {
    let mut set = HardForkSet::new();
    assert!(!set.contains_slot(5));
    set.register(5);
    set.register(9);
    assert!(set.contains_slot(5));
    assert!(set.contains_slot(9));
    assert!(!set.contains_slot(7));
}

#[test]
fn root_slot_zero_registers_all_positive_candidates() {
    // The genesis root stands at slot zero, so every positive candidate is
    // beyond it and only a zero candidate is stale.
    let mut root = RootState::from_genesis(0, 0);
    let candidates: Vec<u64> = vec![0, 3, 2];
    let ignored = apply_hard_forks(&mut root, &candidates);
    assert_eq!(root.hard_forks.slots, vec![2, 3]);
    assert_eq!(ignored, vec![0]);
}
