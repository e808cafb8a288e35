use ever_elect::schedule::{
    boundary_wait_secs, compute_simple_stake_unfreeze_wait_secs, elector_time_diff,
    simple_stake_unfreeze_wait,
};

#[test]
fn boundary_waits_are_not_too_short() {
    assert_eq!(boundary_wait_secs(0), 5);
    assert_eq!(boundary_wait_secs(5), 5);
    assert_eq!(boundary_wait_secs(6), 6);
    assert_eq!(boundary_wait_secs(u32::MAX), u32::MAX as u64);
}

#[test]
fn time_lag_is_capped() {
    assert_eq!(elector_time_diff(1_000, Some(990)), 10);
    assert_eq!(elector_time_diff(1_000, Some(880)), 120);
    assert_eq!(elector_time_diff(1_000, Some(100)), 120);
    assert_eq!(elector_time_diff(1_000, Some(1_001)), 0);
    assert_eq!(elector_time_diff(1_000, None), 120);
    assert_eq!(elector_time_diff(7, None), 7);
}

#[test]
fn no_wait_without_a_frozen_stake() {
    assert_eq!(compute_simple_stake_unfreeze_wait_secs(None, 2_000, 1_100, 7), None);
    assert_eq!(simple_stake_unfreeze_wait(None, 2_000, 1_100, 7), None);
}

#[test]
fn no_wait_for_a_stake_that_is_there() {
    assert_eq!(compute_simple_stake_unfreeze_wait_secs(Some(1_000), 2_000, 1_600, 7), None);
    assert_eq!(compute_simple_stake_unfreeze_wait_secs(Some(1_000), 2_000, 1_599, 7), Some(8));
}

#[test]
fn waits_for_a_frozen_stake_up_to_the_deadline() {
    assert_eq!(compute_simple_stake_unfreeze_wait_secs(Some(1_280), 2_000, 1_000, 0), Some(880));
    assert_eq!(compute_simple_stake_unfreeze_wait_secs(Some(1_281), 2_000, 1_000, 0), None);
    assert_eq!(compute_simple_stake_unfreeze_wait_secs(Some(u32::MAX), u32::MAX, 0, 0), None);
}

#[test]
fn waits_for_a_frozen_stake_are_boundary_waits() {
    assert_eq!(simple_stake_unfreeze_wait(Some(1_000), 2_000, 1_100, 7), Some(507));
    assert_eq!(simple_stake_unfreeze_wait(Some(1_000), 2_000, 1_599, 0), Some(5));
    assert_eq!(
        simple_stake_unfreeze_wait(Some(1_000), 2_000, 1_100, u32::MAX),
        Some(u32::MAX as u64)
    );
}
