use ever_elect::address::{HashBytes, StdAddr};
use ever_elect::depool::{
    depool_pooling_round_stake_from_state, select_target_depool_round_from_state,
    DePoolParticipant, DePoolParticipantRound, DePoolRound, DEPOOL_ROUND_STEP_POOLING,
    DEPOOL_ROUND_STEP_WAITING_VALIDATOR_REQUEST,
};
use ever_elect::schedule::compute_simple_stake_unfreeze_wait_secs;

fn proxy() -> StdAddr {
    StdAddr {
        workchain: 0,
        address: HashBytes([0x11; 32]),
    }
}

fn depool_round(id: u64, step: u8, stake: u64, supposed_elected_at: u32) -> DePoolRound {
    DePoolRound {
        id,
        supposed_elected_at,
        step,
        completion_reason: 0,
        stake,
        validator_stake: 0,
    }
}

fn participant_with_rounds(rounds: &[(u64, u64)]) -> DePoolParticipant {
    DePoolParticipant {
        total_round_stake: rounds.iter().map(|(_, total)| *total as u128).sum(),
        rounds: rounds
            .iter()
            .map(|(round_id, total)| DePoolParticipantRound {
                round_id: *round_id,
                total: *total,
            })
            .collect(),
    }
}

#[test]
fn selects_funded_pooling_round_as_ticktock_candidate() {
    let rounds = vec![
        depool_round(0, 9, 0, 0),
        depool_round(1, 6, 0, 0),
        depool_round(2, DEPOOL_ROUND_STEP_POOLING, 505_000_000_000_000, 0),
        depool_round(3, 0, 0, 0),
    ];

    let selected = select_target_depool_round_from_state(
        &rounds,
        &[proxy()],
        5_000_000_000_000,
        1_777_634_017,
    )
    .expect("select target round")
    .expect("pooling round should be selected");

    assert_eq!(selected.id, 2);
    assert_eq!(selected.step, DEPOOL_ROUND_STEP_POOLING);
}

#[test]
fn prefers_current_election_round_over_pooling_candidate() {
    let election_id = 1_777_634_017;
    let rounds = vec![
        depool_round(2, DEPOOL_ROUND_STEP_POOLING, 505_000_000_000_000, 0),
        depool_round(
            4,
            DEPOOL_ROUND_STEP_WAITING_VALIDATOR_REQUEST,
            505_000_000_000_000,
            election_id,
        ),
    ];

    let selected = select_target_depool_round_from_state(
        &rounds,
        &[proxy()],
        5_000_000_000_000,
        election_id,
    )
    .expect("select target round")
    .expect("current election round should be selected");

    assert_eq!(selected.id, 4);
    assert_eq!(selected.step, DEPOOL_ROUND_STEP_WAITING_VALIDATOR_REQUEST);
}

#[test]
fn staking_target_tracks_pooling_step_after_ticktock() {
    let election_id = 1_777_634_017;
    let rounds = vec![
        depool_round(0, 9, 0, 0),
        depool_round(1, 6, 0, 0),
        depool_round(
            2,
            DEPOOL_ROUND_STEP_WAITING_VALIDATOR_REQUEST,
            505_000_000_000_000,
            election_id,
        ),
        depool_round(3, DEPOOL_ROUND_STEP_POOLING, 0, 0),
    ];
    let participant = participant_with_rounds(&[(2, 5_000_000_000_000)]);

    let stake = depool_pooling_round_stake_from_state(&rounds, Some(&participant));

    assert_eq!(stake.current, 0);
    assert_eq!(stake.rounds_label, "pooling:3+prev:0");
}

#[test]
fn simple_unfreeze_wait_includes_offset_and_time_diff() {
    let wait = compute_simple_stake_unfreeze_wait_secs(Some(1_000), 2_000, 1_100, 7)
        .expect("wait for unfreeze");

    assert_eq!(wait, 507);
}

#[test]
fn simple_unfreeze_wait_skips_after_election_deadline() {
    let wait = compute_simple_stake_unfreeze_wait_secs(Some(1_500), 2_000, 1_100, 7);

    assert_eq!(wait, None);
}
