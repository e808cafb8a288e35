use ever_elect::address::{HashBytes, StdAddr};
use ever_elect::config::{DepoolRuntimeConfig, NewDepoolConfig};
use ever_elect::depool::{
    depool_has_source, depool_pooling_round_stake, depool_pooling_round_stake_from_state,
    format_depool_rounds, participant_round_stake, required_depool_stake,
    select_ready_depool_round, select_target_depool_round, select_target_depool_round_from_state,
    DePoolParticipant, DePoolParticipantRound, DePoolRound, DePoolState, ReadyDePoolRound,
};
use ever_elect::error::Error;

fn addr(byte: u8) -> StdAddr {
    StdAddr {
        workchain: 0,
        address: HashBytes([byte; 32]),
    }
}

fn round(id: u64, step: u8, stake: u64, supposed_elected_at: u32) -> DePoolRound {
    DePoolRound {
        id,
        supposed_elected_at,
        step,
        completion_reason: 7,
        stake,
        validator_stake: 3,
    }
}

fn state(rounds: Vec<DePoolRound>, proxies: Vec<StdAddr>) -> DePoolState {
    DePoolState {
        active: true,
        account_balance: 0,
        own_balance: 0,
        min_stake: 10,
        validator_assurance: 20,
        validator_wallet: None,
        rounds,
        proxies,
    }
}

fn holding(total_round_stake: u128, rounds: &[(u64, u64)]) -> DePoolParticipant {
    DePoolParticipant {
        total_round_stake,
        rounds: rounds
            .iter()
            .map(|(round_id, total)| DePoolParticipantRound {
                round_id: *round_id,
                total: *total,
            })
            .collect(),
    }
}

#[test]
fn target_needs_proxies() {
    assert_eq!(
        select_target_depool_round_from_state(&[round(1, 1, 5, 0)], &[], 1, 9),
        Err(Error::NoProxies)
    );
    assert_eq!(
        select_ready_depool_round(&state(vec![], vec![]), 9),
        Err(Error::NoProxies)
    );
}

#[test]
fn target_needs_the_required_stake() {
    let depool = state(vec![round(1, 1, 5, 0), round(2, 2, 5, 9)], vec![addr(1)]);
    assert_eq!(select_target_depool_round(&depool, 6, 9), Ok(None));
    assert_eq!(
        select_target_depool_round(&depool, 5, 9),
        Ok(Some(ReadyDePoolRound {
            id: 2,
            step: 2,
            completion_reason: 7,
            supposed_elected_at: 9,
            proxy: addr(1),
            stake: 5,
            validator_stake: 3,
        }))
    );
    let other = select_target_depool_round(&depool, 5, 8).expect("selects").expect("pooling");
    assert_eq!(other.id, 1);
}

#[test]
fn target_is_the_first_of_its_kind() {
    let depool = state(vec![round(4, 1, 5, 0), round(5, 1, 50, 0)], vec![addr(1), addr(2)]);
    let first = select_target_depool_round(&depool, 5, 9).expect("selects").expect("round");
    assert_eq!((first.id, first.proxy), (4, addr(1)));
    let second = select_target_depool_round(&depool, 6, 9).expect("selects").expect("round");
    assert_eq!((second.id, second.proxy), (5, addr(2)));
    assert!(depool_has_source(&depool.proxies, &second.proxy.address));
}

#[test]
fn ready_round_waits_for_the_request() {
    let depool = state(
        vec![round(6, 1, 5, 9), round(7, 2, 0, 9), round(8, 2, 5, 9)],
        vec![addr(1), addr(2)],
    );
    assert_eq!(select_ready_depool_round(&depool, 9), Ok(Some((7, addr(2)))));
    assert_eq!(select_ready_depool_round(&depool, 8), Ok(None));
}

#[test]
fn stake_in_a_round_is_the_first_entry() {
    let participant = holding(9, &[(1, 4), (2, 5), (1, 6)]);
    assert_eq!(participant_round_stake(Some(&participant), 1), 4);
    assert_eq!(participant_round_stake(Some(&participant), 2), 5);
    assert_eq!(participant_round_stake(Some(&participant), 3), 0);
    assert_eq!(participant_round_stake(None, 1), 0);
}

#[test]
fn pooling_and_previous_round_count() {
    let rounds = [round(0, 9, 0, 0), round(1, 2, 0, 0), round(2, 1, 0, 0), round(3, 0, 0, 0)];
    let participant = holding(100, &[(0, u64::MAX), (1, 7), (2, u64::MAX)]);
    let stake = depool_pooling_round_stake_from_state(&rounds, Some(&participant));
    assert_eq!(stake.current, 2 * (u64::MAX as u128));
    assert_eq!(stake.rounds_label, "pooling:2+prev:0");
}

#[test]
fn third_round_counts_without_a_pooling_one() {
    let rounds = [round(10, 9, 0, 0), round(11, 2, 0, 0), round(12, 3, 0, 0)];
    let participant = holding(100, &[(10, 1), (11, 2), (12, 4)]);
    let stake = depool_pooling_round_stake(&state(rounds.to_vec(), vec![]), Some(&participant));
    assert_eq!(stake.current, 5);
    assert_eq!(stake.rounds_label, "pooling:12+prev:10");
}

#[test]
fn everything_counts_with_few_rounds() {
    let rounds = [round(10, 1, 0, 0), round(11, 2, 0, 0)];
    let stake = depool_pooling_round_stake_from_state(&rounds, Some(&holding(100, &[(10, 1)])));
    assert_eq!(stake.current, 100);
    assert_eq!(stake.rounds_label, "all");
    assert_eq!(depool_pooling_round_stake_from_state(&[], None).current, 0);
}

#[test]
fn required_stake_is_the_largest_demand() {
    let mut depool = state(vec![], vec![]);
    let mut config = DepoolRuntimeConfig {
        address: "0:aa".to_string(),
        new: None,
    };
    assert_eq!(required_depool_stake(&depool, &config), Ok(20));
    depool.min_stake = 30;
    assert_eq!(required_depool_stake(&depool, &config), Ok(30));
    config.new = Some(NewDepoolConfig {
        address: "0:aa".to_string(),
        seed: None,
        public: "pub".to_string(),
        secret: "sec".to_string(),
        min_stake: "1".to_string(),
        validator_assurance: "0.000000031".to_string(),
        participant_reward_fraction: 95,
    });
    assert_eq!(required_depool_stake(&depool, &config), Ok(31));
    config.new.as_mut().expect("new").validator_assurance = "99999999999".to_string();
    assert_eq!(required_depool_stake(&depool, &config), Err(Error::AssuranceTooLarge));
}

#[test]
fn proxies_are_sources() {
    let other_chain = StdAddr {
        workchain: -1,
        address: HashBytes([3; 32]),
    };
    let proxies = [addr(1), addr(2), other_chain];
    assert!(depool_has_source(&proxies, &HashBytes([2; 32])));
    assert!(depool_has_source(&proxies, &HashBytes([3; 32])));
    assert!(!depool_has_source(&proxies, &HashBytes([4; 32])));
    assert!(!depool_has_source(&[], &HashBytes([2; 32])));
}

#[test]
fn rounds_are_listed() {
    assert_eq!(format_depool_rounds(&[]), "none");
    assert_eq!(
        format_depool_rounds(&[round(1, 2, 4, 5), round(10, 0, 0, 0)]),
        "{id=1, supposed_elected_at=5, step=2, stake=4, validator_stake=3}, {id=10, supposed_elected_at=0, step=0, stake=0, validator_stake=3}"
    );
}
