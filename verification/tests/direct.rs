use ever_elect::address::{HashBytes, StdAddr};
use ever_elect::config::{AppConfig, DepoolRuntimeConfig, NewDepoolConfig, StakeConfig};
use ever_elect::confirm::{CurrentElection, Member};
use ever_elect::depool::{DePoolRound, DePoolState};
use ever_elect::direct::{DirectDepoolElection, DirectEvent, DirectPrepare, DirectSimpleElection};
use ever_elect::error::Error;
use ever_elect::managed::SimpleTerms;
use ever_elect::wallet::DepoolCosts;

const TOKEN: u128 = 1_000_000_000;

const COSTS: DepoolCosts = DepoolCosts {
    gas: TOKEN,
    deploy_minimum: 20 * TOKEN,
};

fn app(send: bool) -> AppConfig {
    let mut config = AppConfig::default(None);
    config.send = send;
    config
}

fn addr(byte: u8) -> StdAddr {
    StdAddr {
        workchain: 0,
        address: HashBytes([byte; 32]),
    }
}

fn config() -> DepoolRuntimeConfig {
    DepoolRuntimeConfig {
        address: "0:aa".to_string(),
        new: Some(NewDepoolConfig {
            address: "0:aa".to_string(),
            seed: None,
            public: "pub".to_string(),
            secret: "sec".to_string(),
            min_stake: "2".to_string(),
            validator_assurance: "3".to_string(),
            participant_reward_fraction: 95,
        }),
    }
}

fn depool(active: bool) -> DePoolState {
    DePoolState {
        active,
        account_balance: 4 * TOKEN,
        own_balance: 0,
        min_stake: 10,
        validator_assurance: 100,
        validator_wallet: Some(addr(1)),
        rounds: vec![DePoolRound {
            id: 3,
            supposed_elected_at: 9,
            step: 2,
            completion_reason: 0,
            stake: 0,
            validator_stake: 0,
        }],
        proxies: vec![addr(7), addr(8)],
    }
}

fn prepare(
    state: DirectPrepare,
    event: DirectEvent,
    pool: &DePoolState,
    held: u128,
    send: bool,
) -> DirectPrepare {
    state.next(event, pool, held, &config(), &addr(1), &app(send), &COSTS)
}

fn terms() -> SimpleTerms {
    SimpleTerms {
        stake: StakeConfig::FromElectionsJson,
        elections_stake: Some("40".to_string()),
        elector_gas: TOKEN,
        transfer_reserve: TOKEN / 2,
        registered: false,
        until_elections_end: 1_000,
    }
}

#[test]
fn direct_deployment() {
    let start = DirectPrepare::prepare_depool();
    let state = prepare(start, DirectEvent::DepoolRefreshed, &depool(false), 0, true);
    assert_eq!(state, DirectPrepare::SendTopup { topup: 17 * TOKEN });
    let state = prepare(state, DirectEvent::Sent, &depool(false), 0, true);
    assert_eq!(state, DirectPrepare::RefreshFunded);
    let state = prepare(state, DirectEvent::DepoolRefreshed, &depool(false), 0, true);
    assert_eq!(
        state,
        DirectPrepare::Deploy {
            min_stake: 2 * TOKEN,
            validator_assurance: 3 * TOKEN
        }
    );
    let state = prepare(state, DirectEvent::Sent, &depool(false), 0, true);
    assert_eq!(state, DirectPrepare::RefreshDeployed);
    let state = prepare(state, DirectEvent::DepoolRefreshed, &depool(true), 3 * TOKEN, true);
    assert_eq!(state, DirectPrepare::Finished);
    let mut rich = depool(false);
    rich.account_balance = 21 * TOKEN;
    assert!(matches!(
        prepare(start, DirectEvent::DepoolRefreshed, &rich, 0, true),
        DirectPrepare::Deploy { .. }
    ));
}

#[test]
fn direct_staking() {
    let start = DirectPrepare::prepare_depool();
    let state = prepare(start, DirectEvent::DepoolRefreshed, &depool(true), 3 * TOKEN - 1, true);
    assert_eq!(state, DirectPrepare::RefreshWallet);
    assert_eq!(
        prepare(
            state,
            DirectEvent::WalletRefreshed { balance: 2 * TOKEN },
            &depool(true),
            0,
            true
        ),
        DirectPrepare::Finished
    );
    let state = prepare(
        state,
        DirectEvent::WalletRefreshed { balance: 5 * TOKEN },
        &depool(true),
        0,
        true,
    );
    assert_eq!(state, DirectPrepare::AddStake { stake: 3 * TOKEN });
    let state = prepare(state, DirectEvent::Sent, &depool(true), 0, true);
    let state = prepare(state, DirectEvent::DepoolRefreshed, &depool(true), 0, true);
    assert_eq!(state, DirectPrepare::Finished);
}

#[test]
fn direct_staking_spares_foreign_depools() {
    let mut pool = depool(true);
    pool.validator_wallet = Some(addr(2));
    assert_eq!(
        prepare(
            DirectPrepare::prepare_depool(),
            DirectEvent::DepoolRefreshed,
            &pool,
            0,
            true
        ),
        DirectPrepare::Failed {
            error: Error::ValidatorWalletMismatch
        }
    );
    let mut unknown = config();
    unknown.new = None;
    assert_eq!(
        DirectPrepare::prepare_depool().next(
            DirectEvent::DepoolRefreshed,
            &depool(false),
            0,
            &unknown,
            &addr(1),
            &app(true),
            &COSTS
        ),
        DirectPrepare::Failed {
            error: Error::DepoolNotActive
        }
    );
}

#[test]
fn dry_runs_prepare_without_submitting() {
    let start = DirectPrepare::prepare_depool();
    assert_eq!(
        prepare(start, DirectEvent::DepoolRefreshed, &depool(false), 0, false),
        DirectPrepare::Finished
    );
    let state = prepare(start, DirectEvent::DepoolRefreshed, &depool(true), 0, false);
    assert_eq!(state, DirectPrepare::RefreshWallet);
    assert_eq!(
        prepare(
            state,
            DirectEvent::WalletRefreshed { balance: 99 * TOKEN },
            &depool(true),
            0,
            false
        ),
        DirectPrepare::Finished
    );
}

#[test]
fn direct_depool_election() {
    let current = CurrentElection {
        elect_at: 9,
        member: None,
    };
    let pool = depool(true);
    let live = app(true);
    let state = DirectDepoolElection::run_depool_election(&current, &pool, 500);
    assert_eq!(state, DirectDepoolElection::RefreshDepool);
    let state = state.next(DirectEvent::DepoolRefreshed, &pool, 9, &live);
    assert_eq!(state, DirectDepoolElection::SendTicktock);
    let state = state.next(DirectEvent::Sent, &pool, 9, &live);
    assert_eq!(state, DirectDepoolElection::RefreshTicked);
    assert_eq!(
        state.next(DirectEvent::DepoolRefreshed, &pool, 10, &live),
        DirectDepoolElection::Finished { wait_secs: 60 }
    );
    let state = state.next(DirectEvent::DepoolRefreshed, &pool, 9, &live);
    assert_eq!(
        state,
        DirectDepoolElection::Prepare {
            round_id: 3,
            proxy: addr(8)
        }
    );
    let state = state.next(DirectEvent::Prepared, &pool, 9, &live);
    assert_eq!(
        state,
        DirectDepoolElection::Participate {
            round_id: 3,
            proxy: addr(8)
        }
    );
    let state = state.next(DirectEvent::Sent, &pool, 9, &live);
    assert_eq!(state, DirectDepoolElection::Confirm);
    assert_eq!(
        state.next(DirectEvent::Confirmed { wait_secs: 5 }, &pool, 9, &live),
        DirectDepoolElection::Finished { wait_secs: 5 }
    );
    assert_eq!(
        state.next(
            DirectEvent::ConfirmFailed {
                error: Error::NotRegisteredByDepool
            },
            &pool,
            9,
            &live
        ),
        DirectDepoolElection::Failed {
            error: Error::NotRegisteredByDepool
        }
    );
}

#[test]
fn dry_runs_elect_without_submitting() {
    let pool = depool(true);
    let dry = app(false);
    let state = DirectDepoolElection::RefreshDepool.next(DirectEvent::DepoolRefreshed, &pool, 9, &dry);
    assert!(matches!(state, DirectDepoolElection::Prepare { round_id: 3, .. }));
    assert_eq!(
        state.next(DirectEvent::Prepared, &pool, 9, &dry),
        DirectDepoolElection::Finished { wait_secs: 60 }
    );
    let mut bare = depool(true);
    bare.proxies.clear();
    assert_eq!(
        DirectDepoolElection::RefreshDepool.next(DirectEvent::DepoolRefreshed, &bare, 9, &dry),
        DirectDepoolElection::Failed {
            error: Error::NoProxies
        }
    );
}

#[test]
fn direct_depool_election_is_over_once_registered() {
    let current = CurrentElection {
        elect_at: 9,
        member: Some(Member {
            src_addr: HashBytes([7; 32]),
        }),
    };
    assert_eq!(
        DirectDepoolElection::run_depool_election(&current, &depool(true), 500),
        DirectDepoolElection::Finished { wait_secs: 500 }
    );
}

#[test]
fn direct_simple_election() {
    let live = app(true);
    let state = DirectSimpleElection::run_simple_election(Some(5), 7, &terms(), &live);
    assert_eq!(state, DirectSimpleElection::SendRecovery { balance: 7 });
    let state = state.next(DirectEvent::Sent, &terms(), &live);
    assert_eq!(state, DirectSimpleElection::CheckStake { stake: 40 * TOKEN });
    let state = state.next(DirectEvent::StakeAccepted, &terms(), &live);
    assert_eq!(state, DirectSimpleElection::SendRequest { stake: 40 * TOKEN });
    let state = state.next(DirectEvent::Sent, &terms(), &live);
    assert_eq!(state, DirectSimpleElection::Confirm);
    assert_eq!(
        state.next(DirectEvent::Confirmed { wait_secs: 6 }, &terms(), &live),
        DirectSimpleElection::Finished { wait_secs: 6 }
    );
}

#[test]
fn direct_float_counts_the_gas_only() {
    let mut terms = terms();
    terms.stake = StakeConfig::Float {
        keep_wallet_balance: "2".to_string(),
    };
    assert_eq!(
        DirectSimpleElection::run_simple_election(None, 10 * TOKEN, &terms, &app(true)),
        DirectSimpleElection::CheckStake { stake: 7 * TOKEN }
    );
    terms.stake = StakeConfig::FromElectionsJson;
    terms.elections_stake = None;
    assert_eq!(
        DirectSimpleElection::run_simple_election(None, 10 * TOKEN, &terms, &app(true)),
        DirectSimpleElection::Failed {
            error: Error::StakeUnavailable
        }
    );
}

#[test]
fn dry_runs_stake_without_submitting() {
    let dry = app(false);
    let state = DirectSimpleElection::run_simple_election(Some(5), 7, &terms(), &dry);
    assert_eq!(state, DirectSimpleElection::CheckStake { stake: 40 * TOKEN });
    assert_eq!(
        state.next(DirectEvent::StakeAccepted, &terms(), &dry),
        DirectSimpleElection::Finished { wait_secs: 60 }
    );
}

#[test]
fn direct_simple_election_is_over_once_registered() {
    let mut terms = terms();
    terms.registered = true;
    assert_eq!(
        DirectSimpleElection::run_simple_election(Some(5), 7, &terms, &app(true)),
        DirectSimpleElection::Finished { wait_secs: 1_000 }
    );
}
