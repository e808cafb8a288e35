use ever_elect::address::{HashBytes, StdAddr};
use ever_elect::config::{AppConfig, DepoolRuntimeConfig, StakeConfig};
use ever_elect::confirm::{CurrentElection, Member};
use ever_elect::depool::{DePoolRound, DePoolState, ReadyDePoolRound};
use ever_elect::error::Error;
use ever_elect::managed::{
    DepoolElection, DepoolEvent, RoundUpdate, SimpleElection, SimpleEvent, SimpleTerms,
    UpdateEvent,
};

const TOKEN: u128 = 1_000_000_000;

fn app() -> AppConfig {
    AppConfig::default(None)
}

fn addr(byte: u8) -> StdAddr {
    StdAddr {
        workchain: 0,
        address: HashBytes([byte; 32]),
    }
}

fn config() -> DepoolRuntimeConfig {
    DepoolRuntimeConfig {
        address: "0:aa".to_string(),
        new: None,
    }
}

fn depool(step: u8, supposed_elected_at: u32, completion_reason: u8) -> DePoolState {
    DePoolState {
        active: true,
        account_balance: 0,
        own_balance: 0,
        min_stake: 10,
        validator_assurance: 100,
        validator_wallet: Some(addr(1)),
        rounds: vec![DePoolRound {
            id: 3,
            supposed_elected_at,
            step,
            completion_reason,
            stake: 100,
            validator_stake: 1,
        }],
        proxies: vec![addr(7), addr(8)],
    }
}

fn step(state: RoundUpdate, event: UpdateEvent, pool: &DePoolState) -> RoundUpdate {
    state.next(event, pool, &config(), &app(), TOKEN, 9)
}

fn looked(pool: &DePoolState, state: RoundUpdate) -> RoundUpdate {
    let state = step(state, UpdateEvent::DepoolRefreshed, pool);
    assert!(matches!(state, RoundUpdate::EnsureRoundStake { .. }));
    let state = step(state, UpdateEvent::RoundStakeEnsured, pool);
    assert!(matches!(state, RoundUpdate::RefreshAgain { .. }));
    step(state, UpdateEvent::DepoolRefreshed, pool)
}

fn round() -> ReadyDePoolRound {
    ReadyDePoolRound {
        id: 3,
        step: 2,
        completion_reason: 0,
        supposed_elected_at: 9,
        proxy: addr(8),
        stake: 100,
        validator_stake: 1,
    }
}

fn current(src: Option<u8>) -> CurrentElection {
    CurrentElection {
        elect_at: 9,
        member: src.map(|byte| Member {
            src_addr: HashBytes([byte; 32]),
        }),
    }
}

fn terms() -> SimpleTerms {
    SimpleTerms {
        stake: StakeConfig::Float {
            keep_wallet_balance: "100".to_string(),
        },
        elections_stake: None,
        elector_gas: TOKEN,
        transfer_reserve: TOKEN / 2,
        registered: false,
        until_elections_end: 1_000,
    }
}

#[test]
fn ready_rounds_need_no_ticktock() {
    let state = looked(&depool(2, 9, 0), RoundUpdate::update_depool_for_election());
    assert_eq!(state, RoundUpdate::Ready { round: round() });
}

#[test]
fn at_most_three_ticktocks_go_out() {
    let pool = depool(1, 0, 0);
    let mut state = RoundUpdate::update_depool_for_election();
    let mut ticktocks = 0;
    loop {
        state = looked(&pool, state);
        if state == RoundUpdate::MissedCurrentElection {
            break;
        }
        assert!(matches!(state, RoundUpdate::RefreshWallet { attempt } if attempt == ticktocks + 1));
        state = step(state, UpdateEvent::WalletRefreshed { balance: 27 * TOKEN + 1 }, &pool);
        assert!(matches!(state, RoundUpdate::SendTicktock { value: TOKEN, .. }));
        ticktocks += 1;
        state = step(state, UpdateEvent::Sent, &pool);
        assert!(matches!(state, RoundUpdate::Sleep { secs: 60, .. }));
        state = step(state, UpdateEvent::Slept, &pool);
    }
    assert_eq!(ticktocks, 3);
}

#[test]
fn poor_wallets_send_no_ticktock() {
    let pool = depool(1, 0, 0);
    let state = looked(&pool, RoundUpdate::update_depool_for_election());
    assert_eq!(
        step(state, UpdateEvent::WalletRefreshed { balance: 27 * TOKEN }, &pool),
        RoundUpdate::NotReady
    );
}

#[test]
fn fake_rounds_end_an_update_after_a_ticktock() {
    let pool = depool(1, 0, 2);
    let first = RoundUpdate::update_depool_for_election();
    assert!(matches!(looked(&pool, first), RoundUpdate::RefreshWallet { attempt: 1 }));
    let later = RoundUpdate::RefreshDepool {
        attempt: 2,
        ticktocked: true,
    };
    assert_eq!(looked(&pool, later), RoundUpdate::NotReady);
}

#[test]
fn updates_need_a_funded_round_and_proxies() {
    let mut pool = depool(3, 0, 0);
    assert_eq!(
        looked(&pool, RoundUpdate::update_depool_for_election()),
        RoundUpdate::NotReady
    );
    pool.proxies.clear();
    assert_eq!(
        looked(&pool, RoundUpdate::update_depool_for_election()),
        RoundUpdate::Failed {
            error: Error::NoProxies
        }
    );
}

#[test]
fn registered_depools_wait_for_the_end() {
    let pool = depool(1, 0, 0);
    let mut missed = Some(9);
    assert_eq!(
        DepoolElection::run_depool_election(&current(Some(7)), &pool, &mut missed, &app(), 500),
        DepoolElection::Finished { wait_secs: 500 }
    );
    assert_eq!(missed, Some(9));
}

#[test]
fn missed_elections_are_left_alone_until_the_next() {
    let pool = depool(1, 0, 0);
    let mut missed = None;
    let state =
        DepoolElection::run_depool_election(&current(Some(6)), &pool, &mut missed, &app(), 500);
    assert_eq!(state, DepoolElection::UpdateRounds);
    let event = DepoolEvent::Updated {
        update: RoundUpdate::MissedCurrentElection,
    };
    assert_eq!(
        state.next(event, &mut missed, 9, &app()),
        DepoolElection::Finished { wait_secs: 60 }
    );
    assert_eq!(missed, Some(9));
    assert_eq!(
        DepoolElection::run_depool_election(&current(None), &pool, &mut missed, &app(), 500),
        DepoolElection::Finished { wait_secs: 60 }
    );
    assert_eq!(missed, Some(9));
    let next = CurrentElection {
        elect_at: 10,
        member: None,
    };
    assert_eq!(
        DepoolElection::run_depool_election(&next, &pool, &mut missed, &app(), 500),
        DepoolElection::UpdateRounds
    );
    assert_eq!(missed, None);
}

#[test]
fn requests_go_out_for_waiting_rounds() {
    let mut missed = None;
    let ready = |step: u8| DepoolEvent::Updated {
        update: RoundUpdate::Ready {
            round: ReadyDePoolRound { step, ..round() },
        },
    };
    let start = DepoolElection::UpdateRounds;
    assert_eq!(
        start.next(ready(3), &mut missed, 9, &app()),
        DepoolElection::Finished { wait_secs: 60 }
    );
    let state = start.next(ready(2), &mut missed, 9, &app());
    assert_eq!(state, DepoolElection::CheckStake { round: round() });
    let state = state.next(DepoolEvent::StakeAccepted, &mut missed, 9, &app());
    assert_eq!(
        state,
        DepoolElection::Participate {
            round: round(),
            value: 5 * TOKEN
        }
    );
    let state = state.next(DepoolEvent::Sent, &mut missed, 9, &app());
    assert_eq!(state, DepoolElection::Confirm);
    assert_eq!(
        state.next(DepoolEvent::Confirmed { wait_secs: 77 }, &mut missed, 9, &app()),
        DepoolElection::Finished { wait_secs: 77 }
    );
    assert_eq!(
        state.next(
            DepoolEvent::ConfirmFailed {
                error: Error::ForeignProxySource
            },
            &mut missed,
            9,
            &app()
        ),
        DepoolElection::Failed {
            error: Error::ForeignProxySource
        }
    );
    assert_eq!(missed, None);
}

#[test]
fn unready_depools_poll() {
    let mut missed = None;
    let start = DepoolElection::UpdateRounds;
    assert_eq!(
        start.next(
            DepoolEvent::Updated {
                update: RoundUpdate::NotReady
            },
            &mut missed,
            9,
            &app()
        ),
        DepoolElection::Finished { wait_secs: 60 }
    );
    assert_eq!(
        start.next(
            DepoolEvent::Updated {
                update: RoundUpdate::Failed {
                    error: Error::NoProxies
                }
            },
            &mut missed,
            9,
            &app()
        ),
        DepoolElection::Failed {
            error: Error::NoProxies
        }
    );
    assert_eq!(missed, None);
}

#[test]
fn simple_requests_go_out() {
    let state = SimpleElection::run_simple_election(None, 150 * TOKEN, &terms());
    assert_eq!(
        state,
        SimpleElection::BuildRequest {
            stake: 48_500_000_000
        }
    );
    let value = 49_500_000_000;
    let state = state.next(SimpleEvent::MessageBuilt { value }, &terms(), &app());
    assert_eq!(state, SimpleElection::RefreshForRequest { value });
    assert_eq!(
        state.next(SimpleEvent::WalletRefreshed { balance: value }, &terms(), &app()),
        SimpleElection::Finished { wait_secs: 60 }
    );
    let balance = value + TOKEN / 2;
    let state = state.next(SimpleEvent::WalletRefreshed { balance }, &terms(), &app());
    assert_eq!(state, SimpleElection::SendRequest { value });
    let state = state.next(SimpleEvent::Sent, &terms(), &app());
    assert_eq!(state, SimpleElection::Confirm);
    assert_eq!(
        state.next(SimpleEvent::Confirmed { wait_secs: 12 }, &terms(), &app()),
        SimpleElection::Finished { wait_secs: 12 }
    );
    assert_eq!(
        state.next(
            SimpleEvent::ConfirmFailed {
                error: Error::NotRegistered
            },
            &terms(),
            &app()
        ),
        SimpleElection::Failed {
            error: Error::NotRegistered
        }
    );
}

#[test]
fn earlier_stakes_are_recovered_first() {
    let mut terms = terms();
    terms.registered = true;
    let state = SimpleElection::run_simple_election(Some(1), 0, &terms);
    assert_eq!(state, SimpleElection::BuildRecovery);
    let state = state.next(SimpleEvent::MessageBuilt { value: TOKEN }, &terms, &app());
    assert_eq!(
        state.next(SimpleEvent::WalletRefreshed { balance: TOKEN }, &terms, &app()),
        SimpleElection::Finished { wait_secs: 60 }
    );
    let state = state
        .next(SimpleEvent::WalletRefreshed { balance: 2 * TOKEN }, &terms, &app())
        .next(SimpleEvent::Sent, &terms, &app());
    assert_eq!(state, SimpleElection::RefreshRecovered);
    assert_eq!(
        state.next(SimpleEvent::WalletRefreshed { balance: 0 }, &terms, &app()),
        SimpleElection::Finished { wait_secs: 1_000 }
    );
    terms.registered = false;
    assert_eq!(
        state.next(SimpleEvent::WalletRefreshed { balance: 0 }, &terms, &app()),
        SimpleElection::Failed {
            error: Error::FloatingStakeTooLow
        }
    );
}

#[test]
fn registered_validators_make_no_request() {
    let mut terms = terms();
    terms.registered = true;
    assert_eq!(
        SimpleElection::run_simple_election(Some(0), 150 * TOKEN, &terms),
        SimpleElection::Finished { wait_secs: 1_000 }
    );
}
