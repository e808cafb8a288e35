use ever_elect::address::{HashBytes, StdAddr};
use ever_elect::config::{AppConfig, DepoolRuntimeConfig, NewDepoolConfig};
use ever_elect::depool::{DePoolParticipant, DePoolState};
use ever_elect::error::{Error, Setting};
use ever_elect::upkeep::{
    deployment_amounts, BalanceUpkeep, DeployFunding, PrepareDepool, PrepareEvent, ProxyUpkeep,
    StakeOutcome, StakeUpkeep, UpkeepEvent,
};
use ever_elect::wallet::DepoolCosts;

const TOKEN: u128 = 1_000_000_000;

const COSTS: DepoolCosts = DepoolCosts {
    gas: TOKEN,
    deploy_minimum: 20 * TOKEN,
};

fn app() -> AppConfig {
    AppConfig::default(None)
}

fn addr(byte: u8) -> StdAddr {
    StdAddr {
        workchain: 0,
        address: HashBytes([byte; 32]),
    }
}

fn depool() -> DePoolState {
    DePoolState {
        active: true,
        account_balance: 0,
        own_balance: 0,
        min_stake: 10,
        validator_assurance: 100,
        validator_wallet: Some(addr(1)),
        rounds: vec![],
        proxies: vec![],
    }
}

fn existing() -> DepoolRuntimeConfig {
    DepoolRuntimeConfig {
        address: "0:aa".to_string(),
        new: None,
    }
}

fn fresh() -> DepoolRuntimeConfig {
    DepoolRuntimeConfig {
        address: "0:aa".to_string(),
        new: Some(NewDepoolConfig {
            address: "0:aa".to_string(),
            seed: None,
            public: "pub".to_string(),
            secret: "sec".to_string(),
            min_stake: "2".to_string(),
            validator_assurance: "3".to_string(),
            participant_reward_fraction: 95,
        }),
    }
}

fn wallet_has(balance: u128) -> UpkeepEvent {
    UpkeepEvent::WalletRefreshed { balance }
}

#[test]
fn funded_depools_can_be_deployed() {
    assert_eq!(
        DeployFunding::ensure_depool_deploy_balance(20 * TOKEN, &COSTS),
        DeployFunding::Finished { ready: true }
    );
}

#[test]
fn deployment_is_funded_up_to_the_target() {
    let state = DeployFunding::ensure_depool_deploy_balance(12 * TOKEN, &COSTS);
    assert_eq!(state, DeployFunding::RefreshWallet { topup: 18 * TOKEN });
    let state = state.next(wallet_has(44 * TOKEN + 1), &app(), &COSTS);
    assert_eq!(state, DeployFunding::SendTopup { topup: 18 * TOKEN });
    let state = state.next(UpkeepEvent::Sent, &app(), &COSTS);
    assert_eq!(state, DeployFunding::RefreshDepool);
    for (account_balance, ready) in [(30 * TOKEN, true), (20 * TOKEN, true), (19 * TOKEN, false)] {
        assert_eq!(
            state.next(UpkeepEvent::DepoolRefreshed { account_balance }, &app(), &COSTS),
            DeployFunding::Finished { ready }
        );
    }
}

#[test]
fn deployment_target_covers_dear_costs() {
    let costs = DepoolCosts {
        gas: 2 * TOKEN,
        deploy_minimum: 50 * TOKEN,
    };
    assert_eq!(
        DeployFunding::ensure_depool_deploy_balance(TOKEN, &costs),
        DeployFunding::RefreshWallet { topup: 51 * TOKEN }
    );
}

#[test]
fn poor_wallets_fund_no_deployment() {
    let state = DeployFunding::ensure_depool_deploy_balance(12 * TOKEN, &COSTS);
    assert_eq!(
        state.next(wallet_has(44 * TOKEN), &app(), &COSTS),
        DeployFunding::Finished { ready: false }
    );
    let mut config = app();
    config.depool_wallet_reserve = "0".to_string();
    assert_eq!(
        state.next(wallet_has(u128::MAX), &config, &COSTS),
        DeployFunding::Failed {
            error: Error::ZeroWalletReserve
        }
    );
}

#[test]
fn answers_that_were_not_asked_for_are_ignored() {
    let state = DeployFunding::ensure_depool_deploy_balance(12 * TOKEN, &COSTS);
    assert_eq!(state.next(UpkeepEvent::Sent, &app(), &COSTS), state);
    let state = ProxyUpkeep::maintain_depool_proxy_balances(1);
    assert_eq!(state.next(UpkeepEvent::Sent, 1, &app(), TOKEN), state);
}

#[test]
fn low_balances_are_topped_up() {
    assert_eq!(
        BalanceUpkeep::maintain_depool_balance(20 * TOKEN as i128),
        BalanceUpkeep::Finished
    );
    let state = BalanceUpkeep::maintain_depool_balance(20 * TOKEN as i128 - 1);
    assert_eq!(state, BalanceUpkeep::RefreshWallet { topup: 10 * TOKEN + 1 });
    let state = BalanceUpkeep::maintain_depool_balance(-(TOKEN as i128));
    assert_eq!(state, BalanceUpkeep::RefreshWallet { topup: 31 * TOKEN });
    assert_eq!(
        state.next(wallet_has(57 * TOKEN), &app(), TOKEN),
        BalanceUpkeep::Finished
    );
    let state = state.next(wallet_has(57 * TOKEN + 1), &app(), TOKEN);
    assert_eq!(state, BalanceUpkeep::GiveFunds { topup: 31 * TOKEN });
    let state = state.next(UpkeepEvent::Sent, &app(), TOKEN);
    assert_eq!(state, BalanceUpkeep::RefreshDepool);
    assert_eq!(
        state.next(UpkeepEvent::DepoolRefreshed { account_balance: 0 }, &app(), TOKEN),
        BalanceUpkeep::Finished
    );
}

#[test]
fn absurd_balances_are_refused() {
    assert_eq!(
        BalanceUpkeep::maintain_depool_balance(i128::MIN),
        BalanceUpkeep::Failed {
            error: Error::TopupOutOfRange
        }
    );
    assert_eq!(
        BalanceUpkeep::maintain_depool_balance(30 * TOKEN as i128 - i128::MAX),
        BalanceUpkeep::RefreshWallet {
            topup: i128::MAX as u128
        }
    );
}

#[test]
fn proxies_are_kept_up_in_order() {
    assert_eq!(
        ProxyUpkeep::maintain_depool_proxy_balances(0),
        ProxyUpkeep::Finished
    );
    let state = ProxyUpkeep::maintain_depool_proxy_balances(2);
    assert_eq!(state, ProxyUpkeep::QueryProxy { index: 0 });
    let rich = state.next(UpkeepEvent::ProxyQueried { balance: 3 * TOKEN }, 2, &app(), TOKEN);
    assert_eq!(rich, ProxyUpkeep::QueryProxy { index: 1 });
    let low = state.next(UpkeepEvent::ProxyQueried { balance: 3 * TOKEN - 1 }, 2, &app(), TOKEN);
    assert_eq!(
        low,
        ProxyUpkeep::RefreshWallet {
            index: 0,
            topup: 2 * TOKEN + 1
        }
    );
    let poor = low.next(wallet_has(28 * TOKEN), 2, &app(), TOKEN);
    assert_eq!(poor, ProxyUpkeep::QueryProxy { index: 1 });
    let send = low.next(wallet_has(29 * TOKEN), 2, &app(), TOKEN);
    assert_eq!(
        send,
        ProxyUpkeep::SendTopup {
            index: 0,
            topup: 2 * TOKEN + 1
        }
    );
    let second = send.next(UpkeepEvent::Sent, 2, &app(), TOKEN);
    assert_eq!(second, ProxyUpkeep::QueryProxy { index: 1 });
    assert_eq!(
        second.next(UpkeepEvent::ProxyQueried { balance: 9 * TOKEN }, 2, &app(), TOKEN),
        ProxyUpkeep::Finished
    );
}

#[test]
fn stake_is_brought_to_what_is_required() {
    let mut held = DePoolParticipant {
        total_round_stake: 100,
        rounds: vec![],
    };
    assert_eq!(
        StakeUpkeep::ensure_depool_round_stake(&depool(), &existing(), Some(&held)),
        StakeUpkeep::Finished {
            outcome: StakeOutcome::Ready
        }
    );
    held.total_round_stake = 40;
    let state = StakeUpkeep::ensure_depool_round_stake(&depool(), &existing(), Some(&held));
    assert_eq!(state, StakeUpkeep::RefreshWallet { stake_to_add: 60 });
    held.total_round_stake = 95;
    assert_eq!(
        StakeUpkeep::ensure_depool_round_stake(&depool(), &existing(), Some(&held)),
        StakeUpkeep::RefreshWallet { stake_to_add: 10 }
    );
    let state = StakeUpkeep::ensure_depool_round_stake(&depool(), &existing(), None);
    assert_eq!(state, StakeUpkeep::RefreshWallet { stake_to_add: 100 });
}

#[test]
fn stake_comes_out_of_the_budget() {
    let state = StakeUpkeep::RefreshWallet { stake_to_add: 100 };
    assert_eq!(
        state.next(wallet_has(27 * TOKEN), &app(), TOKEN),
        StakeUpkeep::Finished {
            outcome: StakeOutcome::NoBudget
        }
    );
    assert_eq!(
        state.next(wallet_has(27 * TOKEN + 99), &app(), TOKEN),
        StakeUpkeep::Finished {
            outcome: StakeOutcome::BudgetTooLow
        }
    );
    let state = state.next(wallet_has(27 * TOKEN + 100), &app(), TOKEN);
    assert_eq!(state, StakeUpkeep::AddStake { stake: 100 });
    let state = state
        .next(UpkeepEvent::Sent, &app(), TOKEN)
        .next(UpkeepEvent::DepoolRefreshed { account_balance: 0 }, &app(), TOKEN);
    assert_eq!(
        state,
        StakeUpkeep::Finished {
            outcome: StakeOutcome::Added
        }
    );
}

#[test]
fn deployment_amounts_are_read() {
    assert_eq!(deployment_amounts(&fresh()), Ok((2 * TOKEN, 3 * TOKEN)));
    assert_eq!(deployment_amounts(&existing()), Err(Error::DepoolNotActive));
    let mut bad = fresh();
    bad.new.as_mut().expect("new").min_stake = "x".to_string();
    assert!(matches!(
        deployment_amounts(&bad),
        Err(Error::Amount {
            setting: Setting::MinStake,
            ..
        })
    ));
}

#[test]
fn active_depools_are_kept_up() {
    let mut state = PrepareDepool::prepare_depool();
    let mut steps = vec![state];
    for event in [
        PrepareEvent::DepoolRefreshed,
        PrepareEvent::BalanceMaintained,
        PrepareEvent::ProxiesMaintained,
        PrepareEvent::RoundStakeEnsured,
    ] {
        state = state.next(event, &depool(), &existing(), &addr(1));
        steps.push(state);
    }
    assert_eq!(
        steps,
        vec![
            PrepareDepool::RefreshDepool,
            PrepareDepool::MaintainBalance,
            PrepareDepool::MaintainProxies,
            PrepareDepool::EnsureRoundStake,
            PrepareDepool::Finished { ready: true },
        ]
    );
}

#[test]
fn inactive_depools_are_deployed() {
    let mut pool = depool();
    pool.active = false;
    let state = PrepareDepool::prepare_depool();
    assert_eq!(
        state.next(PrepareEvent::DepoolRefreshed, &pool, &existing(), &addr(1)),
        PrepareDepool::Failed {
            error: Error::DepoolNotActive
        }
    );
    let state = state.next(PrepareEvent::DepoolRefreshed, &pool, &fresh(), &addr(1));
    assert_eq!(state, PrepareDepool::EnsureDeployBalance);
    assert_eq!(
        state.next(PrepareEvent::DeployBalance { ready: false }, &pool, &fresh(), &addr(1)),
        PrepareDepool::Finished { ready: false }
    );
    let state = state.next(PrepareEvent::DeployBalance { ready: true }, &pool, &fresh(), &addr(1));
    assert_eq!(
        state,
        PrepareDepool::Deploy {
            min_stake: 2 * TOKEN,
            validator_assurance: 3 * TOKEN
        }
    );
    let state = state
        .next(PrepareEvent::Deployed, &pool, &fresh(), &addr(1))
        .next(PrepareEvent::DepoolRefreshed, &depool(), &fresh(), &addr(1));
    assert_eq!(state, PrepareDepool::MaintainBalance);
}

#[test]
fn foreign_depools_get_no_stake() {
    let state = PrepareDepool::MaintainProxies;
    assert_eq!(
        state.next(PrepareEvent::ProxiesMaintained, &depool(), &existing(), &addr(2)),
        PrepareDepool::Failed {
            error: Error::ValidatorWalletMismatch
        }
    );
    let mut unowned = depool();
    unowned.validator_wallet = None;
    assert_eq!(
        state.next(PrepareEvent::ProxiesMaintained, &unowned, &existing(), &addr(2)),
        PrepareDepool::EnsureRoundStake
    );
}
