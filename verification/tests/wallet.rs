use ever_elect::config::AppConfig;
use ever_elect::direct;
use ever_elect::error::Error;
use ever_elect::wallet::{
    depool_available_stake, simple_validator_wallet_topup, simple_wallet_can_transfer,
    validator_wallet_topup, wallet_can_spend, wallet_operation_reserve, wallet_required_balance,
    WalletTopup,
};

const TOKEN: u128 = 1_000_000_000;

fn app() -> AppConfig {
    AppConfig::default(None)
}

#[test]
fn reserve_holds_request_and_gas() {
    assert_eq!(wallet_operation_reserve(&app(), TOKEN), Ok(26 * TOKEN));
    assert_eq!(wallet_required_balance(&app(), TOKEN, 4 * TOKEN), Ok(30 * TOKEN + 1));
    assert_eq!(wallet_operation_reserve(&app(), u128::MAX), Ok(u128::MAX));
}

#[test]
fn spending_leaves_the_reserve() {
    assert_eq!(wallet_can_spend(30 * TOKEN + 1, &app(), TOKEN, 4 * TOKEN), Ok(true));
    assert_eq!(wallet_can_spend(30 * TOKEN, &app(), TOKEN, 4 * TOKEN), Ok(false));
}

#[test]
fn spending_needs_readable_reserves() {
    let mut config = app();
    config.depool_wallet_reserve = "0".to_string();
    assert_eq!(wallet_can_spend(u128::MAX, &config, 1, 1), Err(Error::ZeroWalletReserve));
    let mut config = app();
    config.depool_participate_value = "0".to_string();
    assert_eq!(wallet_can_spend(u128::MAX, &config, 1, 1), Err(Error::ZeroParticipateValue));
    assert_eq!(
        validator_wallet_topup(0, &config, 1, 1),
        Err(Error::ZeroParticipateValue)
    );
    assert_eq!(depool_available_stake(0, &config, 1), Err(Error::ZeroParticipateValue));
}

#[test]
fn topup_is_just_enough() {
    let topup = validator_wallet_topup(10 * TOKEN, &app(), TOKEN, 4 * TOKEN).expect("readable");
    assert_eq!(
        topup,
        WalletTopup {
            with_at_least: 20 * TOKEN + 1,
            required_balance: 30 * TOKEN + 1,
            operation_value: 4 * TOKEN,
            reserve: 26 * TOKEN,
        }
    );
    let filled = 10 * TOKEN + topup.with_at_least;
    assert_eq!(wallet_can_spend(filled, &app(), TOKEN, 4 * TOKEN), Ok(true));
    assert_eq!(wallet_can_spend(filled - 1, &app(), TOKEN, 4 * TOKEN), Ok(false));
}

#[test]
fn no_topup_for_a_full_wallet() {
    let topup = validator_wallet_topup(99 * TOKEN, &app(), TOKEN, 4 * TOKEN).expect("readable");
    assert_eq!(topup.with_at_least, 0);
}

#[test]
fn simple_transfers_keep_the_reserve() {
    assert!(simple_wallet_can_transfer(15, 10, 5));
    assert!(!simple_wallet_can_transfer(14, 10, 5));
    assert!(simple_wallet_can_transfer(u128::MAX, u128::MAX, 5));
    assert_eq!(
        simple_validator_wallet_topup(11, 10, 5),
        WalletTopup {
            with_at_least: 4,
            required_balance: 15,
            operation_value: 10,
            reserve: 5,
        }
    );
}

#[test]
fn budget_keeps_the_reserves() {
    let budget = depool_available_stake(100 * TOKEN, &app(), TOKEN)
        .expect("readable")
        .expect("budget");
    assert_eq!(budget.stake, 73 * TOKEN);
    assert_eq!(budget.wallet_reserve, 20 * TOKEN);
    assert_eq!(budget.participate_reserve, 5 * TOKEN);
    assert_eq!(budget.gas_reserve, TOKEN);
    assert_eq!(depool_available_stake(27 * TOKEN, &app(), TOKEN), Ok(None));
    assert!(depool_available_stake(27 * TOKEN + 1, &app(), TOKEN).expect("readable").is_some());
}

#[test]
fn budget_can_be_spent() {
    let budget = depool_available_stake(100 * TOKEN, &app(), TOKEN)
        .expect("readable")
        .expect("budget");
    let value = budget.stake - 1 + TOKEN;
    assert_eq!(wallet_can_spend(100 * TOKEN, &app(), TOKEN, value), Ok(true));
}

#[test]
fn direct_stake_keeps_the_gas_of_two_messages() {
    assert_eq!(direct::depool_available_stake(10, 3), Some(4));
    assert_eq!(direct::depool_available_stake(6, 3), None);
    assert_eq!(direct::depool_available_stake(5, 3), None);
    assert_eq!(direct::depool_available_stake(u128::MAX, u128::MAX), None);
}
