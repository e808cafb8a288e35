//! What a wallet can spend, and what has to stay on it.

use crate::config::{capped_sum, AppConfig};
use crate::error::Error;
use vstd::prelude::*;

verus! {

/// What operations with a DePool cost: the gas of one message, and the balance that a DePool needs
/// before it can be deployed.
#[derive(Clone, Copy, Debug, PartialEq, Eq, Structural)]
pub struct DepoolCosts {
    pub gas: u128,
    pub deploy_minimum: u128,
}

/// What the owner of a wallet has to add before an operation can go ahead.
#[derive(Clone, Copy, Debug, PartialEq, Eq, Structural)]
pub struct WalletTopup {
    pub with_at_least: u128,
    pub required_balance: u128,
    pub operation_value: u128,
    pub reserve: u128,
}

/// What a DePool validator can stake, and what is kept back.
#[derive(Clone, Copy, Debug, PartialEq, Eq, Structural)]
pub struct DePoolStakeBudget {
    pub stake: u128,
    pub wallet_reserve: u128,
    pub participate_reserve: u128,
    pub gas_reserve: u128,
}

/// `a - b`, or zero where that is negative.
pub open spec fn lacking(a: u128, b: u128) -> u128 {
    if a >= b {
        (a - b) as u128
    } else {
        0
    }
}

/// What has to stay on the wallet of a DePool validator: the configured reserve, the value of a
/// request to participate, and the gas of one message.
pub open spec fn operation_reserve(app: AppConfig, gas: u128) -> Result<u128, Error> {
    match app.wallet_reserve() {
        Err(e) => Err(e),
        Ok(reserve) => match app.participate_value() {
            Err(e) => Err(e),
            Ok(value) => Ok(capped_sum(capped_sum(reserve, value), gas)),
        },
    }
}

/// The balance that a wallet must have before it spends `value`.
pub open spec fn required_balance(app: AppConfig, gas: u128, value: u128) -> Result<u128, Error> {
    match operation_reserve(app, gas) {
        Err(e) => Err(e),
        Ok(reserve) => Ok(capped_sum(capped_sum(value, reserve), 1)),
    }
}

/// Whether a wallet that holds `balance` can spend `value`.
pub open spec fn can_spend(balance: u128, app: AppConfig, gas: u128, value: u128) -> Result<
    bool,
    Error,
> {
    match required_balance(app, gas, value) {
        Err(e) => Err(e),
        Ok(required) => Ok(balance >= required),
    }
}

/// What has to stay on the wallet of a DePool validator.
pub fn wallet_operation_reserve(app: &AppConfig, gas: u128) -> (r: Result<u128, Error>)
    ensures
        r == operation_reserve(*app, gas),
{
    let reserve: u128 = match app.depool_wallet_reserve_nano() {
        Ok(v) => v,
        Err(e) => {
            return Err(e);
        },
    };
    let value: u128 = match app.depool_participate_value_nano() {
        Ok(v) => v,
        Err(e) => {
            return Err(e);
        },
    };
    Ok(reserve.saturating_add(value).saturating_add(gas))
}

/// The balance that a wallet must have before it spends `value`.
pub fn wallet_required_balance(app: &AppConfig, gas: u128, value: u128) -> (r: Result<u128, Error>)
    ensures
        r == required_balance(*app, gas, value),
{
    match wallet_operation_reserve(app, gas) {
        Err(e) => Err(e),
        Ok(reserve) => Ok(value.saturating_add(reserve).saturating_add(1)),
    }
}

/// Whether a wallet that holds `balance` can spend `value`.
pub fn wallet_can_spend(balance: u128, app: &AppConfig, gas: u128, value: u128) -> (r: Result<
    bool,
    Error,
>)
    ensures
        r == can_spend(balance, *app, gas, value),
{
    match wallet_required_balance(app, gas, value) {
        Err(e) => Err(e),
        Ok(required) => Ok(balance >= required),
    }
}

/// What the owner of a validator wallet has to add before it can spend `value`.
pub open spec fn validator_topup(balance: u128, app: AppConfig, gas: u128, value: u128) -> Result<
    WalletTopup,
    Error,
> {
    match operation_reserve(app, gas) {
        Err(e) => Err(e),
        Ok(reserve) => {
            let required = capped_sum(capped_sum(value, reserve), 1);
            Ok(
                WalletTopup {
                    with_at_least: lacking(required, balance),
                    required_balance: required,
                    operation_value: value,
                    reserve,
                },
            )
        },
    }
}

/// What the owner of a validator wallet has to add before it can spend `value`.
pub fn validator_wallet_topup(balance: u128, app: &AppConfig, gas: u128, value: u128) -> (r: Result<
    WalletTopup,
    Error,
>)
    ensures
        r == validator_topup(balance, *app, gas, value),
{
    let required: u128 = match wallet_required_balance(app, gas, value) {
        Ok(v) => v,
        Err(e) => {
            return Err(e);
        },
    };
    match wallet_operation_reserve(app, gas) {
        Err(e) => Err(e),
        Ok(reserve) => Ok(
            WalletTopup {
                with_at_least: required.saturating_sub(balance),
                required_balance: required,
                operation_value: value,
                reserve,
            },
        ),
    }
}

/// Whether the wallet of a simple validator can send `value` and keep `reserve`.
pub open spec fn can_transfer(balance: u128, value: u128, reserve: u128) -> bool {
    balance >= capped_sum(value, reserve)
}

/// Whether the wallet of a simple validator can send `value` and keep `reserve`.
pub fn simple_wallet_can_transfer(balance: u128, value: u128, reserve: u128) -> (r: bool)
    ensures
        r == can_transfer(balance, value, reserve),
{
    balance >= value.saturating_add(reserve)
}

/// What the owner of a simple validator's wallet has to add before it can send `value`.
pub open spec fn simple_topup(balance: u128, value: u128, reserve: u128) -> WalletTopup {
    WalletTopup {
        with_at_least: lacking(capped_sum(value, reserve), balance),
        required_balance: capped_sum(value, reserve),
        operation_value: value,
        reserve,
    }
}

/// What the owner of a simple validator's wallet has to add before it can send `value`.
pub fn simple_validator_wallet_topup(balance: u128, value: u128, reserve: u128) -> (r: WalletTopup)
    ensures
        r == simple_topup(balance, value, reserve),
{
    let required: u128 = value.saturating_add(reserve);
    WalletTopup {
        with_at_least: required.saturating_sub(balance),
        required_balance: required,
        operation_value: value,
        reserve,
    }
}

/// What a DePool validator can stake: all that is above the configured reserve, the value of a
/// request to participate and the gas of two messages. Nothing, where that is nothing.
pub open spec fn stake_budget(balance: u128, app: AppConfig, gas: u128) -> Result<
    Option<DePoolStakeBudget>,
    Error,
> {
    match operation_reserve(app, gas) {
        Err(e) => Err(e),
        Ok(reserve) => {
            let kept = capped_sum(reserve, gas);
            if balance > kept {
                Ok(
                    Some(
                        DePoolStakeBudget {
                            stake: (balance - kept) as u128,
                            wallet_reserve: app.wallet_reserve()->Ok_0,
                            participate_reserve: app.participate_value()->Ok_0,
                            gas_reserve: gas,
                        },
                    ),
                )
            } else {
                Ok(None)
            }
        },
    }
}

/// What a DePool validator can stake.
pub fn depool_available_stake(balance: u128, app: &AppConfig, gas: u128) -> (r: Result<
    Option<DePoolStakeBudget>,
    Error,
>)
    ensures
        r == stake_budget(balance, *app, gas),
{
    let wallet_reserve: u128 = match app.depool_wallet_reserve_nano() {
        Ok(v) => v,
        Err(e) => {
            return Err(e);
        },
    };
    let participate_reserve: u128 = match app.depool_participate_value_nano() {
        Ok(v) => v,
        Err(e) => {
            return Err(e);
        },
    };
    let kept: u128 = wallet_reserve.saturating_add(participate_reserve).saturating_add(
        gas,
    ).saturating_add(gas);
    if balance > kept {
        Ok(
            Some(
                DePoolStakeBudget {
                    stake: balance - kept,
                    wallet_reserve,
                    participate_reserve,
                    gas_reserve: gas,
                },
            ),
        )
    } else {
        Ok(None)
    }
}

/// Spending what a wallet can spend leaves more than the reserve on it, as long as value and
/// reserve together are an amount at all.
pub proof fn law_spending_leaves_reserve(balance: u128, app: AppConfig, gas: u128, value: u128)
    requires
        can_spend(balance, app, gas, value) == Ok::<bool, Error>(true),
        value + operation_reserve(app, gas)->Ok_0 < u128::MAX,
    ensures
        balance - value > operation_reserve(app, gas)->Ok_0,
{
}

/// A wallet that is topped up as asked can spend the value, as long as the sum fits a balance.
pub proof fn law_topup_is_enough(balance: u128, app: AppConfig, gas: u128, value: u128)
    requires
        validator_topup(balance, app, gas, value) matches Ok(topup) && balance
            + topup.with_at_least <= u128::MAX,
    ensures
        can_spend(
            (balance + validator_topup(balance, app, gas, value)->Ok_0.with_at_least) as u128,
            app,
            gas,
            value,
        ) == Ok::<bool, Error>(true),
{
}

/// A topup is asked for exactly where the wallet cannot spend the value.
pub proof fn law_topup_only_when_lacking(balance: u128, app: AppConfig, gas: u128, value: u128)
    requires
        validator_topup(balance, app, gas, value) is Ok,
    ensures
        can_spend(balance, app, gas, value) == Ok::<bool, Error>(
            validator_topup(balance, app, gas, value)->Ok_0.with_at_least == 0,
        ),
{
}

/// Stake and reserves together make up the balance: staking the whole budget touches no reserve.
pub proof fn law_budget_keeps_reserves(balance: u128, app: AppConfig, gas: u128)
    requires
        stake_budget(balance, app, gas) matches Ok(Some(_)),
    ensures
        ({
            let budget = stake_budget(balance, app, gas)->Ok_0->Some_0;
            &&& budget.stake > 0
            &&& budget.stake + budget.wallet_reserve + budget.participate_reserve
                + budget.gas_reserve + gas == balance
        }),
{
}

/// Any stake below the budget, together with the gas of its message, is something that the wallet
/// can spend.
pub proof fn law_budget_is_spendable(balance: u128, app: AppConfig, gas: u128, stake: u128)
    requires
        stake_budget(balance, app, gas) matches Ok(Some(budget)) && stake < budget.stake,
    ensures
        can_spend(balance, app, gas, capped_sum(stake, gas)) == Ok::<bool, Error>(true),
{
}

/// The reserve is the configured one, the value of a request to participate and the gas of one
/// message together, as long as that is an amount at all.
pub proof fn law_reserve_is_the_sum(app: AppConfig, gas: u128, reserve: u128, value: u128)
    requires
        app.wallet_reserve() == Ok::<u128, Error>(reserve),
        app.participate_value() == Ok::<u128, Error>(value),
    ensures
        reserve + value + gas <= u128::MAX ==> operation_reserve(app, gas) == Ok::<u128, Error>(
            (reserve + value + gas) as u128,
        ),
        reserve + value + gas > u128::MAX ==> operation_reserve(app, gas) == Ok::<u128, Error>(
            u128::MAX,
        ),
{
}

/// A wallet can spend a value exactly where more than the reserve stays on it. Where value and
/// reserve come to more than any balance, only the largest balance counts as enough.
pub proof fn law_spendable_is_what_leaves_the_reserve(
    balance: u128,
    app: AppConfig,
    gas: u128,
    value: u128,
    reserve: u128,
    request: u128,
)
    requires
        app.wallet_reserve() == Ok::<u128, Error>(reserve),
        app.participate_value() == Ok::<u128, Error>(request),
    ensures
        can_spend(balance, app, gas, value) == Ok::<bool, Error>(
            balance > value + reserve + request + gas || balance == u128::MAX,
        ),
        required_balance(app, gas, value) matches Ok(required) && (required == value + reserve
            + request + gas + 1 || required == u128::MAX),
{
}

/// Without readable reserves nothing is decided: the reserve's own error comes first, then that of
/// the request.
pub proof fn law_spending_needs_readable_reserves(
    balance: u128,
    app: AppConfig,
    gas: u128,
    value: u128,
    error: Error,
)
    ensures
        app.wallet_reserve() == Err::<u128, Error>(error) || (app.wallet_reserve() is Ok
            && app.participate_value() == Err::<u128, Error>(error)) ==> {
            &&& operation_reserve(app, gas) == Err::<u128, Error>(error)
            &&& can_spend(balance, app, gas, value) == Err::<bool, Error>(error)
            &&& validator_topup(balance, app, gas, value) == Err::<WalletTopup, Error>(error)
            &&& stake_budget(balance, app, gas) == Err::<Option<DePoolStakeBudget>, Error>(error)
        },
        app.wallet_reserve() is Ok && app.participate_value() is Ok ==> {
            &&& operation_reserve(app, gas) is Ok
            &&& can_spend(balance, app, gas, value) is Ok
            &&& validator_topup(balance, app, gas, value) is Ok
            &&& stake_budget(balance, app, gas) is Ok
        },
{
}

/// A topup says what it is for, what it keeps back and what the wallet needs, and asks for just the
/// difference.
pub proof fn law_topup_says_what_is_needed(balance: u128, app: AppConfig, gas: u128, value: u128)
    requires
        validator_topup(balance, app, gas, value) is Ok,
    ensures
        ({
            let topup = validator_topup(balance, app, gas, value)->Ok_0;
            &&& topup.operation_value == value
            &&& operation_reserve(app, gas) == Ok::<u128, Error>(topup.reserve)
            &&& required_balance(app, gas, value) == Ok::<u128, Error>(topup.required_balance)
            &&& if balance >= topup.required_balance {
                topup.with_at_least == 0
            } else {
                balance + topup.with_at_least == topup.required_balance
            }
        }),
{
}

/// Whatever is above the reserve and the gas of another message can be staked, and all of it. Only
/// where nothing is above them there is no budget.
pub proof fn law_budget_is_all_above_the_reserves(
    balance: u128,
    app: AppConfig,
    gas: u128,
    reserve: u128,
    request: u128,
)
    requires
        app.wallet_reserve() == Ok::<u128, Error>(reserve),
        app.participate_value() == Ok::<u128, Error>(request),
    ensures
        balance > reserve + request + 2 * gas ==> stake_budget(balance, app, gas) == Ok::<
            Option<DePoolStakeBudget>,
            Error,
        >(
            Some(
                DePoolStakeBudget {
                    stake: (balance - reserve - request - 2 * gas) as u128,
                    wallet_reserve: reserve,
                    participate_reserve: request,
                    gas_reserve: gas,
                },
            ),
        ),
        balance <= reserve + request + 2 * gas ==> stake_budget(balance, app, gas) == Ok::<
            Option<DePoolStakeBudget>,
            Error,
        >(None),
{
}

/// A simple validator's wallet can send a value exactly where the reserve stays on it, and a topup
/// asks for just what is lacking. Where both come to more than any balance, only the largest
/// balance counts as enough.
pub proof fn law_transferable_is_what_leaves_the_reserve(balance: u128, value: u128, reserve: u128)
    ensures
        can_transfer(balance, value, reserve) <==> balance >= value + reserve || balance
            == u128::MAX,
        simple_topup(balance, value, reserve).operation_value == value,
        simple_topup(balance, value, reserve).reserve == reserve,
        can_transfer(balance, value, reserve) <==> simple_topup(
            balance,
            value,
            reserve,
        ).with_at_least == 0,
        value + reserve <= u128::MAX ==> simple_topup(balance, value, reserve).required_balance
            == value + reserve,
        !can_transfer(balance, value, reserve) ==> balance + simple_topup(
            balance,
            value,
            reserve,
        ).with_at_least == simple_topup(balance, value, reserve).required_balance,
{
}

} // verus!
