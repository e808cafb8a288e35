//! Keeping a DePool funded: its deployment, its own balance, its proxies, and the validator's
//! stake in it.
//!
//! Each procedure is a value that says what is due. Whoever runs it does that work, hands back an
//! event, and gets the next value. An event that does not answer what is due changes nothing.

use crate::address::StdAddr;
use crate::amount::nano_amount;
use crate::config::{setting_amount, AppConfig, DepoolRuntimeConfig, NewDepoolConfig};
use crate::depool::{
    counted_stake, depool_pooling_round_stake, required_depool_stake, required_stake,
    DePoolParticipant, DePoolState,
};
use crate::error::{Error, Setting};
use crate::wallet::{
    can_spend, depool_available_stake, stake_budget, wallet_can_spend, DepoolCosts,
};
use vstd::prelude::*;

verus! {

/// Below this a DePool's own balance is topped up.
pub const DEPOOL_MIN_BALANCE: u128 = 20_000_000_000;

/// What a DePool's own balance is topped up to.
pub const DEPOOL_TARGET_BALANCE: u128 = 30_000_000_000;

/// Below this a proxy's balance is topped up.
pub const DEPOOL_PROXY_MIN_BALANCE: u128 = 3_000_000_000;

/// What a proxy's balance is topped up to.
pub const DEPOOL_PROXY_TARGET_BALANCE: u128 = 5_000_000_000;

/// What can come back from work outside. Work that fails ends the procedure.
#[derive(Clone, Copy, Debug, PartialEq, Eq, Structural)]
pub enum UpkeepEvent {
    /// The wallet was updated.
    WalletRefreshed { balance: u128 },
    /// The balance of a proxy was looked up.
    ProxyQueried { balance: u128 },
    /// The message is out.
    Sent,
    /// The DePool was updated.
    DepoolRefreshed { account_balance: u128 },
}

/// Funding a DePool that is to be deployed.
#[derive(Clone, Copy, Debug, PartialEq, Eq, Structural)]
pub enum DeployFunding {
    /// Update the wallet, to see whether it can spend the topup.
    RefreshWallet { topup: u128 },
    /// Send the topup to the DePool.
    SendTopup { topup: u128 },
    /// Update the DePool.
    RefreshDepool,
    /// Done: `ready` says whether the DePool can be deployed.
    Finished { ready: bool },
    Failed { error: Error },
}

/// What a DePool's balance is topped up to before it is deployed.
pub open spec fn deploy_target(costs: DepoolCosts) -> int {
    if DEPOOL_TARGET_BALANCE >= costs.deploy_minimum + costs.gas {
        DEPOOL_TARGET_BALANCE as int
    } else {
        costs.deploy_minimum + costs.gas
    }
}

impl DeployFunding {
    pub open spec fn begun(account_balance: u128, costs: DepoolCosts) -> DeployFunding {
        if account_balance >= costs.deploy_minimum {
            DeployFunding::Finished { ready: true }
        } else {
            DeployFunding::RefreshWallet {
                topup: (deploy_target(costs) - account_balance) as u128,
            }
        }
    }

    pub open spec fn after(
        self,
        event: UpkeepEvent,
        app: AppConfig,
        costs: DepoolCosts,
    ) -> DeployFunding {
        match (self, event) {
            (DeployFunding::RefreshWallet { topup }, UpkeepEvent::WalletRefreshed { balance }) =>
                match can_spend(balance, app, costs.gas, topup) {
                Err(error) => DeployFunding::Failed { error },
                Ok(true) => DeployFunding::SendTopup { topup },
                Ok(false) => DeployFunding::Finished { ready: false },
            },
            (DeployFunding::SendTopup { topup }, UpkeepEvent::Sent) => DeployFunding::RefreshDepool,
            (DeployFunding::RefreshDepool, UpkeepEvent::DepoolRefreshed { account_balance }) =>
                DeployFunding::Finished { ready: account_balance >= costs.deploy_minimum },
            _ => self,
        }
    }

    /// Begins to fund a DePool whose account holds `account_balance`.
    pub fn ensure_depool_deploy_balance(account_balance: u128, costs: &DepoolCosts) -> (r:
        DeployFunding)
        requires
            costs.deploy_minimum + costs.gas <= u128::MAX,
        ensures
            r == DeployFunding::begun(account_balance, *costs),
    {
        if account_balance >= costs.deploy_minimum {
            return DeployFunding::Finished { ready: true };
        }
        let needed: u128 = costs.deploy_minimum + costs.gas;
        let target: u128 = if DEPOOL_TARGET_BALANCE >= needed {
            DEPOOL_TARGET_BALANCE
        } else {
            needed
        };
        DeployFunding::RefreshWallet { topup: target.saturating_sub(account_balance) }
    }

    /// Goes on after an event.
    pub fn next(self, event: UpkeepEvent, app: &AppConfig, costs: &DepoolCosts) -> (r:
        DeployFunding)
        ensures
            r == self.after(event, *app, *costs),
    {
        match (self, event) {
            (DeployFunding::RefreshWallet { topup }, UpkeepEvent::WalletRefreshed { balance }) => {
                match wallet_can_spend(balance, app, costs.gas, topup) {
                    Err(error) => DeployFunding::Failed { error },
                    Ok(can) => {
                        if can {
                            DeployFunding::SendTopup { topup }
                        } else {
                            DeployFunding::Finished { ready: false }
                        }
                    },
                }
            },
            (DeployFunding::SendTopup { topup: _ }, UpkeepEvent::Sent) =>
                DeployFunding::RefreshDepool,
            (DeployFunding::RefreshDepool, UpkeepEvent::DepoolRefreshed { account_balance }) =>
                DeployFunding::Finished { ready: account_balance >= costs.deploy_minimum },
            (state, _) => state,
        }
    }
}

/// A topup brings a DePool's account exactly to the target, which is enough to deploy it and to
/// pay the gas.
pub proof fn law_deploy_topup_reaches_target(account_balance: u128, costs: DepoolCosts)
    requires
        costs.deploy_minimum + costs.gas <= u128::MAX,
        DeployFunding::begun(account_balance, costs) is RefreshWallet,
    ensures
        DeployFunding::begun(account_balance, costs) matches DeployFunding::RefreshWallet { topup }
            && account_balance + topup == deploy_target(costs),
        deploy_target(costs) >= costs.deploy_minimum + costs.gas,
        deploy_target(costs) >= DEPOOL_TARGET_BALANCE,
{
}

/// Topups for a deployment are sent only from a wallet that can spend them.
pub proof fn law_deploy_topup_is_affordable(
    state: DeployFunding,
    event: UpkeepEvent,
    app: AppConfig,
    costs: DepoolCosts,
)
    requires
        !(state is SendTopup),
        state.after(event, app, costs) is SendTopup,
    ensures
        event matches UpkeepEvent::WalletRefreshed { balance } && can_spend(
            balance,
            app,
            costs.gas,
            state.after(event, app, costs)->SendTopup_topup,
        ) == Ok::<bool, Error>(true),
{
}

impl DeployFunding {
    /// How far the procedure has come.
    pub open spec fn progress(self) -> int {
        match self {
            DeployFunding::RefreshWallet { topup } => 0,
            DeployFunding::SendTopup { topup } => 1,
            DeployFunding::RefreshDepool => 2,
            _ => 3,
        }
    }
}

/// Every answer brings the funding forward, so that it ends after at most three.
pub proof fn law_deploy_funding_moves_on(
    state: DeployFunding,
    event: UpkeepEvent,
    app: AppConfig,
    costs: DepoolCosts,
)
    requires
        state.after(event, app, costs) != state,
    ensures
        state.progress() < state.after(event, app, costs).progress() <= 3,
{
}

/// Keeping a DePool's own balance up.
#[derive(Clone, Copy, Debug, PartialEq, Eq, Structural)]
pub enum BalanceUpkeep {
    /// Update the wallet, to see whether it can spend the topup.
    RefreshWallet { topup: u128 },
    /// Give the topup to the DePool.
    GiveFunds { topup: u128 },
    /// Update the DePool.
    RefreshDepool,
    Finished,
    Failed { error: Error },
}

impl BalanceUpkeep {
    pub open spec fn begun(own_balance: i128) -> BalanceUpkeep {
        if own_balance >= DEPOOL_MIN_BALANCE {
            BalanceUpkeep::Finished
        } else if DEPOOL_TARGET_BALANCE - own_balance > i128::MAX {
            BalanceUpkeep::Failed { error: Error::TopupOutOfRange }
        } else {
            BalanceUpkeep::RefreshWallet { topup: (DEPOOL_TARGET_BALANCE - own_balance) as u128 }
        }
    }

    pub open spec fn after(self, event: UpkeepEvent, app: AppConfig, gas: u128) -> BalanceUpkeep {
        match (self, event) {
            (BalanceUpkeep::RefreshWallet { topup }, UpkeepEvent::WalletRefreshed { balance }) =>
                match can_spend(balance, app, gas, topup) {
                Err(error) => BalanceUpkeep::Failed { error },
                Ok(true) => BalanceUpkeep::GiveFunds { topup },
                Ok(false) => BalanceUpkeep::Finished,
            },
            (BalanceUpkeep::GiveFunds { topup }, UpkeepEvent::Sent) => BalanceUpkeep::RefreshDepool,
            (BalanceUpkeep::RefreshDepool, UpkeepEvent::DepoolRefreshed { account_balance }) =>
                BalanceUpkeep::Finished,
            _ => self,
        }
    }

    /// Begins to keep up a DePool's own balance.
    pub fn maintain_depool_balance(own_balance: i128) -> (r: BalanceUpkeep)
        ensures
            r == BalanceUpkeep::begun(own_balance),
    {
        if own_balance >= DEPOOL_MIN_BALANCE as i128 {
            return BalanceUpkeep::Finished;
        }
        match (DEPOOL_TARGET_BALANCE as i128).checked_sub(own_balance) {
            Some(lack) => BalanceUpkeep::RefreshWallet { topup: lack as u128 },
            None => BalanceUpkeep::Failed { error: Error::TopupOutOfRange },
        }
    }

    /// Goes on after an event.
    pub fn next(self, event: UpkeepEvent, app: &AppConfig, gas: u128) -> (r: BalanceUpkeep)
        ensures
            r == self.after(event, *app, gas),
    {
        match (self, event) {
            (BalanceUpkeep::RefreshWallet { topup }, UpkeepEvent::WalletRefreshed { balance }) => {
                match wallet_can_spend(balance, app, gas, topup) {
                    Err(error) => BalanceUpkeep::Failed { error },
                    Ok(can) => {
                        if can {
                            BalanceUpkeep::GiveFunds { topup }
                        } else {
                            BalanceUpkeep::Finished
                        }
                    },
                }
            },
            (BalanceUpkeep::GiveFunds { topup: _ }, UpkeepEvent::Sent) =>
                BalanceUpkeep::RefreshDepool,
            (BalanceUpkeep::RefreshDepool, UpkeepEvent::DepoolRefreshed { account_balance: _ }) =>
                BalanceUpkeep::Finished,
            (state, _) => state,
        }
    }
}

/// A topup brings a DePool's own balance exactly to the target, which is above the minimum.
pub proof fn law_balance_topup_reaches_target(own_balance: i128)
    requires
        BalanceUpkeep::begun(own_balance) is RefreshWallet,
    ensures
        own_balance + BalanceUpkeep::begun(own_balance)->RefreshWallet_topup
            == DEPOOL_TARGET_BALANCE,
        BalanceUpkeep::begun(DEPOOL_TARGET_BALANCE as i128) is Finished,
{
}

/// Funds for a DePool are given only by a wallet that can spend them.
pub proof fn law_balance_topup_is_affordable(
    state: BalanceUpkeep,
    event: UpkeepEvent,
    app: AppConfig,
    gas: u128,
)
    requires
        !(state is GiveFunds),
        state.after(event, app, gas) is GiveFunds,
    ensures
        event matches UpkeepEvent::WalletRefreshed { balance } && can_spend(
            balance,
            app,
            gas,
            state.after(event, app, gas)->GiveFunds_topup,
        ) == Ok::<bool, Error>(true),
{
}

impl BalanceUpkeep {
    /// How far the procedure has come.
    pub open spec fn progress(self) -> int {
        match self {
            BalanceUpkeep::RefreshWallet { topup } => 0,
            BalanceUpkeep::GiveFunds { topup } => 1,
            BalanceUpkeep::RefreshDepool => 2,
            _ => 3,
        }
    }
}

/// Every answer brings the upkeep forward, so that it ends after at most three.
pub proof fn law_balance_upkeep_moves_on(
    state: BalanceUpkeep,
    event: UpkeepEvent,
    app: AppConfig,
    gas: u128,
)
    requires
        state.after(event, app, gas) != state,
    ensures
        state.progress() < state.after(event, app, gas).progress() <= 3,
{
}

/// Keeping the balances of a DePool's proxies up, one proxy after the other.
#[derive(Clone, Copy, Debug, PartialEq, Eq, Structural)]
pub enum ProxyUpkeep {
    /// Look up the balance of the proxy.
    QueryProxy { index: usize },
    /// Update the wallet, to see whether it can spend the topup.
    RefreshWallet { index: usize, topup: u128 },
    /// Send the topup to the proxy.
    SendTopup { index: usize, topup: u128 },
    Finished,
    Failed { error: Error },
}

impl ProxyUpkeep {
    /// What is due once the proxies before `index` are done.
    pub open spec fn from(index: int, count: usize) -> ProxyUpkeep {
        if index < count {
            ProxyUpkeep::QueryProxy { index: index as usize }
        } else {
            ProxyUpkeep::Finished
        }
    }

    pub open spec fn after(
        self,
        event: UpkeepEvent,
        count: usize,
        app: AppConfig,
        gas: u128,
    ) -> ProxyUpkeep {
        match (self, event) {
            (ProxyUpkeep::QueryProxy { index }, UpkeepEvent::ProxyQueried { balance }) => if balance
                >= DEPOOL_PROXY_MIN_BALANCE {
                ProxyUpkeep::from(index + 1, count)
            } else {
                ProxyUpkeep::RefreshWallet {
                    index,
                    topup: (DEPOOL_PROXY_TARGET_BALANCE - balance) as u128,
                }
            },
            (
                ProxyUpkeep::RefreshWallet { index, topup },
                UpkeepEvent::WalletRefreshed { balance },
            ) => match can_spend(balance, app, gas, topup) {
                Err(error) => ProxyUpkeep::Failed { error },
                Ok(true) => ProxyUpkeep::SendTopup { index, topup },
                Ok(false) => ProxyUpkeep::from(index + 1, count),
            },
            (ProxyUpkeep::SendTopup { index, topup }, UpkeepEvent::Sent) => ProxyUpkeep::from(
                index + 1,
                count,
            ),
            _ => self,
        }
    }

    fn go_on(index: usize, count: usize) -> (r: ProxyUpkeep)
        ensures
            r == ProxyUpkeep::from(index + 1, count),
    {
        if index < count && index + 1 < count {
            ProxyUpkeep::QueryProxy { index: index + 1 }
        } else {
            ProxyUpkeep::Finished
        }
    }

    /// Begins to keep up the balances of `count` proxies.
    pub fn maintain_depool_proxy_balances(count: usize) -> (r: ProxyUpkeep)
        ensures
            r == ProxyUpkeep::from(0, count),
    {
        if count > 0 {
            ProxyUpkeep::QueryProxy { index: 0 }
        } else {
            ProxyUpkeep::Finished
        }
    }

    /// Goes on after an event.
    pub fn next(self, event: UpkeepEvent, count: usize, app: &AppConfig, gas: u128) -> (r:
        ProxyUpkeep)
        ensures
            r == self.after(event, count, *app, gas),
    {
        match (self, event) {
            (ProxyUpkeep::QueryProxy { index }, UpkeepEvent::ProxyQueried { balance }) => {
                if balance >= DEPOOL_PROXY_MIN_BALANCE {
                    ProxyUpkeep::go_on(index, count)
                } else {
                    ProxyUpkeep::RefreshWallet {
                        index,
                        topup: DEPOOL_PROXY_TARGET_BALANCE.saturating_sub(balance),
                    }
                }
            },
            (
                ProxyUpkeep::RefreshWallet { index, topup },
                UpkeepEvent::WalletRefreshed { balance },
            ) => {
                match wallet_can_spend(balance, app, gas, topup) {
                    Err(error) => ProxyUpkeep::Failed { error },
                    Ok(can) => {
                        if can {
                            ProxyUpkeep::SendTopup { index, topup }
                        } else {
                            ProxyUpkeep::go_on(index, count)
                        }
                    },
                }
            },
            (ProxyUpkeep::SendTopup { index, topup: _ }, UpkeepEvent::Sent) => ProxyUpkeep::go_on(
                index,
                count,
            ),
            (state, _) => state,
        }
    }

    /// How far the upkeep of `count` proxies has come.
    pub open spec fn progress(self, count: usize) -> int {
        match self {
            ProxyUpkeep::QueryProxy { index } => 3 * index,
            ProxyUpkeep::RefreshWallet { index, topup } => 3 * index + 1,
            ProxyUpkeep::SendTopup { index, topup } => 3 * index + 2,
            ProxyUpkeep::Finished => 3 * count,
            ProxyUpkeep::Failed { error } => 3 * count,
        }
    }

    /// The proxy that is being looked at.
    pub open spec fn current(self) -> Option<usize> {
        match self {
            ProxyUpkeep::QueryProxy { index } => Some(index),
            ProxyUpkeep::RefreshWallet { index, topup } => Some(index),
            ProxyUpkeep::SendTopup { index, topup } => Some(index),
            _ => None,
        }
    }
}

/// The upkeep goes through the proxies in order: every answer brings it forward, to the same proxy
/// or to the next, so that it ends after at most three answers for each.
pub proof fn law_proxy_upkeep_moves_on(
    state: ProxyUpkeep,
    event: UpkeepEvent,
    count: usize,
    app: AppConfig,
    gas: u128,
)
    requires
        state.current() matches Some(index) && index < count,
        state.after(event, count, app, gas) != state,
    ensures
        ({
            let next = state.after(event, count, app, gas);
            &&& state.progress(count) < next.progress(count) <= 3 * count
            &&& next.current() matches Some(index) ==> index < count && state.current()->Some_0
                <= index <= state.current()->Some_0 + 1
            &&& next is Finished ==> state.current()->Some_0 == count - 1
        }),
{
}

/// A topup brings a proxy exactly to the target.
pub proof fn law_proxy_topup_reaches_target(
    index: usize,
    balance: u128,
    count: usize,
    app: AppConfig,
    gas: u128,
)
    requires
        balance < DEPOOL_PROXY_MIN_BALANCE,
    ensures
        (ProxyUpkeep::QueryProxy { index }).after(
            UpkeepEvent::ProxyQueried { balance },
            count,
            app,
            gas,
        ) matches ProxyUpkeep::RefreshWallet { index: same, topup } && same == index && balance
            + topup == DEPOOL_PROXY_TARGET_BALANCE,
{
}

/// Topups for proxies are sent only from a wallet that can spend them.
pub proof fn law_proxy_topup_is_affordable(
    state: ProxyUpkeep,
    event: UpkeepEvent,
    count: usize,
    app: AppConfig,
    gas: u128,
)
    requires
        !(state is SendTopup),
        state.after(event, count, app, gas) is SendTopup,
    ensures
        event matches UpkeepEvent::WalletRefreshed { balance } && can_spend(
            balance,
            app,
            gas,
            state.after(event, count, app, gas)->SendTopup_topup,
        ) == Ok::<bool, Error>(true),
{
}

/// How the upkeep of the validator's stake ended.
#[derive(Clone, Copy, Debug, PartialEq, Eq, Structural)]
pub enum StakeOutcome {
    /// The stake was there.
    Ready,
    /// The wallet holds no more than its reserves.
    NoBudget,
    /// The wallet can stake something, but not enough.
    BudgetTooLow,
    /// The missing stake was added.
    Added,
}

/// Keeping the validator's stake in a DePool up.
#[derive(Clone, Copy, Debug, PartialEq, Eq, Structural)]
pub enum StakeUpkeep {
    /// Update the wallet, to see what it can stake.
    RefreshWallet { stake_to_add: u128 },
    /// Add the stake.
    AddStake { stake: u128 },
    /// Update the DePool.
    RefreshDepool,
    Finished { outcome: StakeOutcome },
    Failed { error: Error },
}

/// What to add to `current` so that `required` is reached: the DePool takes nothing below its
/// smallest stake.
pub open spec fn missing_stake(current: int, required: u64, min_stake: u64) -> int {
    if required - current >= min_stake {
        required - current
    } else {
        min_stake as int
    }
}

impl StakeUpkeep {
    pub open spec fn begun(
        depool: DePoolState,
        config: DepoolRuntimeConfig,
        participant: Option<&DePoolParticipant>,
    ) -> StakeUpkeep {
        match required_stake(depool, config) {
            Err(error) => StakeUpkeep::Failed { error },
            Ok(required) => {
                let current = counted_stake(depool.rounds@, participant);
                if current >= required {
                    StakeUpkeep::Finished { outcome: StakeOutcome::Ready }
                } else {
                    StakeUpkeep::RefreshWallet {
                        stake_to_add: missing_stake(current, required, depool.min_stake) as u128,
                    }
                }
            },
        }
    }

    pub open spec fn after(self, event: UpkeepEvent, app: AppConfig, gas: u128) -> StakeUpkeep {
        match (self, event) {
            (
                StakeUpkeep::RefreshWallet { stake_to_add },
                UpkeepEvent::WalletRefreshed { balance },
            ) => match stake_budget(balance, app, gas) {
                Err(error) => StakeUpkeep::Failed { error },
                Ok(None) => StakeUpkeep::Finished { outcome: StakeOutcome::NoBudget },
                Ok(Some(budget)) => if stake_to_add > budget.stake {
                    StakeUpkeep::Finished { outcome: StakeOutcome::BudgetTooLow }
                } else {
                    StakeUpkeep::AddStake { stake: stake_to_add }
                },
            },
            (StakeUpkeep::AddStake { stake }, UpkeepEvent::Sent) => StakeUpkeep::RefreshDepool,
            (StakeUpkeep::RefreshDepool, UpkeepEvent::DepoolRefreshed { account_balance }) =>
                StakeUpkeep::Finished { outcome: StakeOutcome::Added },
            _ => self,
        }
    }

    /// Begins to keep up the stake of the validator, who holds `participant` in the DePool.
    pub fn ensure_depool_round_stake(
        depool: &DePoolState,
        config: &DepoolRuntimeConfig,
        participant: Option<&DePoolParticipant>,
    ) -> (r: StakeUpkeep)
        ensures
            r == StakeUpkeep::begun(*depool, *config, participant),
    {
        let required: u64 = match required_depool_stake(depool, config) {
            Ok(v) => v,
            Err(error) => {
                return StakeUpkeep::Failed { error };
            },
        };
        let current: u128 = depool_pooling_round_stake(depool, participant).current;
        if current >= required as u128 {
            return StakeUpkeep::Finished { outcome: StakeOutcome::Ready };
        }
        let missing: u128 = required as u128 - current;
        let stake_to_add: u128 = if missing >= depool.min_stake as u128 {
            missing
        } else {
            depool.min_stake as u128
        };
        StakeUpkeep::RefreshWallet { stake_to_add }
    }

    /// Goes on after an event.
    pub fn next(self, event: UpkeepEvent, app: &AppConfig, gas: u128) -> (r: StakeUpkeep)
        ensures
            r == self.after(event, *app, gas),
    {
        match (self, event) {
            (
                StakeUpkeep::RefreshWallet { stake_to_add },
                UpkeepEvent::WalletRefreshed { balance },
            ) => {
                match depool_available_stake(balance, app, gas) {
                    Err(error) => StakeUpkeep::Failed { error },
                    Ok(None) => StakeUpkeep::Finished { outcome: StakeOutcome::NoBudget },
                    Ok(Some(budget)) => {
                        if stake_to_add > budget.stake {
                            StakeUpkeep::Finished { outcome: StakeOutcome::BudgetTooLow }
                        } else {
                            StakeUpkeep::AddStake { stake: stake_to_add }
                        }
                    },
                }
            },
            (StakeUpkeep::AddStake { stake: _ }, UpkeepEvent::Sent) => StakeUpkeep::RefreshDepool,
            (StakeUpkeep::RefreshDepool, UpkeepEvent::DepoolRefreshed { account_balance: _ }) =>
                StakeUpkeep::Finished { outcome: StakeOutcome::Added },
            (state, _) => state,
        }
    }
}

/// The stake that is added brings the validator to what is required, and is one that the DePool
/// takes.
pub proof fn law_added_stake_reaches_required(
    depool: DePoolState,
    config: DepoolRuntimeConfig,
    participant: Option<&DePoolParticipant>,
)
    requires
        StakeUpkeep::begun(depool, config, participant) is RefreshWallet,
    ensures
        ({
            let stake = StakeUpkeep::begun(depool, config, participant)->RefreshWallet_stake_to_add;
            &&& counted_stake(depool.rounds@, participant) + stake >= required_stake(
                depool,
                config,
            )->Ok_0
            &&& stake >= depool.min_stake
            &&& stake <= u64::MAX
        }),
{
    crate::depool::lemma_counted_stake_is_an_amount(depool.rounds@, participant);
}

/// A stake is added only out of the budget: after it, and after the gas of its message, the
/// reserves are still on the wallet.
pub proof fn law_added_stake_keeps_reserves(
    state: StakeUpkeep,
    event: UpkeepEvent,
    app: AppConfig,
    gas: u128,
)
    requires
        !(state is AddStake),
        state.after(event, app, gas) is AddStake,
    ensures
        event matches UpkeepEvent::WalletRefreshed { balance } && balance - state.after(
            event,
            app,
            gas,
        )->AddStake_stake - gas >= app.wallet_reserve()->Ok_0 + app.participate_value()->Ok_0 + gas,
{
    if let UpkeepEvent::WalletRefreshed { balance } = event {
        crate::wallet::law_budget_keeps_reserves(balance, app, gas);
    }
}

impl StakeUpkeep {
    /// How far the procedure has come.
    pub open spec fn progress(self) -> int {
        match self {
            StakeUpkeep::RefreshWallet { stake_to_add } => 0,
            StakeUpkeep::AddStake { stake } => 1,
            StakeUpkeep::RefreshDepool => 2,
            _ => 3,
        }
    }
}

/// Every answer brings the upkeep forward, so that it ends after at most three.
pub proof fn law_stake_upkeep_moves_on(
    state: StakeUpkeep,
    event: UpkeepEvent,
    app: AppConfig,
    gas: u128,
)
    requires
        state.after(event, app, gas) != state,
    ensures
        state.progress() < state.after(event, app, gas).progress() <= 3,
{
}

/// Getting a DePool ready for elections.
#[derive(Clone, Copy, Debug, PartialEq, Eq, Structural)]
pub enum PrepareDepool {
    /// Update the DePool.
    RefreshDepool,
    /// Fund the DePool for its deployment.
    EnsureDeployBalance,
    /// Deploy the DePool with these amounts.
    Deploy { min_stake: u128, validator_assurance: u128 },
    /// Update the DePool that was deployed.
    RefreshDeployed,
    /// Keep up the DePool's own balance.
    MaintainBalance,
    /// Keep up the balances of its proxies.
    MaintainProxies,
    /// Keep up the validator's stake.
    EnsureRoundStake,
    /// Done: `ready` says whether the DePool can take part.
    Finished { ready: bool },
    Failed { error: Error },
}

/// What comes back while a DePool gets ready.
#[derive(Clone, Copy, Debug, PartialEq, Eq, Structural)]
pub enum PrepareEvent {
    DepoolRefreshed,
    DeployBalance { ready: bool },
    Deployed,
    BalanceMaintained,
    ProxiesMaintained,
    RoundStakeEnsured,
}

/// An event, and the DePool as it was last seen.
pub struct PrepareInput {
    pub event: PrepareEvent,
    pub depool: DePoolState,
}

/// Whether the DePool belongs to another wallet.
pub open spec fn owned_by_other(depool: DePoolState, wallet: StdAddr) -> bool {
    depool.validator_wallet matches Some(owner) && owner.parts() != wallet.parts()
}

pub(crate) fn is_owned_by_other(depool: &DePoolState, wallet: &StdAddr) -> (r: bool)
    ensures
        r == owned_by_other(*depool, *wallet),
{
    match &depool.validator_wallet {
        Some(owner) => !owner.same(wallet),
        None => false,
    }
}

/// The deployment of a new DePool.
pub open spec fn deployment(config: DepoolRuntimeConfig) -> Result<(u128, u128), Error> {
    match config.new {
        None => Err(Error::DepoolNotActive),
        Some(new) => match setting_amount(Setting::MinStake, new.min_stake@) {
            Err(e) => Err(e),
            Ok(min_stake) => match setting_amount(
                Setting::ValidatorAssurance,
                new.validator_assurance@,
            ) {
                Err(e) => Err(e),
                Ok(assurance) => Ok((min_stake, assurance)),
            },
        },
    }
}

/// Reads the amounts that a new DePool is deployed with.
pub fn deployment_amounts(config: &DepoolRuntimeConfig) -> (r: Result<(u128, u128), Error>)
    ensures
        r == deployment(*config),
{
    match &config.new {
        None => Err(Error::DepoolNotActive),
        Some(new) => match new.min_stake_nano() {
            Err(e) => Err(e),
            Ok(min_stake) => match new.validator_assurance_nano() {
                Err(e) => Err(e),
                Ok(assurance) => Ok((min_stake, assurance)),
            },
        },
    }
}

impl PrepareDepool {
    pub open spec fn after(
        self,
        event: PrepareEvent,
        depool: DePoolState,
        config: DepoolRuntimeConfig,
        wallet: StdAddr,
    ) -> PrepareDepool {
        match (self, event) {
            (PrepareDepool::RefreshDepool, PrepareEvent::DepoolRefreshed) => if depool.active {
                PrepareDepool::MaintainBalance
            } else if config.new is None {
                PrepareDepool::Failed { error: Error::DepoolNotActive }
            } else {
                PrepareDepool::EnsureDeployBalance
            },
            (PrepareDepool::EnsureDeployBalance, PrepareEvent::DeployBalance { ready }) =>
                if !ready {
                PrepareDepool::Finished { ready: false }
            } else {
                match deployment(config) {
                    Err(error) => PrepareDepool::Failed { error },
                    Ok((min_stake, validator_assurance)) => PrepareDepool::Deploy {
                        min_stake,
                        validator_assurance,
                    },
                }
            },
            (
                PrepareDepool::Deploy { min_stake, validator_assurance },
                PrepareEvent::Deployed,
            ) => PrepareDepool::RefreshDeployed,
            (PrepareDepool::RefreshDeployed, PrepareEvent::DepoolRefreshed) =>
                PrepareDepool::MaintainBalance,
            (PrepareDepool::MaintainBalance, PrepareEvent::BalanceMaintained) =>
                PrepareDepool::MaintainProxies,
            (PrepareDepool::MaintainProxies, PrepareEvent::ProxiesMaintained) => if owned_by_other(
                depool,
                wallet,
            ) {
                PrepareDepool::Failed { error: Error::ValidatorWalletMismatch }
            } else {
                PrepareDepool::EnsureRoundStake
            },
            (PrepareDepool::EnsureRoundStake, PrepareEvent::RoundStakeEnsured) =>
                PrepareDepool::Finished { ready: true },
            _ => self,
        }
    }

    /// What is due after several events.
    pub open spec fn after_all(
        self,
        inputs: Seq<PrepareInput>,
        config: DepoolRuntimeConfig,
        wallet: StdAddr,
    ) -> PrepareDepool
        decreases inputs.len(),
    {
        if inputs.len() == 0 {
            self
        } else {
            self.after_all(inputs.drop_last(), config, wallet).after(
                inputs.last().event,
                inputs.last().depool,
                config,
                wallet,
            )
        }
    }

    /// Begins to get a DePool ready.
    pub fn prepare_depool() -> (r: PrepareDepool)
        ensures
            r == PrepareDepool::RefreshDepool,
    {
        PrepareDepool::RefreshDepool
    }

    /// Goes on after an event, with the DePool as it was last seen.
    pub fn next(
        self,
        event: PrepareEvent,
        depool: &DePoolState,
        config: &DepoolRuntimeConfig,
        wallet: &StdAddr,
    ) -> (r: PrepareDepool)
        ensures
            r == self.after(event, *depool, *config, *wallet),
    {
        match (self, event) {
            (PrepareDepool::RefreshDepool, PrepareEvent::DepoolRefreshed) => {
                if depool.active {
                    PrepareDepool::MaintainBalance
                } else if config.new.is_none() {
                    PrepareDepool::Failed { error: Error::DepoolNotActive }
                } else {
                    PrepareDepool::EnsureDeployBalance
                }
            },
            (PrepareDepool::EnsureDeployBalance, PrepareEvent::DeployBalance { ready }) => {
                if !ready {
                    PrepareDepool::Finished { ready: false }
                } else {
                    match deployment_amounts(config) {
                        Err(error) => PrepareDepool::Failed { error },
                        Ok((min_stake, validator_assurance)) => PrepareDepool::Deploy {
                            min_stake,
                            validator_assurance,
                        },
                    }
                }
            },
            (
                PrepareDepool::Deploy { min_stake: _, validator_assurance: _ },
                PrepareEvent::Deployed,
            ) => PrepareDepool::RefreshDeployed,
            (PrepareDepool::RefreshDeployed, PrepareEvent::DepoolRefreshed) =>
                PrepareDepool::MaintainBalance,
            (PrepareDepool::MaintainBalance, PrepareEvent::BalanceMaintained) =>
                PrepareDepool::MaintainProxies,
            (PrepareDepool::MaintainProxies, PrepareEvent::ProxiesMaintained) => {
                if is_owned_by_other(depool, wallet) {
                    PrepareDepool::Failed { error: Error::ValidatorWalletMismatch }
                } else {
                    PrepareDepool::EnsureRoundStake
                }
            },
            (PrepareDepool::EnsureRoundStake, PrepareEvent::RoundStakeEnsured) =>
                PrepareDepool::Finished { ready: true },
            (state, _) => state,
        }
    }
}

/// No stake goes to a DePool that belongs to another wallet.
pub proof fn law_stake_only_for_own_depool(
    state: PrepareDepool,
    event: PrepareEvent,
    depool: DePoolState,
    config: DepoolRuntimeConfig,
    wallet: StdAddr,
)
    requires
        !(state is EnsureRoundStake),
        state.after(event, depool, config, wallet) is EnsureRoundStake,
    ensures
        !owned_by_other(depool, wallet),
{
}

/// An active DePool is not deployed again: from the first update on, a deployment begins only for
/// one that is not active and that the configuration knows how to deploy.
pub proof fn law_deploy_only_inactive(
    event: PrepareEvent,
    depool: DePoolState,
    config: DepoolRuntimeConfig,
    wallet: StdAddr,
)
    requires
        PrepareDepool::RefreshDepool.after(event, depool, config, wallet) is EnsureDeployBalance,
    ensures
        !depool.active,
        config.new is Some,
{
}

impl PrepareDepool {
    /// How far the procedure has come.
    pub open spec fn progress(self) -> int {
        match self {
            PrepareDepool::RefreshDepool => 0,
            PrepareDepool::EnsureDeployBalance => 1,
            PrepareDepool::Deploy { min_stake, validator_assurance } => 2,
            PrepareDepool::RefreshDeployed => 3,
            PrepareDepool::MaintainBalance => 4,
            PrepareDepool::MaintainProxies => 5,
            PrepareDepool::EnsureRoundStake => 6,
            _ => 7,
        }
    }
}

/// Every answer brings the preparation forward, so that it ends after at most seven.
pub proof fn law_prepare_moves_on(
    state: PrepareDepool,
    event: PrepareEvent,
    depool: DePoolState,
    config: DepoolRuntimeConfig,
    wallet: StdAddr,
)
    requires
        state.after(event, depool, config, wallet) != state,
    ensures
        state.progress() < state.after(event, depool, config, wallet).progress() <= 7,
{
}

/// Whether the DePool's own balance was seen to in step `i`.
pub open spec fn balance_seen_to(inputs: Seq<PrepareInput>, i: int) -> bool {
    0 <= i < inputs.len() && inputs[i].event is BalanceMaintained
}

/// Whether the proxies were seen to in step `i`, and the DePool then was not another wallet's.
pub open spec fn proxies_seen_to(inputs: Seq<PrepareInput>, i: int, wallet: StdAddr) -> bool {
    0 <= i < inputs.len() && inputs[i].event is ProxiesMaintained && !owned_by_other(
        inputs[i].depool,
        wallet,
    )
}

/// Whether the validator's stake was seen to in step `i`.
pub open spec fn stake_seen_to(inputs: Seq<PrepareInput>, i: int) -> bool {
    0 <= i < inputs.len() && inputs[i].event is RoundStakeEnsured
}

/// What must have happened before a state is reached.
pub open spec fn seen_to_in_order(
    state: PrepareDepool,
    inputs: Seq<PrepareInput>,
    wallet: StdAddr,
) -> bool {
    match state {
        PrepareDepool::MaintainProxies => exists|i: int| balance_seen_to(inputs, i),
        PrepareDepool::EnsureRoundStake => exists|i: int, j: int|
            i < j && #[trigger] balance_seen_to(inputs, i) && #[trigger] proxies_seen_to(
                inputs,
                j,
                wallet,
            ),
        PrepareDepool::Finished { ready } => ready ==> exists|i: int, j: int, k: int|
            i < j < k && #[trigger] balance_seen_to(inputs, i) && #[trigger] proxies_seen_to(
                inputs,
                j,
                wallet,
            ) && #[trigger] stake_seen_to(inputs, k),
        _ => true,
    }
}

/// A DePool counts as ready only once its balance, its proxies and the validator's stake were seen
/// to, in this order, and it was not another wallet's before the stake was touched.
pub proof fn law_ready_only_when_seen_to(
    inputs: Seq<PrepareInput>,
    config: DepoolRuntimeConfig,
    wallet: StdAddr,
)
    ensures
        seen_to_in_order(
            PrepareDepool::RefreshDepool.after_all(inputs, config, wallet),
            inputs,
            wallet,
        ),
    decreases inputs.len(),
{
    if inputs.len() > 0 {
        let init = inputs.drop_last();
        let last = inputs.len() - 1;
        law_ready_only_when_seen_to(init, config, wallet);
        let before = PrepareDepool::RefreshDepool.after_all(init, config, wallet);
        let after = PrepareDepool::RefreshDepool.after_all(inputs, config, wallet);
        assert(forall|i: int| balance_seen_to(init, i) ==> #[trigger] balance_seen_to(inputs, i));
        assert(forall|i: int|
            proxies_seen_to(init, i, wallet) ==> #[trigger] proxies_seen_to(inputs, i, wallet));
        assert(forall|i: int| stake_seen_to(init, i) ==> #[trigger] stake_seen_to(inputs, i));
        match before {
            PrepareDepool::MaintainBalance => {
                if after is MaintainProxies {
                    assert(balance_seen_to(inputs, last));
                }
            },
            PrepareDepool::MaintainProxies => {
                let i = choose|i: int| balance_seen_to(init, i);
                assert(balance_seen_to(inputs, i));
                if after is EnsureRoundStake {
                    assert(proxies_seen_to(inputs, last, wallet));
                }
            },
            PrepareDepool::EnsureRoundStake => {
                let (i, j) = choose|i: int, j: int|
                    i < j && #[trigger] balance_seen_to(init, i) && #[trigger] proxies_seen_to(
                        init,
                        j,
                        wallet,
                    );
                assert(balance_seen_to(inputs, i));
                assert(proxies_seen_to(inputs, j, wallet));
                if after is Finished {
                    assert(stake_seen_to(inputs, last));
                }
            },
            PrepareDepool::Finished { ready } => {
                if ready {
                    let (i, j, k) = choose|i: int, j: int, k: int|
                        i < j < k && #[trigger] balance_seen_to(init, i)
                            && #[trigger] proxies_seen_to(init, j, wallet)
                            && #[trigger] stake_seen_to(init, k);
                    assert(balance_seen_to(inputs, i));
                    assert(proxies_seen_to(inputs, j, wallet));
                    assert(stake_seen_to(inputs, k));
                }
            },
            _ => {},
        }
    }
}

/// A DePool that holds enough can be deployed at once. Any other is topped up to thirty tokens, or
/// to what its deployment and the gas cost where that is more.
pub proof fn law_deploy_funding_begins(account_balance: u128, costs: DepoolCosts)
    requires
        costs.deploy_minimum + costs.gas <= u128::MAX,
    ensures
        account_balance >= costs.deploy_minimum <==> DeployFunding::begun(account_balance, costs)
            == (DeployFunding::Finished { ready: true }),
        account_balance < costs.deploy_minimum ==> (DeployFunding::begun(
            account_balance,
            costs,
        ) matches DeployFunding::RefreshWallet { topup } && (account_balance + topup
            == 30_000_000_000 || account_balance + topup == costs.deploy_minimum + costs.gas)
            && account_balance + topup >= 30_000_000_000 && account_balance + topup
            >= costs.deploy_minimum + costs.gas),
{
}

/// A topup for a deployment is sent, as it is, whenever the reserves stay on the wallet; else the
/// DePool is not ready. Once it was sent, the DePool is ready exactly where its account then holds
/// enough.
pub proof fn law_deploy_funding_goes_on(
    topup: u128,
    balance: u128,
    account_balance: u128,
    app: AppConfig,
    costs: DepoolCosts,
    reserve: u128,
    request: u128,
)
    requires
        app.wallet_reserve() == Ok::<u128, Error>(reserve),
        app.participate_value() == Ok::<u128, Error>(request),
    ensures
        (DeployFunding::RefreshWallet { topup }).after(
            UpkeepEvent::WalletRefreshed { balance },
            app,
            costs,
        ) == if balance > topup + reserve + request + costs.gas || balance == u128::MAX {
            DeployFunding::SendTopup { topup }
        } else {
            DeployFunding::Finished { ready: false }
        },
        (DeployFunding::SendTopup { topup }).after(UpkeepEvent::Sent, app, costs).after(
            UpkeepEvent::DepoolRefreshed { account_balance },
            app,
            costs,
        ) == (DeployFunding::Finished { ready: account_balance >= costs.deploy_minimum }),
{
    crate::wallet::law_spendable_is_what_leaves_the_reserve(
        balance,
        app,
        costs.gas,
        topup,
        reserve,
        request,
    );
}

/// Funding waits for the answer to what is due, and keeps its end. Without readable reserves it
/// fails once the wallet is looked at.
pub proof fn law_deploy_funding_waits(
    topup: u128,
    ready: bool,
    error: Error,
    event: UpkeepEvent,
    app: AppConfig,
    costs: DepoolCosts,
)
    ensures
        !(event is WalletRefreshed) ==> (DeployFunding::RefreshWallet { topup }).after(
            event,
            app,
            costs,
        ) == (DeployFunding::RefreshWallet { topup }),
        !(event is Sent) ==> (DeployFunding::SendTopup { topup }).after(event, app, costs) == (
        DeployFunding::SendTopup { topup }),
        event is Sent ==> (DeployFunding::SendTopup { topup }).after(event, app, costs)
            is RefreshDepool,
        !(event is DepoolRefreshed) ==> DeployFunding::RefreshDepool.after(event, app, costs)
            is RefreshDepool,
        (DeployFunding::Finished { ready }).after(event, app, costs) == (DeployFunding::Finished {
            ready,
        }),
        (DeployFunding::Failed { error }).after(event, app, costs) == (DeployFunding::Failed {
            error,
        }),
        event is WalletRefreshed && app.wallet_reserve() == Err::<u128, Error>(error) ==> (
        DeployFunding::RefreshWallet { topup }).after(event, app, costs) == (
        DeployFunding::Failed { error }),
        event is WalletRefreshed && app.wallet_reserve() is Ok && app.participate_value() == Err::<
            u128,
            Error,
        >(error) ==> (DeployFunding::RefreshWallet { topup }).after(event, app, costs) == (
        DeployFunding::Failed { error }),
{
}

/// A DePool's own balance is left alone from twenty tokens on, and below that topped up to thirty,
/// unless no topup could be that large.
pub proof fn law_balance_upkeep_begins(own_balance: i128)
    ensures
        own_balance >= 20_000_000_000 <==> BalanceUpkeep::begun(own_balance) is Finished,
        own_balance < 20_000_000_000 && 30_000_000_000 - own_balance <= i128::MAX ==> (
        BalanceUpkeep::begun(own_balance) matches BalanceUpkeep::RefreshWallet { topup }
            && own_balance + topup == 30_000_000_000),
        30_000_000_000 - own_balance > i128::MAX ==> BalanceUpkeep::begun(own_balance) == (
        BalanceUpkeep::Failed { error: Error::TopupOutOfRange }),
{
}

/// Funds are given, as they are, whenever the reserves stay on the wallet; else the upkeep is over.
/// It is over, too, once the funds were given and the DePool was looked at.
pub proof fn law_balance_upkeep_goes_on(
    topup: u128,
    balance: u128,
    account_balance: u128,
    app: AppConfig,
    gas: u128,
    reserve: u128,
    request: u128,
)
    requires
        app.wallet_reserve() == Ok::<u128, Error>(reserve),
        app.participate_value() == Ok::<u128, Error>(request),
    ensures
        (BalanceUpkeep::RefreshWallet { topup }).after(
            UpkeepEvent::WalletRefreshed { balance },
            app,
            gas,
        ) == if balance > topup + reserve + request + gas || balance == u128::MAX {
            BalanceUpkeep::GiveFunds { topup }
        } else {
            BalanceUpkeep::Finished
        },
        (BalanceUpkeep::GiveFunds { topup }).after(UpkeepEvent::Sent, app, gas) is RefreshDepool,
        (BalanceUpkeep::GiveFunds { topup }).after(UpkeepEvent::Sent, app, gas).after(
            UpkeepEvent::DepoolRefreshed { account_balance },
            app,
            gas,
        ) is Finished,
{
    crate::wallet::law_spendable_is_what_leaves_the_reserve(
        balance,
        app,
        gas,
        topup,
        reserve,
        request,
    );
}

/// The upkeep of the balance waits for the answer to what is due, and keeps its end. Without
/// readable reserves it fails once the wallet is looked at.
pub proof fn law_balance_upkeep_waits(
    topup: u128,
    error: Error,
    event: UpkeepEvent,
    app: AppConfig,
    gas: u128,
)
    ensures
        !(event is WalletRefreshed) ==> (BalanceUpkeep::RefreshWallet { topup }).after(
            event,
            app,
            gas,
        ) == (BalanceUpkeep::RefreshWallet { topup }),
        !(event is Sent) ==> (BalanceUpkeep::GiveFunds { topup }).after(event, app, gas) == (
        BalanceUpkeep::GiveFunds { topup }),
        !(event is DepoolRefreshed) ==> BalanceUpkeep::RefreshDepool.after(event, app, gas)
            is RefreshDepool,
        BalanceUpkeep::Finished.after(event, app, gas) is Finished,
        (BalanceUpkeep::Failed { error }).after(event, app, gas) == (BalanceUpkeep::Failed {
            error,
        }),
        event is WalletRefreshed && app.wallet_reserve() == Err::<u128, Error>(error) ==> (
        BalanceUpkeep::RefreshWallet { topup }).after(event, app, gas) == (BalanceUpkeep::Failed {
            error,
        }),
        event is WalletRefreshed && app.wallet_reserve() is Ok && app.participate_value() == Err::<
            u128,
            Error,
        >(error) ==> (BalanceUpkeep::RefreshWallet { topup }).after(event, app, gas) == (
        BalanceUpkeep::Failed { error }),
{
}

/// The upkeep of the proxies begins with the first, where there is one, and is done with a proxy
/// when its balance is three tokens or more, when the wallet cannot spend the topup, and when the
/// topup was sent. Then the next one follows, where there is one. A topup that the wallet can spend
/// is sent as it is.
pub proof fn law_proxy_upkeep_goes_on(
    index: usize,
    topup: u128,
    proxy_balance: u128,
    balance: u128,
    count: usize,
    app: AppConfig,
    gas: u128,
    reserve: u128,
    request: u128,
)
    requires
        index < count,
        app.wallet_reserve() == Ok::<u128, Error>(reserve),
        app.participate_value() == Ok::<u128, Error>(request),
    ensures
        ProxyUpkeep::from(0, count) == (ProxyUpkeep::QueryProxy { index: 0 }),
        ProxyUpkeep::from(0, 0) is Finished,
        ({
            let following = if index + 1 < count {
                ProxyUpkeep::QueryProxy { index: (index + 1) as usize }
            } else {
                ProxyUpkeep::Finished
            };
            let queried = (ProxyUpkeep::QueryProxy { index }).after(
                UpkeepEvent::ProxyQueried { balance: proxy_balance },
                count,
                app,
                gas,
            );
            let refreshed = (ProxyUpkeep::RefreshWallet { index, topup }).after(
                UpkeepEvent::WalletRefreshed { balance },
                count,
                app,
                gas,
            );
            &&& proxy_balance >= 3_000_000_000 ==> queried == following
            &&& proxy_balance < 3_000_000_000 ==> queried == (ProxyUpkeep::RefreshWallet {
                index,
                topup: (5_000_000_000 - proxy_balance) as u128,
            })
            &&& if balance > topup + reserve + request + gas || balance == u128::MAX {
                refreshed == (ProxyUpkeep::SendTopup { index, topup })
            } else {
                refreshed == following
            }
            &&& (ProxyUpkeep::SendTopup { index, topup }).after(
                UpkeepEvent::Sent,
                count,
                app,
                gas,
            ) == following
        }),
{
    crate::wallet::law_spendable_is_what_leaves_the_reserve(
        balance,
        app,
        gas,
        topup,
        reserve,
        request,
    );
}

/// The upkeep of the proxies waits for the answer to what is due, and keeps its end. Without
/// readable reserves it fails once the wallet is looked at.
pub proof fn law_proxy_upkeep_waits(
    index: usize,
    topup: u128,
    error: Error,
    event: UpkeepEvent,
    count: usize,
    app: AppConfig,
    gas: u128,
)
    ensures
        !(event is ProxyQueried) ==> (ProxyUpkeep::QueryProxy { index }).after(
            event,
            count,
            app,
            gas,
        ) == (ProxyUpkeep::QueryProxy { index }),
        !(event is WalletRefreshed) ==> (ProxyUpkeep::RefreshWallet { index, topup }).after(
            event,
            count,
            app,
            gas,
        ) == (ProxyUpkeep::RefreshWallet { index, topup }),
        !(event is Sent) ==> (ProxyUpkeep::SendTopup { index, topup }).after(
            event,
            count,
            app,
            gas,
        ) == (ProxyUpkeep::SendTopup { index, topup }),
        ProxyUpkeep::Finished.after(event, count, app, gas) is Finished,
        (ProxyUpkeep::Failed { error }).after(event, count, app, gas) == (ProxyUpkeep::Failed {
            error,
        }),
        event is WalletRefreshed && app.wallet_reserve() == Err::<u128, Error>(error) ==> (
        ProxyUpkeep::RefreshWallet { index, topup }).after(event, count, app, gas) == (
        ProxyUpkeep::Failed { error }),
        event is WalletRefreshed && app.wallet_reserve() is Ok && app.participate_value() == Err::<
            u128,
            Error,
        >(error) ==> (ProxyUpkeep::RefreshWallet { index, topup }).after(event, count, app, gas)
            == (ProxyUpkeep::Failed { error }),
{
}

/// A validator who holds what is required has nothing to add. Any other adds just what is missing,
/// or the smallest stake that the DePool takes where that is more.
pub proof fn law_stake_upkeep_begins(
    depool: DePoolState,
    config: DepoolRuntimeConfig,
    participant: Option<&DePoolParticipant>,
    required: u64,
)
    requires
        required_stake(depool, config) == Ok::<u64, Error>(required),
    ensures
        ({
            let current = counted_stake(depool.rounds@, participant);
            let begun = StakeUpkeep::begun(depool, config, participant);
            if current >= required {
                begun == (StakeUpkeep::Finished { outcome: StakeOutcome::Ready })
            } else {
                begun matches StakeUpkeep::RefreshWallet { stake_to_add } && stake_to_add + current
                    >= required && stake_to_add >= depool.min_stake && (stake_to_add + current
                    == required || stake_to_add == depool.min_stake)
            }
        }),
{
    crate::depool::lemma_counted_stake_is_an_amount(depool.rounds@, participant);
}

/// A stake is added, as it is, whenever the reserves and the gas of two messages stay on the
/// wallet. Where the wallet holds more than these, but not enough, the budget is too low; where it
/// holds no more, there is none.
pub proof fn law_stake_upkeep_goes_on(
    stake: u128,
    balance: u128,
    account_balance: u128,
    app: AppConfig,
    gas: u128,
    reserve: u128,
    request: u128,
)
    requires
        app.wallet_reserve() == Ok::<u128, Error>(reserve),
        app.participate_value() == Ok::<u128, Error>(request),
    ensures
        (StakeUpkeep::RefreshWallet { stake_to_add: stake }).after(
            UpkeepEvent::WalletRefreshed { balance },
            app,
            gas,
        ) == if balance <= reserve + request + 2 * gas {
            StakeUpkeep::Finished { outcome: StakeOutcome::NoBudget }
        } else if balance < stake + reserve + request + 2 * gas {
            StakeUpkeep::Finished { outcome: StakeOutcome::BudgetTooLow }
        } else {
            StakeUpkeep::AddStake { stake }
        },
        (StakeUpkeep::AddStake { stake }).after(UpkeepEvent::Sent, app, gas) is RefreshDepool,
        (StakeUpkeep::AddStake { stake }).after(UpkeepEvent::Sent, app, gas).after(
            UpkeepEvent::DepoolRefreshed { account_balance },
            app,
            gas,
        ) == (StakeUpkeep::Finished { outcome: StakeOutcome::Added }),
{
    crate::wallet::law_budget_is_all_above_the_reserves(balance, app, gas, reserve, request);
}

/// The upkeep of the stake waits for the answer to what is due, and keeps its end. Without readable
/// amounts it fails.
pub proof fn law_stake_upkeep_waits(
    depool: DePoolState,
    config: DepoolRuntimeConfig,
    participant: Option<&DePoolParticipant>,
    stake: u128,
    outcome: StakeOutcome,
    error: Error,
    event: UpkeepEvent,
    app: AppConfig,
    gas: u128,
)
    ensures
        required_stake(depool, config) == Err::<u64, Error>(error) ==> StakeUpkeep::begun(
            depool,
            config,
            participant,
        ) == (StakeUpkeep::Failed { error }),
        !(event is WalletRefreshed) ==> (StakeUpkeep::RefreshWallet { stake_to_add: stake }).after(
            event,
            app,
            gas,
        ) == (StakeUpkeep::RefreshWallet { stake_to_add: stake }),
        !(event is Sent) ==> (StakeUpkeep::AddStake { stake }).after(event, app, gas) == (
        StakeUpkeep::AddStake { stake }),
        !(event is DepoolRefreshed) ==> StakeUpkeep::RefreshDepool.after(event, app, gas)
            is RefreshDepool,
        (StakeUpkeep::Finished { outcome }).after(event, app, gas) == (StakeUpkeep::Finished {
            outcome,
        }),
        (StakeUpkeep::Failed { error }).after(event, app, gas) == (StakeUpkeep::Failed { error }),
        event is WalletRefreshed && app.wallet_reserve() == Err::<u128, Error>(error) ==> (
        StakeUpkeep::RefreshWallet { stake_to_add: stake }).after(event, app, gas) == (
        StakeUpkeep::Failed { error }),
        event is WalletRefreshed && app.wallet_reserve() is Ok && app.participate_value() == Err::<
            u128,
            Error,
        >(error) ==> (StakeUpkeep::RefreshWallet { stake_to_add: stake }).after(event, app, gas)
            == (StakeUpkeep::Failed { error }),
{
}

/// A DePool belongs to another wallet exactly where it names an owner that differs in the workchain
/// or in the address.
pub proof fn law_owner_is_told_by_its_address(depool: DePoolState, owner: StdAddr, wallet: StdAddr)
    ensures
        depool.validator_wallet is None ==> !owned_by_other(depool, wallet),
        depool.validator_wallet == Some(owner) ==> (owned_by_other(depool, wallet) <==> (
        owner.workchain != wallet.workchain || owner.address@ != wallet.address@)),
{
}

/// After the first look, a DePool that is active goes on to have its balance kept up, whatever the
/// configuration says of it. One that is not is funded where it is a new one, and refused where it
/// is not.
pub proof fn law_active_depool_is_maintained(
    depool: DePoolState,
    config: DepoolRuntimeConfig,
    wallet: StdAddr,
)
    ensures
        ({
            let next = PrepareDepool::RefreshDepool.after(
                PrepareEvent::DepoolRefreshed,
                depool,
                config,
                wallet,
            );
            &&& depool.active <==> next is MaintainBalance
            &&& !depool.active && config.new is Some <==> next is EnsureDeployBalance
            &&& !depool.active && config.new is None <==> next == (PrepareDepool::Failed {
                error: Error::DepoolNotActive,
            })
        }),
{
}

/// A preparation ends with a DePool that is not ready only where the deployment could not be
/// funded, and with one that is ready only where the stake was seen to.
pub proof fn law_preparation_ends_for_a_reason(
    state: PrepareDepool,
    event: PrepareEvent,
    depool: DePoolState,
    config: DepoolRuntimeConfig,
    wallet: StdAddr,
)
    requires
        !(state is Finished),
    ensures
        state.after(event, depool, config, wallet) == (PrepareDepool::Finished { ready: false })
            <==> state is EnsureDeployBalance && event == (PrepareEvent::DeployBalance {
            ready: false,
        }),
        state.after(event, depool, config, wallet) == (PrepareDepool::Finished { ready: true })
            <==> state is EnsureRoundStake && event is RoundStakeEnsured,
{
}

/// A funded DePool is deployed with the smallest stake and the assurance that are configured, and
/// is refused where one of them cannot be read.
pub proof fn law_deployment_is_as_configured(
    depool: DePoolState,
    config: DepoolRuntimeConfig,
    new: NewDepoolConfig,
    wallet: StdAddr,
)
    requires
        config.new == Some(new),
    ensures
        ({
            let next = PrepareDepool::EnsureDeployBalance.after(
                PrepareEvent::DeployBalance { ready: true },
                depool,
                config,
                wallet,
            );
            match (nano_amount(new.min_stake@), nano_amount(new.validator_assurance@)) {
                (Ok(min_stake), Ok(validator_assurance)) => next == (PrepareDepool::Deploy {
                    min_stake,
                    validator_assurance,
                }) && deployment(config) == Ok::<(u128, u128), Error>(
                    (min_stake, validator_assurance),
                ),
                (Err(reason), _) => next == (PrepareDepool::Failed {
                    error: Error::Amount { setting: Setting::MinStake, reason },
                }) && deployment(config) == Err::<(u128, u128), Error>(
                    Error::Amount { setting: Setting::MinStake, reason },
                ),
                (_, Err(reason)) => next == (PrepareDepool::Failed {
                    error: Error::Amount { setting: Setting::ValidatorAssurance, reason },
                }) && deployment(config) == Err::<(u128, u128), Error>(
                    Error::Amount { setting: Setting::ValidatorAssurance, reason },
                ),
            }
        }),
{
}

/// Nothing is deployed without the configuration of a new DePool.
pub proof fn law_existing_depool_is_not_deployed(config: DepoolRuntimeConfig)
    requires
        config.new is None,
    ensures
        deployment(config) == Err::<(u128, u128), Error>(Error::DepoolNotActive),
{
}

/// A DePool that is active or was just deployed gets ready once its balance, its proxies and the
/// stake were seen to, whatever else is seen of it meanwhile. Only its owner counts.
pub proof fn law_preparation_gets_ready(
    state: PrepareDepool,
    first: DePoolState,
    second: DePoolState,
    third: DePoolState,
    fourth: DePoolState,
    config: DepoolRuntimeConfig,
    wallet: StdAddr,
)
    requires
        state is RefreshDepool && first.active || state is RefreshDeployed,
    ensures
        ({
            let kept = state.after(PrepareEvent::DepoolRefreshed, first, config, wallet).after(
                PrepareEvent::BalanceMaintained,
                second,
                config,
                wallet,
            ).after(PrepareEvent::ProxiesMaintained, third, config, wallet);
            if owned_by_other(third, wallet) {
                kept == (PrepareDepool::Failed { error: Error::ValidatorWalletMismatch })
            } else {
                &&& kept is EnsureRoundStake
                &&& kept.after(PrepareEvent::RoundStakeEnsured, fourth, config, wallet) == (
                PrepareDepool::Finished { ready: true })
            }
        }),
{
}

/// A preparation waits for the answer to what is due, and keeps its end.
pub proof fn law_preparation_waits(
    min_stake: u128,
    validator_assurance: u128,
    ready: bool,
    error: Error,
    event: PrepareEvent,
    depool: DePoolState,
    config: DepoolRuntimeConfig,
    wallet: StdAddr,
)
    ensures
        !(event is DepoolRefreshed) ==> PrepareDepool::RefreshDepool.after(
            event,
            depool,
            config,
            wallet,
        ) is RefreshDepool,
        !(event is DeployBalance) ==> PrepareDepool::EnsureDeployBalance.after(
            event,
            depool,
            config,
            wallet,
        ) is EnsureDeployBalance,
        ({
            let deploy = PrepareDepool::Deploy { min_stake, validator_assurance };
            if event is Deployed {
                deploy.after(event, depool, config, wallet) is RefreshDeployed
            } else {
                deploy.after(event, depool, config, wallet) == deploy
            }
        }),
        !(event is DepoolRefreshed) ==> PrepareDepool::RefreshDeployed.after(
            event,
            depool,
            config,
            wallet,
        ) is RefreshDeployed,
        !(event is BalanceMaintained) ==> PrepareDepool::MaintainBalance.after(
            event,
            depool,
            config,
            wallet,
        ) is MaintainBalance,
        event is BalanceMaintained ==> PrepareDepool::MaintainBalance.after(
            event,
            depool,
            config,
            wallet,
        ) is MaintainProxies,
        !(event is ProxiesMaintained) ==> PrepareDepool::MaintainProxies.after(
            event,
            depool,
            config,
            wallet,
        ) is MaintainProxies,
        !(event is RoundStakeEnsured) ==> PrepareDepool::EnsureRoundStake.after(
            event,
            depool,
            config,
            wallet,
        ) is EnsureRoundStake,
        (PrepareDepool::Finished { ready }).after(event, depool, config, wallet) == (
        PrepareDepool::Finished { ready }),
        (PrepareDepool::Failed { error }).after(event, depool, config, wallet) == (
        PrepareDepool::Failed { error }),
{
}

} // verus!
