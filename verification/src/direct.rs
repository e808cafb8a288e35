//! Elections of the direct cycle: it acts with what is on the wallet and in the DePool, sends one
//! tick-tock per look, and submits nothing in a dry run.

use crate::address::StdAddr;
use crate::amount::{nano_amount, AmountError};
use crate::config::{capped_sum, AppConfig, DepoolRuntimeConfig, StakeConfig};
use crate::confirm::CurrentElection;
use crate::depool::{
    depool_has_source, ready_selection, required_depool_stake, required_stake,
    select_ready_depool_round, DePoolState,
};
use crate::error::{Error, Setting};
use crate::managed::{elections_stake_text, registered_by, SimpleTerms};
use crate::schedule::{boundary_wait, boundary_wait_secs};
use crate::upkeep::{deployment, deployment_amounts, is_owned_by_other, owned_by_other};
use crate::wallet::DepoolCosts;
use vstd::prelude::*;

verus! {

/// What a wallet can stake through a DePool: all that is above the gas of two messages.
pub open spec fn available_stake(balance: u128, gas: u128) -> Option<u128> {
    if balance > capped_sum(gas, gas) {
        Some((balance - capped_sum(gas, gas)) as u128)
    } else {
        None
    }
}

/// What a wallet can stake through a DePool.
pub fn depool_available_stake(balance: u128, gas: u128) -> (r: Option<u128>)
    ensures
        r == available_stake(balance, gas),
{
    let kept: u128 = gas.saturating_add(gas);
    if balance > kept {
        Some(balance - kept)
    } else {
        None
    }
}

/// Staking all that is available leaves exactly the gas of two messages.
pub proof fn law_available_stake_keeps_gas(balance: u128, gas: u128)
    requires
        available_stake(balance, gas) is Some,
    ensures
        available_stake(balance, gas)->Some_0 > 0,
        available_stake(balance, gas)->Some_0 + 2 * gas == balance,
{
}

/// Getting a DePool ready.
#[derive(Clone, Copy, Debug, PartialEq, Eq, Structural)]
pub enum DirectPrepare {
    /// Update the DePool.
    RefreshDepool,
    /// Send the topup to the DePool that is to be deployed.
    SendTopup { topup: u128 },
    /// Update the DePool that was topped up.
    RefreshFunded,
    /// Deploy the DePool with these amounts.
    Deploy { min_stake: u128, validator_assurance: u128 },
    /// Update the DePool that was deployed.
    RefreshDeployed,
    /// Update the wallet, to see what it can stake.
    RefreshWallet,
    /// Add the stake.
    AddStake { stake: u128 },
    /// Update the DePool that was staked in.
    RefreshStaked,
    Finished,
    Failed { error: Error },
}

/// What comes back from work outside. Work that fails ends the procedure.
#[derive(Clone, Copy, Debug, PartialEq, Eq, Structural)]
pub enum DirectEvent {
    DepoolRefreshed,
    WalletRefreshed { balance: u128 },
    /// What was to be submitted is out.
    Sent,
    /// The request is prepared and signed.
    Prepared,
    /// The stake keeps the network's rules.
    StakeAccepted,
    Confirmed { wait_secs: u64 },
    ConfirmFailed { error: Error },
}

/// An event, the DePool as it was last seen, and what the validator holds in it.
pub struct DirectInput {
    pub event: DirectEvent,
    pub depool: DePoolState,
    pub held: u128,
}

impl DirectPrepare {
    /// What is due for a DePool that is to be deployed and has the funds.
    pub open spec fn deploying(config: DepoolRuntimeConfig) -> DirectPrepare {
        match deployment(config) {
            Err(error) => DirectPrepare::Failed { error },
            Ok((min_stake, validator_assurance)) => DirectPrepare::Deploy {
                min_stake,
                validator_assurance,
            },
        }
    }

    /// What is due for a DePool that is active.
    pub open spec fn staking(
        depool: DePoolState,
        held: u128,
        config: DepoolRuntimeConfig,
        wallet: StdAddr,
    ) -> DirectPrepare {
        if owned_by_other(depool, wallet) {
            DirectPrepare::Failed { error: Error::ValidatorWalletMismatch }
        } else {
            match required_stake(depool, config) {
                Err(error) => DirectPrepare::Failed { error },
                Ok(required) => if held >= required {
                    DirectPrepare::Finished
                } else {
                    DirectPrepare::RefreshWallet
                },
            }
        }
    }

    pub open spec fn after(
        self,
        event: DirectEvent,
        depool: DePoolState,
        held: u128,
        config: DepoolRuntimeConfig,
        wallet: StdAddr,
        app: AppConfig,
        costs: DepoolCosts,
    ) -> DirectPrepare {
        match (self, event) {
            (DirectPrepare::RefreshDepool, DirectEvent::DepoolRefreshed) => if depool.active {
                DirectPrepare::staking(depool, held, config, wallet)
            } else if config.new is None {
                DirectPrepare::Failed { error: Error::DepoolNotActive }
            } else if !app.send {
                DirectPrepare::Finished
            } else if depool.account_balance < costs.deploy_minimum + costs.gas {
                DirectPrepare::SendTopup {
                    topup: (costs.deploy_minimum + costs.gas - depool.account_balance) as u128,
                }
            } else {
                DirectPrepare::deploying(config)
            },
            (DirectPrepare::SendTopup { topup }, DirectEvent::Sent) => DirectPrepare::RefreshFunded,
            (DirectPrepare::RefreshFunded, DirectEvent::DepoolRefreshed) =>
                DirectPrepare::deploying(config),
            (DirectPrepare::Deploy { min_stake, validator_assurance }, DirectEvent::Sent) =>
                DirectPrepare::RefreshDeployed,
            (DirectPrepare::RefreshDeployed, DirectEvent::DepoolRefreshed) =>
                DirectPrepare::staking(depool, held, config, wallet),
            (DirectPrepare::RefreshWallet, DirectEvent::WalletRefreshed { balance }) =>
                match available_stake(balance, costs.gas) {
                None => DirectPrepare::Finished,
                Some(stake) => if app.send {
                    DirectPrepare::AddStake { stake }
                } else {
                    DirectPrepare::Finished
                },
            },
            (DirectPrepare::AddStake { stake }, DirectEvent::Sent) => DirectPrepare::RefreshStaked,
            (DirectPrepare::RefreshStaked, DirectEvent::DepoolRefreshed) => DirectPrepare::Finished,
            _ => self,
        }
    }

    /// What is due after several events.
    pub open spec fn after_all(
        self,
        inputs: Seq<DirectInput>,
        config: DepoolRuntimeConfig,
        wallet: StdAddr,
        app: AppConfig,
        costs: DepoolCosts,
    ) -> DirectPrepare
        decreases inputs.len(),
    {
        if inputs.len() == 0 {
            self
        } else {
            self.after_all(inputs.drop_last(), config, wallet, app, costs).after(
                inputs.last().event,
                inputs.last().depool,
                inputs.last().held,
                config,
                wallet,
                app,
                costs,
            )
        }
    }

    /// Whether something is to be submitted.
    pub open spec fn submits(self) -> bool {
        self is SendTopup || self is Deploy || self is AddStake
    }

    fn deploy(config: &DepoolRuntimeConfig) -> (r: DirectPrepare)
        ensures
            r == DirectPrepare::deploying(*config),
    {
        match deployment_amounts(config) {
            Err(error) => DirectPrepare::Failed { error },
            Ok((min_stake, validator_assurance)) => DirectPrepare::Deploy {
                min_stake,
                validator_assurance,
            },
        }
    }

    fn stake(
        depool: &DePoolState,
        held: u128,
        config: &DepoolRuntimeConfig,
        wallet: &StdAddr,
    ) -> (r: DirectPrepare)
        ensures
            r == DirectPrepare::staking(*depool, held, *config, *wallet),
    {
        if is_owned_by_other(depool, wallet) {
            return DirectPrepare::Failed { error: Error::ValidatorWalletMismatch };
        }
        match required_depool_stake(depool, config) {
            Err(error) => DirectPrepare::Failed { error },
            Ok(required) => {
                if held >= required as u128 {
                    DirectPrepare::Finished
                } else {
                    DirectPrepare::RefreshWallet
                }
            },
        }
    }

    /// Begins to get a DePool ready.
    pub fn prepare_depool() -> (r: DirectPrepare)
        ensures
            r == DirectPrepare::RefreshDepool,
    {
        DirectPrepare::RefreshDepool
    }

    /// Goes on after an event, with the DePool as it was last seen, in which the validator holds
    /// `held` over all rounds.
    pub fn next(
        self,
        event: DirectEvent,
        depool: &DePoolState,
        held: u128,
        config: &DepoolRuntimeConfig,
        wallet: &StdAddr,
        app: &AppConfig,
        costs: &DepoolCosts,
    ) -> (r: DirectPrepare)
        requires
            costs.deploy_minimum + costs.gas <= u128::MAX,
        ensures
            r == self.after(event, *depool, held, *config, *wallet, *app, *costs),
    {
        match (self, event) {
            (DirectPrepare::RefreshDepool, DirectEvent::DepoolRefreshed) => {
                if depool.active {
                    return DirectPrepare::stake(depool, held, config, wallet);
                }
                if config.new.is_none() {
                    return DirectPrepare::Failed { error: Error::DepoolNotActive };
                }
                if !app.send {
                    return DirectPrepare::Finished;
                }
                let target: u128 = costs.deploy_minimum + costs.gas;
                if depool.account_balance < target {
                    DirectPrepare::SendTopup { topup: target - depool.account_balance }
                } else {
                    DirectPrepare::deploy(config)
                }
            },
            (DirectPrepare::SendTopup { topup: _ }, DirectEvent::Sent) =>
                DirectPrepare::RefreshFunded,
            (DirectPrepare::RefreshFunded, DirectEvent::DepoolRefreshed) => DirectPrepare::deploy(
                config,
            ),
            (DirectPrepare::Deploy { min_stake: _, validator_assurance: _ }, DirectEvent::Sent) =>
                DirectPrepare::RefreshDeployed,
            (DirectPrepare::RefreshDeployed, DirectEvent::DepoolRefreshed) => DirectPrepare::stake(
                depool,
                held,
                config,
                wallet,
            ),
            (DirectPrepare::RefreshWallet, DirectEvent::WalletRefreshed { balance }) => {
                match depool_available_stake(balance, costs.gas) {
                    None => DirectPrepare::Finished,
                    Some(stake) => {
                        if app.send {
                            DirectPrepare::AddStake { stake }
                        } else {
                            DirectPrepare::Finished
                        }
                    },
                }
            },
            (DirectPrepare::AddStake { stake: _ }, DirectEvent::Sent) =>
                DirectPrepare::RefreshStaked,
            (DirectPrepare::RefreshStaked, DirectEvent::DepoolRefreshed) => DirectPrepare::Finished,
            (state, _) => state,
        }
    }
}

/// In a dry run nothing is submitted while a DePool gets ready, whatever happens.
pub proof fn law_dry_run_prepares_without_submitting(
    inputs: Seq<DirectInput>,
    config: DepoolRuntimeConfig,
    wallet: StdAddr,
    app: AppConfig,
    costs: DepoolCosts,
)
    requires
        !app.send,
    ensures
        ({
            let state = DirectPrepare::RefreshDepool.after_all(inputs, config, wallet, app, costs);
            &&& !state.submits()
            &&& state is RefreshDepool || state is RefreshWallet || state is Finished
                || state is Failed
        }),
    decreases inputs.len(),
{
    if inputs.len() > 0 {
        law_dry_run_prepares_without_submitting(inputs.drop_last(), config, wallet, app, costs);
    }
}

/// A topup brings a DePool's account exactly to what its deployment takes.
pub proof fn law_direct_topup_reaches_target(
    depool: DePoolState,
    held: u128,
    config: DepoolRuntimeConfig,
    wallet: StdAddr,
    app: AppConfig,
    costs: DepoolCosts,
)
    requires
        costs.deploy_minimum + costs.gas <= u128::MAX,
        DirectPrepare::RefreshDepool.after(
            DirectEvent::DepoolRefreshed,
            depool,
            held,
            config,
            wallet,
            app,
            costs,
        ) is SendTopup,
    ensures
        depool.account_balance + DirectPrepare::RefreshDepool.after(
            DirectEvent::DepoolRefreshed,
            depool,
            held,
            config,
            wallet,
            app,
            costs,
        )->topup == costs.deploy_minimum + costs.gas,
{
}

/// No stake goes to a DePool that belongs to another wallet.
pub proof fn law_direct_stake_only_for_own_depool(
    state: DirectPrepare,
    event: DirectEvent,
    depool: DePoolState,
    held: u128,
    config: DepoolRuntimeConfig,
    wallet: StdAddr,
    app: AppConfig,
    costs: DepoolCosts,
)
    requires
        !(state is RefreshWallet),
        state.after(event, depool, held, config, wallet, app, costs) is RefreshWallet,
    ensures
        !owned_by_other(depool, wallet),
        held < required_stake(depool, config)->Ok_0,
{
}

impl DirectPrepare {
    /// How far the procedure has come.
    pub open spec fn progress(self) -> int {
        match self {
            DirectPrepare::RefreshDepool => 0,
            DirectPrepare::SendTopup { topup } => 1,
            DirectPrepare::RefreshFunded => 2,
            DirectPrepare::Deploy { min_stake, validator_assurance } => 3,
            DirectPrepare::RefreshDeployed => 4,
            DirectPrepare::RefreshWallet => 5,
            DirectPrepare::AddStake { stake } => 6,
            DirectPrepare::RefreshStaked => 7,
            _ => 8,
        }
    }
}

/// Every answer brings the preparation forward, so that it ends after at most eight.
pub proof fn law_direct_prepare_moves_on(
    state: DirectPrepare,
    event: DirectEvent,
    depool: DePoolState,
    held: u128,
    config: DepoolRuntimeConfig,
    wallet: StdAddr,
    app: AppConfig,
    costs: DepoolCosts,
)
    requires
        state.after(event, depool, held, config, wallet, app, costs) != state,
    ensures
        state.progress() < state.after(event, depool, held, config, wallet, app, costs).progress() <= 8,
{
}

/// Taking part in an election through a DePool.
#[derive(Clone, Copy, Debug, PartialEq, Eq)]
pub enum DirectDepoolElection {
    /// Update the DePool.
    RefreshDepool,
    /// Send a tick-tock.
    SendTicktock,
    /// Update the DePool after the tick-tock.
    RefreshTicked,
    /// Prepare and sign the request for this round.
    Prepare { round_id: u64, proxy: StdAddr },
    /// Send the request.
    Participate { round_id: u64, proxy: StdAddr },
    /// Wait for the confirmation.
    Confirm,
    /// Done: wait so many seconds.
    Finished { wait_secs: u64 },
    Failed { error: Error },
}

impl DirectDepoolElection {
    pub open spec fn begun(
        current: CurrentElection,
        depool: DePoolState,
        until_elections_end: u32,
    ) -> DirectDepoolElection {
        if registered_by(current, depool) {
            DirectDepoolElection::Finished { wait_secs: boundary_wait(until_elections_end) }
        } else {
            DirectDepoolElection::RefreshDepool
        }
    }

    /// What is due once the DePool is up to date.
    pub open spec fn choosing(
        depool: DePoolState,
        election_id: u32,
        app: AppConfig,
    ) -> DirectDepoolElection {
        match ready_selection(depool.rounds@, depool.proxies@, election_id) {
            Err(error) => DirectDepoolElection::Failed { error },
            Ok(None) => DirectDepoolElection::Finished { wait_secs: app.poll_interval_secs },
            Ok(Some((round_id, proxy))) => DirectDepoolElection::Prepare { round_id, proxy },
        }
    }

    pub open spec fn after(
        self,
        event: DirectEvent,
        depool: DePoolState,
        election_id: u32,
        app: AppConfig,
    ) -> DirectDepoolElection {
        match (self, event) {
            (DirectDepoolElection::RefreshDepool, DirectEvent::DepoolRefreshed) => if app.send {
                DirectDepoolElection::SendTicktock
            } else {
                DirectDepoolElection::choosing(depool, election_id, app)
            },
            (DirectDepoolElection::SendTicktock, DirectEvent::Sent) =>
                DirectDepoolElection::RefreshTicked,
            (DirectDepoolElection::RefreshTicked, DirectEvent::DepoolRefreshed) =>
                DirectDepoolElection::choosing(depool, election_id, app),
            (DirectDepoolElection::Prepare { round_id, proxy }, DirectEvent::Prepared) =>
                if app.send {
                DirectDepoolElection::Participate { round_id, proxy }
            } else {
                DirectDepoolElection::Finished { wait_secs: app.poll_interval_secs }
            },
            (DirectDepoolElection::Participate { round_id, proxy }, DirectEvent::Sent) =>
                DirectDepoolElection::Confirm,
            (DirectDepoolElection::Confirm, DirectEvent::Confirmed { wait_secs }) =>
                DirectDepoolElection::Finished { wait_secs },
            (DirectDepoolElection::Confirm, DirectEvent::ConfirmFailed { error }) =>
                DirectDepoolElection::Failed { error },
            _ => self,
        }
    }

    /// What is due after several events.
    pub open spec fn after_all(
        self,
        inputs: Seq<DirectInput>,
        election_id: u32,
        app: AppConfig,
    ) -> DirectDepoolElection
        decreases inputs.len(),
    {
        if inputs.len() == 0 {
            self
        } else {
            self.after_all(inputs.drop_last(), election_id, app).after(
                inputs.last().event,
                inputs.last().depool,
                election_id,
                app,
            )
        }
    }

    /// Whether something is to be submitted.
    pub open spec fn submits(self) -> bool {
        self is SendTicktock || self is Participate
    }

    fn choose_round(depool: &DePoolState, election_id: u32, app: &AppConfig) -> (r:
        DirectDepoolElection)
        ensures
            r == DirectDepoolElection::choosing(*depool, election_id, *app),
    {
        match select_ready_depool_round(depool, election_id) {
            Err(error) => DirectDepoolElection::Failed { error },
            Ok(None) => DirectDepoolElection::Finished { wait_secs: app.poll_interval() },
            Ok(Some((round_id, proxy))) => DirectDepoolElection::Prepare { round_id, proxy },
        }
    }

    /// Begins to take part in an election.
    pub fn run_depool_election(
        current: &CurrentElection,
        depool: &DePoolState,
        until_elections_end: u32,
    ) -> (r: DirectDepoolElection)
        ensures
            r == DirectDepoolElection::begun(*current, *depool, until_elections_end),
    {
        let registered: bool = match &current.member {
            Some(member) => depool_has_source(depool.proxies.as_slice(), &member.src_addr),
            None => false,
        };
        if registered {
            DirectDepoolElection::Finished { wait_secs: boundary_wait_secs(until_elections_end) }
        } else {
            DirectDepoolElection::RefreshDepool
        }
    }

    /// Goes on after an event, with the DePool as it was last seen.
    pub fn next(self, event: DirectEvent, depool: &DePoolState, election_id: u32, app: &AppConfig)
        -> (r: DirectDepoolElection)
        ensures
            r == self.after(event, *depool, election_id, *app),
    {
        match (self, event) {
            (DirectDepoolElection::RefreshDepool, DirectEvent::DepoolRefreshed) => {
                if app.send {
                    DirectDepoolElection::SendTicktock
                } else {
                    DirectDepoolElection::choose_round(depool, election_id, app)
                }
            },
            (DirectDepoolElection::SendTicktock, DirectEvent::Sent) =>
                DirectDepoolElection::RefreshTicked,
            (DirectDepoolElection::RefreshTicked, DirectEvent::DepoolRefreshed) =>
                DirectDepoolElection::choose_round(depool, election_id, app),
            (DirectDepoolElection::Prepare { round_id, proxy }, DirectEvent::Prepared) => {
                if app.send {
                    DirectDepoolElection::Participate { round_id, proxy }
                } else {
                    DirectDepoolElection::Finished { wait_secs: app.poll_interval() }
                }
            },
            (DirectDepoolElection::Participate { round_id: _, proxy: _ }, DirectEvent::Sent) =>
                DirectDepoolElection::Confirm,
            (DirectDepoolElection::Confirm, DirectEvent::Confirmed { wait_secs }) =>
                DirectDepoolElection::Finished { wait_secs },
            (DirectDepoolElection::Confirm, DirectEvent::ConfirmFailed { error }) =>
                DirectDepoolElection::Failed { error },
            (state, _) => state,
        }
    }
}

/// In a dry run nothing is submitted during an election through a DePool, whatever happens.
pub proof fn law_dry_run_elects_without_submitting(
    inputs: Seq<DirectInput>,
    current: CurrentElection,
    depool: DePoolState,
    until_elections_end: u32,
    app: AppConfig,
)
    requires
        !app.send,
    ensures
        ({
            let state = DirectDepoolElection::begun(current, depool, until_elections_end).after_all(
                inputs,
                current.elect_at,
                app,
            );
            &&& !state.submits()
            &&& state is RefreshDepool || state is Prepare || state is Finished || state is Failed
        }),
    decreases inputs.len(),
{
    if inputs.len() > 0 {
        law_dry_run_elects_without_submitting(
            inputs.drop_last(),
            current,
            depool,
            until_elections_end,
            app,
        );
    }
}

/// A request is prepared only for a round of this election that waits for it, and goes through one
/// of the DePool's proxies.
pub proof fn law_direct_request_only_for_waiting_round(
    state: DirectDepoolElection,
    event: DirectEvent,
    depool: DePoolState,
    election_id: u32,
    app: AppConfig,
)
    requires
        !(state is Prepare),
        state.after(event, depool, election_id, app) is Prepare,
    ensures
        ({
            let next = state.after(event, depool, election_id, app);
            &&& exists|i: int|
                0 <= i < depool.rounds@.len() && (#[trigger] depool.rounds@[i]).id
                    == next->Prepare_round_id && depool.rounds@[i].supposed_elected_at
                    == election_id && depool.rounds@[i].step
                    == crate::depool::DEPOOL_ROUND_STEP_WAITING_VALIDATOR_REQUEST
            &&& crate::depool::has_source(depool.proxies@, next->Prepare_proxy.address@)
        }),
{
    let wanted = crate::depool::waiting_round(election_id);
    crate::depool::lemma_first_round(depool.rounds@, wanted);
    let round = crate::depool::first_round(depool.rounds@, wanted)->Some_0;
    let i = choose|i: int| 0 <= i < depool.rounds@.len() && #[trigger] depool.rounds@[i] == round;
    assert(depool.rounds@[i].id == round.id);
    crate::depool::lemma_proxy_is_a_source(round.id, depool.proxies@);
}

impl DirectDepoolElection {
    /// How far the procedure has come.
    pub open spec fn progress(self) -> int {
        match self {
            DirectDepoolElection::RefreshDepool => 0,
            DirectDepoolElection::SendTicktock => 1,
            DirectDepoolElection::RefreshTicked => 2,
            DirectDepoolElection::Prepare { round_id, proxy } => 3,
            DirectDepoolElection::Participate { round_id, proxy } => 4,
            DirectDepoolElection::Confirm => 5,
            _ => 6,
        }
    }
}

/// Every answer brings the election forward, so that it ends after at most six.
pub proof fn law_direct_depool_election_moves_on(
    state: DirectDepoolElection,
    event: DirectEvent,
    depool: DePoolState,
    election_id: u32,
    app: AppConfig,
)
    requires
        state.after(event, depool, election_id, app) != state,
    ensures
        state.progress() < state.after(event, depool, election_id, app).progress() <= 6,
{
}

/// Taking part in an election with one's own stake.
#[derive(Clone, Copy, Debug, PartialEq, Eq, Structural)]
pub enum DirectSimpleElection {
    /// Send the message that recovers an earlier stake. `balance` is what the wallet held before.
    SendRecovery { balance: u128 },
    /// Hold the stake against the network's rules.
    CheckStake { stake: u128 },
    /// Send the request.
    SendRequest { stake: u128 },
    /// Wait for the confirmation.
    Confirm,
    /// Done: wait so many seconds.
    Finished { wait_secs: u64 },
    Failed { error: Error },
}

impl DirectSimpleElection {
    /// What is due once nothing is left to recover. Here the election costs the elector's gas.
    pub open spec fn with_balance(balance: u128, terms: SimpleTerms) -> DirectSimpleElection {
        match terms.stake.stake(balance, terms.elector_gas, elections_stake_text(terms)) {
            Err(error) => DirectSimpleElection::Failed { error },
            Ok(stake) => DirectSimpleElection::CheckStake { stake },
        }
    }

    pub open spec fn begun(
        credit: Option<u128>,
        balance: u128,
        terms: SimpleTerms,
        app: AppConfig,
    ) -> DirectSimpleElection {
        if terms.registered {
            DirectSimpleElection::Finished { wait_secs: boundary_wait(terms.until_elections_end) }
        } else if app.send && (credit matches Some(c) && c > 0) {
            DirectSimpleElection::SendRecovery { balance }
        } else {
            DirectSimpleElection::with_balance(balance, terms)
        }
    }

    pub open spec fn after(
        self,
        event: DirectEvent,
        terms: SimpleTerms,
        app: AppConfig,
    ) -> DirectSimpleElection {
        match (self, event) {
            (DirectSimpleElection::SendRecovery { balance }, DirectEvent::Sent) =>
                DirectSimpleElection::with_balance(balance, terms),
            (DirectSimpleElection::CheckStake { stake }, DirectEvent::StakeAccepted) =>
                if app.send {
                DirectSimpleElection::SendRequest { stake }
            } else {
                DirectSimpleElection::Finished { wait_secs: app.poll_interval_secs }
            },
            (DirectSimpleElection::SendRequest { stake }, DirectEvent::Sent) =>
                DirectSimpleElection::Confirm,
            (DirectSimpleElection::Confirm, DirectEvent::Confirmed { wait_secs }) =>
                DirectSimpleElection::Finished { wait_secs },
            (DirectSimpleElection::Confirm, DirectEvent::ConfirmFailed { error }) =>
                DirectSimpleElection::Failed { error },
            _ => self,
        }
    }

    /// What is due after several events.
    pub open spec fn after_all(
        self,
        events: Seq<DirectEvent>,
        terms: SimpleTerms,
        app: AppConfig,
    ) -> DirectSimpleElection
        decreases events.len(),
    {
        if events.len() == 0 {
            self
        } else {
            self.after_all(events.drop_last(), terms, app).after(events.last(), terms, app)
        }
    }

    /// Whether something is to be submitted.
    pub open spec fn submits(self) -> bool {
        self is SendRecovery || self is SendRequest
    }

    fn decide(balance: u128, terms: &SimpleTerms) -> (r: DirectSimpleElection)
        ensures
            r == DirectSimpleElection::with_balance(balance, *terms),
    {
        let elections_stake: Option<&str> = match &terms.elections_stake {
            Some(text) => Some(text.as_str()),
            None => None,
        };
        match terms.stake.stake_nano(balance, terms.elector_gas, elections_stake) {
            Err(error) => DirectSimpleElection::Failed { error },
            Ok(stake) => DirectSimpleElection::CheckStake { stake },
        }
    }

    /// Begins to take part in an election, with the elector holding `credit` for the wallet.
    pub fn run_simple_election(
        credit: Option<u128>,
        balance: u128,
        terms: &SimpleTerms,
        app: &AppConfig,
    ) -> (r: DirectSimpleElection)
        ensures
            r == DirectSimpleElection::begun(credit, balance, *terms, *app),
    {
        if terms.registered {
            return DirectSimpleElection::Finished {
                wait_secs: boundary_wait_secs(terms.until_elections_end),
            };
        }
        let recoverable: bool = match credit {
            Some(c) => c > 0,
            None => false,
        };
        if recoverable && app.send {
            return DirectSimpleElection::SendRecovery { balance };
        }
        DirectSimpleElection::decide(balance, terms)
    }

    /// Goes on after an event.
    pub fn next(self, event: DirectEvent, terms: &SimpleTerms, app: &AppConfig) -> (r:
        DirectSimpleElection)
        ensures
            r == self.after(event, *terms, *app),
    {
        match (self, event) {
            (DirectSimpleElection::SendRecovery { balance }, DirectEvent::Sent) =>
                DirectSimpleElection::decide(balance, terms),
            (DirectSimpleElection::CheckStake { stake }, DirectEvent::StakeAccepted) => {
                if app.send {
                    DirectSimpleElection::SendRequest { stake }
                } else {
                    DirectSimpleElection::Finished { wait_secs: app.poll_interval() }
                }
            },
            (DirectSimpleElection::SendRequest { stake: _ }, DirectEvent::Sent) =>
                DirectSimpleElection::Confirm,
            (DirectSimpleElection::Confirm, DirectEvent::Confirmed { wait_secs }) =>
                DirectSimpleElection::Finished { wait_secs },
            (DirectSimpleElection::Confirm, DirectEvent::ConfirmFailed { error }) =>
                DirectSimpleElection::Failed { error },
            (state, _) => state,
        }
    }
}

/// In a dry run nothing is submitted during a simple election, whatever happens.
pub proof fn law_dry_run_stakes_without_submitting(
    events: Seq<DirectEvent>,
    credit: Option<u128>,
    balance: u128,
    terms: SimpleTerms,
    app: AppConfig,
)
    requires
        !app.send,
    ensures
        ({
            let state = DirectSimpleElection::begun(credit, balance, terms, app).after_all(
                events,
                terms,
                app,
            );
            &&& !state.submits()
            &&& state is CheckStake || state is Finished || state is Failed
        }),
    decreases events.len(),
{
    if events.len() > 0 {
        law_dry_run_stakes_without_submitting(events.drop_last(), credit, balance, terms, app);
    }
}

/// Who is in the election already submits nothing more for it.
pub proof fn law_registered_submits_nothing(
    events: Seq<DirectEvent>,
    credit: Option<u128>,
    balance: u128,
    terms: SimpleTerms,
    app: AppConfig,
)
    requires
        terms.registered,
    ensures
        DirectSimpleElection::begun(credit, balance, terms, app).after_all(events, terms, app) == (
        DirectSimpleElection::Finished { wait_secs: boundary_wait(terms.until_elections_end) }),
    decreases events.len(),
{
    if events.len() > 0 {
        law_registered_submits_nothing(events.drop_last(), credit, balance, terms, app);
    }
}

impl DirectSimpleElection {
    /// How far the procedure has come.
    pub open spec fn progress(self) -> int {
        match self {
            DirectSimpleElection::SendRecovery { balance } => 0,
            DirectSimpleElection::CheckStake { stake } => 1,
            DirectSimpleElection::SendRequest { stake } => 2,
            DirectSimpleElection::Confirm => 3,
            _ => 4,
        }
    }
}

/// Every answer brings the election forward, so that it ends after at most four.
pub proof fn law_direct_simple_election_moves_on(
    state: DirectSimpleElection,
    event: DirectEvent,
    terms: SimpleTerms,
    app: AppConfig,
)
    requires
        state.after(event, terms, app) != state,
    ensures
        state.progress() < state.after(event, terms, app).progress() <= 4,
{
}

/// All that is above the gas of two messages can be staked, and where nothing is above it there is
/// nothing to stake.
pub proof fn law_available_stake_is_all_above_the_gas(balance: u128, gas: u128)
    ensures
        balance > 2 * gas ==> available_stake(balance, gas) == Some((balance - 2 * gas) as u128),
        balance <= 2 * gas ==> available_stake(balance, gas) is None,
{
}

/// After the first look, a DePool that is not active is refused where it is not a new one, left
/// alone in a dry run, topped up to what its deployment and the gas cost where it holds less, and
/// else deployed as configured.
pub proof fn law_direct_deployment_begins(
    depool: DePoolState,
    held: u128,
    config: DepoolRuntimeConfig,
    wallet: StdAddr,
    app: AppConfig,
    costs: DepoolCosts,
)
    requires
        !depool.active,
        costs.deploy_minimum + costs.gas <= u128::MAX,
    ensures
        ({
            let next = DirectPrepare::RefreshDepool.after(
                DirectEvent::DepoolRefreshed,
                depool,
                held,
                config,
                wallet,
                app,
                costs,
            );
            let needed = costs.deploy_minimum + costs.gas;
            &&& config.new is None <==> next == (DirectPrepare::Failed {
                error: Error::DepoolNotActive,
            })
            &&& config.new is Some && !app.send <==> next is Finished
            &&& config.new is Some && app.send && depool.account_balance < needed ==> next == (
            DirectPrepare::SendTopup { topup: (needed - depool.account_balance) as u128 })
            &&& config.new is Some && app.send && depool.account_balance >= needed
                ==> match deployment(config) {
                Ok(amounts) => next == (DirectPrepare::Deploy {
                    min_stake: amounts.0,
                    validator_assurance: amounts.1,
                }),
                Err(error) => next == (DirectPrepare::Failed { error }),
            }
        }),
{
    if config.new is Some {
        crate::upkeep::law_deployment_is_as_configured(depool, config, config.new->Some_0, wallet);
    }
}

/// A DePool that was topped up is deployed as configured, whatever is then seen of it.
pub proof fn law_direct_deployment_goes_on(
    topup: u128,
    depool: DePoolState,
    held: u128,
    config: DepoolRuntimeConfig,
    wallet: StdAddr,
    app: AppConfig,
    costs: DepoolCosts,
)
    ensures
        ({
            let funded = (DirectPrepare::SendTopup { topup }).after(
                DirectEvent::Sent,
                depool,
                held,
                config,
                wallet,
                app,
                costs,
            );
            let next = funded.after(
                DirectEvent::DepoolRefreshed,
                depool,
                held,
                config,
                wallet,
                app,
                costs,
            );
            &&& funded is RefreshFunded
            &&& match deployment(config) {
                Ok(amounts) => next == (DirectPrepare::Deploy {
                    min_stake: amounts.0,
                    validator_assurance: amounts.1,
                }) && next.after(
                    DirectEvent::Sent,
                    depool,
                    held,
                    config,
                    wallet,
                    app,
                    costs,
                ) is RefreshDeployed,
                Err(error) => next == (DirectPrepare::Failed { error }),
            }
        }),
{
}

/// A DePool that is active or was just deployed is refused where it belongs to another wallet. In
/// one's own, the stake is added to exactly where the validator holds less than is required.
pub proof fn law_direct_stake_is_seen_to(
    state: DirectPrepare,
    depool: DePoolState,
    held: u128,
    config: DepoolRuntimeConfig,
    wallet: StdAddr,
    app: AppConfig,
    costs: DepoolCosts,
)
    requires
        state is RefreshDepool && depool.active || state is RefreshDeployed,
    ensures
        ({
            let next = state.after(
                DirectEvent::DepoolRefreshed,
                depool,
                held,
                config,
                wallet,
                app,
                costs,
            );
            if owned_by_other(depool, wallet) {
                next == (DirectPrepare::Failed { error: Error::ValidatorWalletMismatch })
            } else {
                match required_stake(depool, config) {
                    Err(error) => next == (DirectPrepare::Failed { error }),
                    Ok(required) => {
                        &&& held >= required <==> next is Finished
                        &&& held < required <==> next is RefreshWallet
                    },
                }
            }
        }),
{
}

/// In a live run all that the wallet holds above the gas of two messages is added, and then the
/// DePool is looked at once more. With nothing above it, and in a dry run, nothing is added.
pub proof fn law_direct_stake_is_added(
    balance: u128,
    depool: DePoolState,
    held: u128,
    config: DepoolRuntimeConfig,
    wallet: StdAddr,
    app: AppConfig,
    costs: DepoolCosts,
)
    ensures
        ({
            let next = DirectPrepare::RefreshWallet.after(
                DirectEvent::WalletRefreshed { balance },
                depool,
                held,
                config,
                wallet,
                app,
                costs,
            );
            if app.send && balance > 2 * costs.gas {
                let added = next.after(
                    DirectEvent::Sent,
                    depool,
                    held,
                    config,
                    wallet,
                    app,
                    costs,
                );
                &&& next == (DirectPrepare::AddStake { stake: (balance - 2 * costs.gas) as u128 })
                &&& added is RefreshStaked
                &&& added.after(
                    DirectEvent::DepoolRefreshed,
                    depool,
                    held,
                    config,
                    wallet,
                    app,
                    costs,
                ) is Finished
            } else {
                next is Finished
            }
        }),
{
}

/// A direct preparation waits for the answer to what is due, and keeps its end.
pub proof fn law_direct_preparation_waits(
    state: DirectPrepare,
    event: DirectEvent,
    depool: DePoolState,
    held: u128,
    config: DepoolRuntimeConfig,
    wallet: StdAddr,
    app: AppConfig,
    costs: DepoolCosts,
)
    ensures
        (state is RefreshDepool || state is RefreshFunded || state is RefreshDeployed
            || state is RefreshStaked) && !(event is DepoolRefreshed) || state is RefreshWallet && !(
        event is WalletRefreshed) || state.submits() && !(event is Sent) || state is Finished
            || state is Failed ==> state.after(event, depool, held, config, wallet, app, costs)
            == state,
        state.submits() <==> state is SendTopup || state is Deploy || state is AddStake,
{
}

/// Who is registered through the DePool waits for the end of the election; anybody else looks at
/// the DePool.
pub proof fn law_direct_election_begins(
    current: CurrentElection,
    depool: DePoolState,
    until_elections_end: u32,
)
    ensures
        registered_by(current, depool) <==> DirectDepoolElection::begun(
            current,
            depool,
            until_elections_end,
        ) == (DirectDepoolElection::Finished { wait_secs: boundary_wait(until_elections_end) }),
        !registered_by(current, depool) <==> DirectDepoolElection::begun(
            current,
            depool,
            until_elections_end,
        ) is RefreshDepool,
{
}

/// In a live run a tick-tock goes out after the first look, whatever is seen, and the round is
/// chosen after the second. A dry run chooses at once. Chosen is what is ready, and without that the
/// next look comes after the poll interval.
pub proof fn law_direct_round_is_chosen(
    state: DirectDepoolElection,
    depool: DePoolState,
    election_id: u32,
    app: AppConfig,
)
    ensures
        ({
            let next = state.after(DirectEvent::DepoolRefreshed, depool, election_id, app);
            &&& state is RefreshDepool && app.send ==> next is SendTicktock && next.after(
                DirectEvent::Sent,
                depool,
                election_id,
                app,
            ) is RefreshTicked
            &&& state is RefreshDepool && !app.send || state is RefreshTicked
                ==> match ready_selection(depool.rounds@, depool.proxies@, election_id) {
                Ok(Some(ready)) => next == (DirectDepoolElection::Prepare {
                    round_id: ready.0,
                    proxy: ready.1,
                }),
                Ok(None) => next == (DirectDepoolElection::Finished {
                    wait_secs: app.poll_interval_secs,
                }),
                Err(error) => next == (DirectDepoolElection::Failed { error }),
            }
        }),
{
}

/// A request that is prepared goes out, for the same round and proxy, in a live run, and waits for
/// its confirmation, which says how the election ends. A dry run stops before it.
pub proof fn law_direct_request_goes_out(
    round_id: u64,
    proxy: StdAddr,
    wait_secs: u64,
    error: Error,
    depool: DePoolState,
    election_id: u32,
    app: AppConfig,
)
    ensures
        ({
            let next = (DirectDepoolElection::Prepare { round_id, proxy }).after(
                DirectEvent::Prepared,
                depool,
                election_id,
                app,
            );
            let sent = (DirectDepoolElection::Participate { round_id, proxy }).after(
                DirectEvent::Sent,
                depool,
                election_id,
                app,
            );
            &&& app.send ==> next == (DirectDepoolElection::Participate { round_id, proxy })
            &&& !app.send ==> next == (DirectDepoolElection::Finished {
                wait_secs: app.poll_interval_secs,
            })
            &&& sent is Confirm
            &&& sent.after(DirectEvent::Confirmed { wait_secs }, depool, election_id, app) == (
            DirectDepoolElection::Finished { wait_secs })
            &&& sent.after(DirectEvent::ConfirmFailed { error }, depool, election_id, app) == (
            DirectDepoolElection::Failed { error })
        }),
{
}

/// A direct election through a DePool waits for the answer to what is due, and keeps its end.
pub proof fn law_direct_depool_election_waits(
    state: DirectDepoolElection,
    event: DirectEvent,
    depool: DePoolState,
    election_id: u32,
    app: AppConfig,
)
    ensures
        (state is RefreshDepool || state is RefreshTicked) && !(event is DepoolRefreshed)
            || state.submits() && !(event is Sent) || state is Prepare && !(event is Prepared)
            || state is Confirm && !(event is Confirmed) && !(event is ConfirmFailed)
            || state is Finished || state is Failed ==> state.after(
            event,
            depool,
            election_id,
            app,
        ) == state,
        state.submits() <==> state is SendTicktock || state is Participate,
{
}

/// Who is not in the election recovers an earlier stake first in a live run, and remembers what the
/// wallet held. In a dry run, and with nothing to recover, the stake is settled at once.
pub proof fn law_direct_credit_is_recovered_first(
    credit: Option<u128>,
    balance: u128,
    terms: SimpleTerms,
    app: AppConfig,
)
    requires
        !terms.registered,
    ensures
        ({
            let begun = DirectSimpleElection::begun(credit, balance, terms, app);
            let settled = DirectSimpleElection::begun(None, balance, terms, app);
            &&& !(settled is SendRecovery)
            &&& if app.send && credit != Some(0u128) && credit is Some {
                &&& begun == (DirectSimpleElection::SendRecovery { balance })
                &&& begun.after(DirectEvent::Sent, terms, app) == settled
            } else {
                begun == settled
            }
        }),
{
}

/// Who is not in the election and has nothing to recover stakes exactly the amount that the
/// elections file names, where the stake comes from there, and exactly the configured amount, where
/// it is fixed.
pub proof fn law_direct_named_stake_is_checked(
    balance: u128,
    terms: SimpleTerms,
    app: AppConfig,
    text: String,
    stake: u128,
)
    requires
        !terms.registered,
        nano_amount(text@) == Ok::<u128, AmountError>(stake),
        terms.stake is FromElectionsJson && terms.elections_stake == Some(text) || terms.stake
            == (StakeConfig::Fixed { amount: text }),
    ensures
        DirectSimpleElection::begun(None, balance, terms, app) == (
        DirectSimpleElection::CheckStake { stake }),
{
}

/// A floating stake is all that the wallet holds above the kept amount and the elector's gas; the
/// reserve of a transfer does not count here.
pub proof fn law_direct_floating_stake_is_checked(
    balance: u128,
    terms: SimpleTerms,
    app: AppConfig,
    text: String,
    keep: u128,
)
    requires
        !terms.registered,
        nano_amount(text@) == Ok::<u128, AmountError>(keep),
        terms.stake == (StakeConfig::Float { keep_wallet_balance: text }),
    ensures
        ({
            let next = DirectSimpleElection::begun(None, balance, terms, app);
            let kept = keep + terms.elector_gas;
            &&& kept <= balance ==> (next matches DirectSimpleElection::CheckStake { stake }
                && stake + kept == balance)
            &&& kept > balance && balance < u128::MAX ==> next == (DirectSimpleElection::Failed {
                error: Error::FloatingStakeTooLow,
            })
        }),
{
}

/// Without a stake, a direct election fails for what is wrong with it.
pub proof fn law_direct_election_needs_a_stake(balance: u128, terms: SimpleTerms, app: AppConfig)
    requires
        !terms.registered,
    ensures
        terms.stake is FromElectionsJson && terms.elections_stake is None
            ==> DirectSimpleElection::begun(None, balance, terms, app) == (
        DirectSimpleElection::Failed { error: Error::StakeUnavailable }),
        terms.stake is FromElectionsJson ==> (terms.elections_stake matches Some(text) ==> (
        nano_amount(text@) matches Err(reason) ==> DirectSimpleElection::begun(
            None,
            balance,
            terms,
            app,
        ) == (DirectSimpleElection::Failed {
            error: Error::Amount { setting: Setting::Stake, reason },
        }))),
        terms.stake matches StakeConfig::Fixed { amount } ==> (nano_amount(
            amount@,
        ) matches Err(reason) ==> DirectSimpleElection::begun(None, balance, terms, app) == (
        DirectSimpleElection::Failed { error: Error::Amount { setting: Setting::Stake, reason } })),
        terms.stake matches StakeConfig::Float { keep_wallet_balance } ==> (nano_amount(
            keep_wallet_balance@,
        ) matches Err(reason) ==> DirectSimpleElection::begun(None, balance, terms, app) == (
        DirectSimpleElection::Failed {
            error: Error::Amount { setting: Setting::KeepWalletBalance, reason },
        })),
{
}

/// An accepted stake is requested in a live run, and the confirmation says how the election ends. A
/// dry run stops before the request.
pub proof fn law_direct_stake_is_requested(
    stake: u128,
    wait_secs: u64,
    error: Error,
    terms: SimpleTerms,
    app: AppConfig,
)
    ensures
        ({
            let next = (DirectSimpleElection::CheckStake { stake }).after(
                DirectEvent::StakeAccepted,
                terms,
                app,
            );
            let sent = (DirectSimpleElection::SendRequest { stake }).after(
                DirectEvent::Sent,
                terms,
                app,
            );
            &&& app.send ==> next == (DirectSimpleElection::SendRequest { stake })
            &&& !app.send ==> next == (DirectSimpleElection::Finished {
                wait_secs: app.poll_interval_secs,
            })
            &&& sent is Confirm
            &&& sent.after(DirectEvent::Confirmed { wait_secs }, terms, app) == (
            DirectSimpleElection::Finished { wait_secs })
            &&& sent.after(DirectEvent::ConfirmFailed { error }, terms, app) == (
            DirectSimpleElection::Failed { error })
        }),
{
}

/// A direct simple election waits for the answer to what is due, and keeps its end.
pub proof fn law_direct_simple_election_waits(
    state: DirectSimpleElection,
    event: DirectEvent,
    terms: SimpleTerms,
    app: AppConfig,
)
    ensures
        state.submits() && !(event is Sent) || state is CheckStake && !(event is StakeAccepted)
            || state is Confirm && !(event is Confirmed) && !(event is ConfirmFailed)
            || state is Finished || state is Failed ==> state.after(event, terms, app) == state,
        state.submits() <==> state is SendRecovery || state is SendRequest,
{
}

} // verus!
