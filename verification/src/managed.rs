//! Elections of the managed cycle: wallets and DePools are checked before every message, and a
//! DePool is moved on until one of its rounds stands for the election.

use crate::amount::{nano_amount, AmountError};
use crate::config::{capped_sum, AppConfig, DepoolRuntimeConfig, StakeConfig};
use crate::confirm::CurrentElection;
use crate::depool::{
    depool_has_source, has_source, required_depool_stake, required_stake,
    select_target_depool_round, target_selection, DePoolState, ReadyDePoolRound,
    DEPOOL_COMPLETION_REASON_FAKE_ROUND, DEPOOL_ROUND_STEP_POOLING,
    DEPOOL_ROUND_STEP_WAITING_VALIDATOR_REQUEST,
};
use crate::error::{Error, Setting};
use crate::schedule::{boundary_wait, boundary_wait_secs};
use crate::wallet::{can_spend, simple_wallet_can_transfer, wallet_can_spend};
use vstd::prelude::*;

verus! {

/// How often a DePool is looked at for one election.
pub const DEPOOL_UPDATE_ATTEMPTS: usize = 4;

/// What goes with a tick-tock.
pub const DEPOOL_TICKTOCK_VALUE: u128 = 1_000_000_000;

/// Seconds that a DePool gets to work off a tick-tock.
pub const DEPOOL_TICKTOCK_INTERVAL_SECS: u64 = 60;

/// Moving a DePool on until a round stands for the election. `attempt` counts from one;
/// `ticktocked` says whether a tick-tock went out.
#[derive(Clone, Copy, Debug, PartialEq, Eq)]
pub enum RoundUpdate {
    /// Update the DePool.
    RefreshDepool { attempt: usize, ticktocked: bool },
    /// Keep up the validator's stake.
    EnsureRoundStake { attempt: usize, ticktocked: bool },
    /// Update the DePool again.
    RefreshAgain { attempt: usize, ticktocked: bool },
    /// Update the wallet, to see whether it can spend a tick-tock.
    RefreshWallet { attempt: usize },
    /// Send a tick-tock with this value.
    SendTicktock { attempt: usize, value: u128 },
    /// Sleep, while the DePool works off the tick-tock.
    Sleep { attempt: usize, secs: u64 },
    /// This round stands for the election.
    Ready { round: ReadyDePoolRound },
    /// Nothing can be done now.
    NotReady,
    /// The round that takes stakes does not get to this election.
    MissedCurrentElection,
    Failed { error: Error },
}

/// What comes back while a DePool is moved on.
#[derive(Clone, Copy, Debug, PartialEq, Eq, Structural)]
pub enum UpdateEvent {
    DepoolRefreshed,
    RoundStakeEnsured,
    WalletRefreshed { balance: u128 },
    Sent,
    Slept,
}

/// An event, and the DePool as it was last seen.
pub struct UpdateInput {
    pub event: UpdateEvent,
    pub depool: DePoolState,
}

impl RoundUpdate {
    pub open spec fn begun() -> RoundUpdate {
        RoundUpdate::RefreshDepool { attempt: 1, ticktocked: false }
    }

    /// What is due once a round was selected.
    pub open spec fn with_target(
        attempt: usize,
        ticktocked: bool,
        round: ReadyDePoolRound,
        election_id: u32,
    ) -> RoundUpdate {
        if round.supposed_elected_at == election_id {
            RoundUpdate::Ready { round }
        } else if ticktocked && round.completion_reason == DEPOOL_COMPLETION_REASON_FAKE_ROUND {
            RoundUpdate::NotReady
        } else if attempt < DEPOOL_UPDATE_ATTEMPTS {
            RoundUpdate::RefreshWallet { attempt }
        } else if round.step == DEPOOL_ROUND_STEP_POOLING {
            RoundUpdate::MissedCurrentElection
        } else {
            RoundUpdate::NotReady
        }
    }

    pub open spec fn after(
        self,
        event: UpdateEvent,
        depool: DePoolState,
        config: DepoolRuntimeConfig,
        app: AppConfig,
        gas: u128,
        election_id: u32,
    ) -> RoundUpdate {
        match (self, event) {
            (
                RoundUpdate::RefreshDepool { attempt, ticktocked },
                UpdateEvent::DepoolRefreshed,
            ) => RoundUpdate::EnsureRoundStake { attempt, ticktocked },
            (
                RoundUpdate::EnsureRoundStake { attempt, ticktocked },
                UpdateEvent::RoundStakeEnsured,
            ) => RoundUpdate::RefreshAgain { attempt, ticktocked },
            (RoundUpdate::RefreshAgain { attempt, ticktocked }, UpdateEvent::DepoolRefreshed) =>
                match required_stake(depool, config) {
                Err(error) => RoundUpdate::Failed { error },
                Ok(required) => match target_selection(
                    depool.rounds@,
                    depool.proxies@,
                    required,
                    election_id,
                ) {
                    Err(error) => RoundUpdate::Failed { error },
                    Ok(None) => RoundUpdate::NotReady,
                    Ok(Some(round)) => RoundUpdate::with_target(
                        attempt,
                        ticktocked,
                        round,
                        election_id,
                    ),
                },
            },
            (RoundUpdate::RefreshWallet { attempt }, UpdateEvent::WalletRefreshed { balance }) =>
                match can_spend(balance, app, gas, DEPOOL_TICKTOCK_VALUE) {
                Err(error) => RoundUpdate::Failed { error },
                Ok(true) => RoundUpdate::SendTicktock { attempt, value: DEPOOL_TICKTOCK_VALUE },
                Ok(false) => RoundUpdate::NotReady,
            },
            (RoundUpdate::SendTicktock { attempt, value }, UpdateEvent::Sent) => RoundUpdate::Sleep {
                attempt,
                secs: DEPOOL_TICKTOCK_INTERVAL_SECS,
            },
            (RoundUpdate::Sleep { attempt, secs }, UpdateEvent::Slept) => if attempt
                < DEPOOL_UPDATE_ATTEMPTS {
                RoundUpdate::RefreshDepool { attempt: (attempt + 1) as usize, ticktocked: true }
            } else {
                RoundUpdate::NotReady
            },
            _ => self,
        }
    }

    /// What is due after several events.
    pub open spec fn after_all(
        self,
        inputs: Seq<UpdateInput>,
        config: DepoolRuntimeConfig,
        app: AppConfig,
        gas: u128,
        election_id: u32,
    ) -> RoundUpdate
        decreases inputs.len(),
    {
        if inputs.len() == 0 {
            self
        } else {
            self.after_all(inputs.drop_last(), config, app, gas, election_id).after(
                inputs.last().event,
                inputs.last().depool,
                config,
                app,
                gas,
                election_id,
            )
        }
    }

    /// How many tick-tocks went out during several events.
    pub open spec fn ticktocks(
        self,
        inputs: Seq<UpdateInput>,
        config: DepoolRuntimeConfig,
        app: AppConfig,
        gas: u128,
        election_id: u32,
    ) -> nat
        decreases inputs.len(),
    {
        if inputs.len() == 0 {
            0
        } else {
            let init = inputs.drop_last();
            let sent = if self.after_all(init, config, app, gas, election_id) is SendTicktock
                && inputs.last().event is Sent {
                1nat
            } else {
                0nat
            };
            self.ticktocks(init, config, app, gas, election_id) + sent
        }
    }

    /// Begins to move a DePool on.
    pub fn update_depool_for_election() -> (r: RoundUpdate)
        ensures
            r == RoundUpdate::begun(),
    {
        RoundUpdate::RefreshDepool { attempt: 1, ticktocked: false }
    }

    /// Goes on after an event, with the DePool as it was last seen.
    pub fn next(
        self,
        event: UpdateEvent,
        depool: &DePoolState,
        config: &DepoolRuntimeConfig,
        app: &AppConfig,
        gas: u128,
        election_id: u32,
    ) -> (r: RoundUpdate)
        ensures
            r == self.after(event, *depool, *config, *app, gas, election_id),
    {
        match (self, event) {
            (
                RoundUpdate::RefreshDepool { attempt, ticktocked },
                UpdateEvent::DepoolRefreshed,
            ) => RoundUpdate::EnsureRoundStake { attempt, ticktocked },
            (
                RoundUpdate::EnsureRoundStake { attempt, ticktocked },
                UpdateEvent::RoundStakeEnsured,
            ) => RoundUpdate::RefreshAgain { attempt, ticktocked },
            (RoundUpdate::RefreshAgain { attempt, ticktocked }, UpdateEvent::DepoolRefreshed) => {
                let required: u64 = match required_depool_stake(depool, config) {
                    Ok(v) => v,
                    Err(error) => {
                        return RoundUpdate::Failed { error };
                    },
                };
                let round: ReadyDePoolRound = match select_target_depool_round(
                    depool,
                    required,
                    election_id,
                ) {
                    Err(error) => {
                        return RoundUpdate::Failed { error };
                    },
                    Ok(None) => {
                        return RoundUpdate::NotReady;
                    },
                    Ok(Some(round)) => round,
                };
                if round.supposed_elected_at == election_id {
                    RoundUpdate::Ready { round }
                } else if ticktocked && round.completion_reason
                    == DEPOOL_COMPLETION_REASON_FAKE_ROUND {
                    RoundUpdate::NotReady
                } else if attempt < DEPOOL_UPDATE_ATTEMPTS {
                    RoundUpdate::RefreshWallet { attempt }
                } else if round.step == DEPOOL_ROUND_STEP_POOLING {
                    RoundUpdate::MissedCurrentElection
                } else {
                    RoundUpdate::NotReady
                }
            },
            (RoundUpdate::RefreshWallet { attempt }, UpdateEvent::WalletRefreshed { balance }) => {
                match wallet_can_spend(balance, app, gas, DEPOOL_TICKTOCK_VALUE) {
                    Err(error) => RoundUpdate::Failed { error },
                    Ok(can) => {
                        if can {
                            RoundUpdate::SendTicktock { attempt, value: DEPOOL_TICKTOCK_VALUE }
                        } else {
                            RoundUpdate::NotReady
                        }
                    },
                }
            },
            (RoundUpdate::SendTicktock { attempt, value: _ }, UpdateEvent::Sent) => RoundUpdate::Sleep {
                attempt,
                secs: DEPOOL_TICKTOCK_INTERVAL_SECS,
            },
            (RoundUpdate::Sleep { attempt, secs: _ }, UpdateEvent::Slept) => {
                if attempt < DEPOOL_UPDATE_ATTEMPTS {
                    RoundUpdate::RefreshDepool { attempt: attempt + 1, ticktocked: true }
                } else {
                    RoundUpdate::NotReady
                }
            },
            (state, _) => state,
        }
    }

    /// The value of the message that is to be sent.
    pub open spec fn outgoing(self) -> Option<u128> {
        match self {
            RoundUpdate::SendTicktock { attempt, value } => Some(value),
            _ => None,
        }
    }

    /// Whether there is nothing more to do.
    pub open spec fn is_over(self) -> bool {
        self is Ready || self is NotReady || self is MissedCurrentElection || self is Failed
    }

    /// How far the work has come.
    pub open spec fn progress(self) -> int {
        match self {
            RoundUpdate::RefreshDepool { attempt, ticktocked } => 6 * attempt,
            RoundUpdate::EnsureRoundStake { attempt, ticktocked } => 6 * attempt + 1,
            RoundUpdate::RefreshAgain { attempt, ticktocked } => 6 * attempt + 2,
            RoundUpdate::RefreshWallet { attempt } => 6 * attempt + 3,
            RoundUpdate::SendTicktock { attempt, value } => 6 * attempt + 4,
            RoundUpdate::Sleep { attempt, secs } => 6 * attempt + 5,
            _ => 6 * DEPOOL_UPDATE_ATTEMPTS + 3,
        }
    }
}

/// What holds at every moment of an update, after `sent` tick-tocks: each attempt but the first
/// comes after one tick-tock, and none is sent in the last.
pub open spec fn update_invariant(state: RoundUpdate, sent: nat) -> bool {
    match state {
        RoundUpdate::RefreshDepool { attempt, ticktocked } => 1 <= attempt <= DEPOOL_UPDATE_ATTEMPTS
            && sent == attempt - 1 && ticktocked == (sent > 0),
        RoundUpdate::EnsureRoundStake { attempt, ticktocked } => 1 <= attempt
            <= DEPOOL_UPDATE_ATTEMPTS && sent == attempt - 1 && ticktocked == (sent > 0),
        RoundUpdate::RefreshAgain { attempt, ticktocked } => 1 <= attempt <= DEPOOL_UPDATE_ATTEMPTS
            && sent == attempt - 1 && ticktocked == (sent > 0),
        RoundUpdate::RefreshWallet { attempt } => 1 <= attempt < DEPOOL_UPDATE_ATTEMPTS && sent
            == attempt - 1,
        RoundUpdate::SendTicktock { attempt, value } => 1 <= attempt < DEPOOL_UPDATE_ATTEMPTS
            && sent == attempt - 1 && value == DEPOOL_TICKTOCK_VALUE,
        RoundUpdate::Sleep { attempt, secs } => 1 <= attempt < DEPOOL_UPDATE_ATTEMPTS && sent
            == attempt && secs == DEPOOL_TICKTOCK_INTERVAL_SECS,
        RoundUpdate::MissedCurrentElection => sent == DEPOOL_UPDATE_ATTEMPTS - 1,
        _ => sent < DEPOOL_UPDATE_ATTEMPTS,
    }
}

/// Whatever happens during an update, the invariant holds. So at most three tick-tocks go out, and
/// an election counts as missed only after all three.
pub proof fn law_update_invariant(
    inputs: Seq<UpdateInput>,
    config: DepoolRuntimeConfig,
    app: AppConfig,
    gas: u128,
    election_id: u32,
)
    ensures
        update_invariant(
            RoundUpdate::begun().after_all(inputs, config, app, gas, election_id),
            RoundUpdate::begun().ticktocks(inputs, config, app, gas, election_id),
        ),
        RoundUpdate::begun().ticktocks(inputs, config, app, gas, election_id)
            < DEPOOL_UPDATE_ATTEMPTS,
    decreases inputs.len(),
{
    if inputs.len() > 0 {
        law_update_invariant(inputs.drop_last(), config, app, gas, election_id);
    }
}

/// Every answer brings an update forward, so that it ends.
pub proof fn law_update_moves_on(
    state: RoundUpdate,
    event: UpdateEvent,
    depool: DePoolState,
    config: DepoolRuntimeConfig,
    app: AppConfig,
    gas: u128,
    election_id: u32,
    sent: nat,
)
    requires
        update_invariant(state, sent),
        !state.is_over(),
        state.after(event, depool, config, app, gas, election_id) != state,
    ensures
        state.progress() < state.after(
            event,
            depool,
            config,
            app,
            gas,
            election_id,
        ).progress() <= 6 * DEPOOL_UPDATE_ATTEMPTS + 3,
{
}

/// A round that is ready stands for the election and holds the required stake.
pub proof fn law_ready_round_stands_for_election(
    state: RoundUpdate,
    event: UpdateEvent,
    depool: DePoolState,
    config: DepoolRuntimeConfig,
    app: AppConfig,
    gas: u128,
    election_id: u32,
)
    requires
        !(state is Ready),
        state.after(event, depool, config, app, gas, election_id) is Ready,
    ensures
        ({
            let round = state.after(event, depool, config, app, gas, election_id)->round;
            &&& round.supposed_elected_at == election_id
            &&& round.stake >= required_stake(depool, config)->Ok_0
            &&& has_source(depool.proxies@, round.proxy.address@)
        }),
{
    let required = required_stake(depool, config)->Ok_0;
    crate::depool::law_selected_round_is_funded(
        depool.rounds@,
        depool.proxies@,
        required,
        election_id,
    );
    crate::depool::law_selected_proxy_is_a_source(
        depool.rounds@,
        depool.proxies@,
        required,
        election_id,
    );
}

/// Whatever happens during an update, nothing goes out but tick-tocks with their one value.
pub proof fn law_update_sends_the_ticktock_value(
    inputs: Seq<UpdateInput>,
    config: DepoolRuntimeConfig,
    app: AppConfig,
    gas: u128,
    election_id: u32,
)
    ensures
        RoundUpdate::begun().after_all(
            inputs,
            config,
            app,
            gas,
            election_id,
        ).outgoing() matches Some(value) ==> value == DEPOOL_TICKTOCK_VALUE,
{
    law_update_invariant(inputs, config, app, gas, election_id);
}

/// A tick-tock is sent only from a wallet that can spend its value.
pub proof fn law_ticktock_is_affordable(
    state: RoundUpdate,
    event: UpdateEvent,
    depool: DePoolState,
    config: DepoolRuntimeConfig,
    app: AppConfig,
    gas: u128,
    election_id: u32,
)
    requires
        state.outgoing() is None,
        state.after(event, depool, config, app, gas, election_id).outgoing() is Some,
    ensures
        state.after(event, depool, config, app, gas, election_id).outgoing() == Some(
            DEPOOL_TICKTOCK_VALUE,
        ),
        event matches UpdateEvent::WalletRefreshed { balance } && can_spend(
            balance,
            app,
            gas,
            DEPOOL_TICKTOCK_VALUE,
        ) == Ok::<bool, Error>(true),
{
}

/// Taking part in an election through a DePool.
#[derive(Clone, Copy, Debug, PartialEq, Eq)]
pub enum DepoolElection {
    /// Move the DePool on until a round stands for the election.
    UpdateRounds,
    /// Hold the stake of the round against the network's rules.
    CheckStake { round: ReadyDePoolRound },
    /// Send the request for this round with this value.
    Participate { round: ReadyDePoolRound, value: u128 },
    /// Wait for the confirmation.
    Confirm,
    /// Done: wait so many seconds.
    Finished { wait_secs: u64 },
    Failed { error: Error },
}

/// What comes back while taking part through a DePool.
#[derive(Clone, Copy, Debug, PartialEq, Eq)]
pub enum DepoolEvent {
    /// The update of the rounds is over.
    Updated { update: RoundUpdate },
    StakeAccepted,
    Sent,
    Confirmed { wait_secs: u64 },
    ConfirmFailed { error: Error },
}

/// Whether our validator key is in the election through this DePool.
pub open spec fn registered_by(current: CurrentElection, depool: DePoolState) -> bool {
    current.member matches Some(member) && has_source(depool.proxies@, member.src_addr@)
}

/// The missed election that is still remembered: none but the current one.
pub open spec fn remembered(missed: Option<u32>, elect_at: u32) -> Option<u32> {
    if missed == Some(elect_at) {
        missed
    } else {
        None
    }
}

impl DepoolElection {
    pub open spec fn begun(
        current: CurrentElection,
        depool: DePoolState,
        missed: Option<u32>,
        app: AppConfig,
        until_elections_end: u32,
    ) -> DepoolElection {
        if registered_by(current, depool) {
            DepoolElection::Finished { wait_secs: boundary_wait(until_elections_end) }
        } else if missed == Some(current.elect_at) {
            DepoolElection::Finished { wait_secs: app.poll_interval_secs }
        } else {
            DepoolElection::UpdateRounds
        }
    }

    pub open spec fn after(self, event: DepoolEvent, app: AppConfig) -> DepoolElection {
        match (self, event) {
            (DepoolElection::UpdateRounds, DepoolEvent::Updated { update }) => match update {
                RoundUpdate::Ready { round } => if round.step
                    == DEPOOL_ROUND_STEP_WAITING_VALIDATOR_REQUEST {
                    DepoolElection::CheckStake { round }
                } else {
                    DepoolElection::Finished { wait_secs: app.poll_interval_secs }
                },
                RoundUpdate::NotReady => DepoolElection::Finished {
                    wait_secs: app.poll_interval_secs,
                },
                RoundUpdate::MissedCurrentElection => DepoolElection::Finished {
                    wait_secs: app.poll_interval_secs,
                },
                RoundUpdate::Failed { error } => DepoolElection::Failed { error },
                _ => self,
            },
            (DepoolElection::CheckStake { round }, DepoolEvent::StakeAccepted) =>
                match app.participate_value() {
                Err(error) => DepoolElection::Failed { error },
                Ok(value) => DepoolElection::Participate { round, value },
            },
            (DepoolElection::Participate { round, value }, DepoolEvent::Sent) =>
                DepoolElection::Confirm,
            (DepoolElection::Confirm, DepoolEvent::Confirmed { wait_secs }) =>
                DepoolElection::Finished { wait_secs },
            (DepoolElection::Confirm, DepoolEvent::ConfirmFailed { error }) =>
                DepoolElection::Failed { error },
            _ => self,
        }
    }

    /// The missed election after an event: the current one, if an update just missed it.
    pub open spec fn missed_after(
        self,
        event: DepoolEvent,
        missed: Option<u32>,
        elect_at: u32,
    ) -> Option<u32> {
        if self is UpdateRounds && event == (DepoolEvent::Updated {
            update: RoundUpdate::MissedCurrentElection,
        }) {
            Some(elect_at)
        } else {
            missed
        }
    }

    /// Begins to take part in an election. A missed election that is over is forgotten.
    pub fn run_depool_election(
        current: &CurrentElection,
        depool: &DePoolState,
        missed_election_id: &mut Option<u32>,
        app: &AppConfig,
        until_elections_end: u32,
    ) -> (r: DepoolElection)
        ensures
            r == DepoolElection::begun(
                *current,
                *depool,
                *old(missed_election_id),
                *app,
                until_elections_end,
            ),
            *final(missed_election_id) == remembered(*old(missed_election_id), current.elect_at),
    {
        let is_missed: bool = match *missed_election_id {
            Some(id) => id == current.elect_at,
            None => false,
        };
        if !is_missed {
            *missed_election_id = None;
        }
        let registered: bool = match &current.member {
            Some(member) => depool_has_source(depool.proxies.as_slice(), &member.src_addr),
            None => false,
        };
        if registered {
            return DepoolElection::Finished { wait_secs: boundary_wait_secs(until_elections_end) };
        }
        if is_missed {
            return DepoolElection::Finished { wait_secs: app.poll_interval() };
        }
        DepoolElection::UpdateRounds
    }

    /// Goes on after an event. An update that missed the election marks it as missed.
    pub fn next(
        self,
        event: DepoolEvent,
        missed_election_id: &mut Option<u32>,
        elect_at: u32,
        app: &AppConfig,
    ) -> (r: DepoolElection)
        ensures
            r == self.after(event, *app),
            *final(missed_election_id) == self.missed_after(
                event,
                *old(missed_election_id),
                elect_at,
            ),
    {
        match (self, event) {
            (DepoolElection::UpdateRounds, DepoolEvent::Updated { update }) => {
                match update {
                    RoundUpdate::Ready { round } => {
                        if round.step == DEPOOL_ROUND_STEP_WAITING_VALIDATOR_REQUEST {
                            DepoolElection::CheckStake { round }
                        } else {
                            DepoolElection::Finished { wait_secs: app.poll_interval() }
                        }
                    },
                    RoundUpdate::NotReady => DepoolElection::Finished {
                        wait_secs: app.poll_interval(),
                    },
                    RoundUpdate::MissedCurrentElection => {
                        *missed_election_id = Some(elect_at);
                        DepoolElection::Finished { wait_secs: app.poll_interval() }
                    },
                    RoundUpdate::Failed { error } => DepoolElection::Failed { error },
                    _ => self,
                }
            },
            (DepoolElection::CheckStake { round }, DepoolEvent::StakeAccepted) => {
                match app.depool_participate_value_nano() {
                    Err(error) => DepoolElection::Failed { error },
                    Ok(value) => DepoolElection::Participate { round, value },
                }
            },
            (DepoolElection::Participate { round: _, value: _ }, DepoolEvent::Sent) =>
                DepoolElection::Confirm,
            (DepoolElection::Confirm, DepoolEvent::Confirmed { wait_secs }) =>
                DepoolElection::Finished { wait_secs },
            (DepoolElection::Confirm, DepoolEvent::ConfirmFailed { error }) =>
                DepoolElection::Failed { error },
            (state, _) => state,
        }
    }
}

/// An election that was missed is left alone until the next one: nothing is moved on and nothing
/// is sent for it.
pub proof fn law_missed_election_is_left_alone(
    state: DepoolElection,
    event: DepoolEvent,
    current: CurrentElection,
    depool: DePoolState,
    missed: Option<u32>,
    app: AppConfig,
    until_elections_end: u32,
)
    requires
        state is UpdateRounds,
        event == (DepoolEvent::Updated { update: RoundUpdate::MissedCurrentElection }),
    ensures
        ({
            let marked = state.missed_after(event, missed, current.elect_at);
            &&& state.after(event, app) is Finished
            &&& DepoolElection::begun(
                current,
                depool,
                marked,
                app,
                until_elections_end,
            ) is Finished
            &&& remembered(marked, current.elect_at) == marked
        }),
{
}

/// The next election is a new chance: what was missed before is forgotten.
pub proof fn law_next_election_is_a_new_chance(
    missed: Option<u32>,
    current: CurrentElection,
    depool: DePoolState,
    app: AppConfig,
    until_elections_end: u32,
)
    requires
        missed != Some(current.elect_at),
        !registered_by(current, depool),
    ensures
        DepoolElection::begun(current, depool, missed, app, until_elections_end) is UpdateRounds,
        remembered(missed, current.elect_at) is None,
{
}

/// A request goes out only for a round that waits for it, and with the configured value.
pub proof fn law_request_only_for_waiting_round(
    before: DepoolElection,
    first: DepoolEvent,
    second: DepoolEvent,
    app: AppConfig,
)
    requires
        before is UpdateRounds,
        before.after(first, app).after(second, app) is Participate,
    ensures
        ({
            let state = before.after(first, app).after(second, app);
            &&& first == (DepoolEvent::Updated {
                update: RoundUpdate::Ready { round: state->Participate_round },
            })
            &&& state->Participate_round.step == DEPOOL_ROUND_STEP_WAITING_VALIDATOR_REQUEST
            &&& app.participate_value() == Ok::<u128, Error>(state->value)
        }),
{
}

/// Who is registered through the DePool sends nothing and waits for the end of the election.
pub proof fn law_registered_depool_waits(
    current: CurrentElection,
    depool: DePoolState,
    missed: Option<u32>,
    app: AppConfig,
    until_elections_end: u32,
)
    requires
        registered_by(current, depool),
    ensures
        DepoolElection::begun(current, depool, missed, app, until_elections_end) == (
        DepoolElection::Finished { wait_secs: boundary_wait(until_elections_end) }),
{
}

impl DepoolElection {
    /// How far the procedure has come.
    pub open spec fn progress(self) -> int {
        match self {
            DepoolElection::UpdateRounds => 0,
            DepoolElection::CheckStake { round } => 1,
            DepoolElection::Participate { round, value } => 2,
            DepoolElection::Confirm => 3,
            _ => 4,
        }
    }
}

/// Every answer brings the election forward, so that it ends after at most four.
pub proof fn law_depool_election_moves_on(
    state: DepoolElection,
    event: DepoolEvent,
    app: AppConfig,
)
    requires
        state.after(event, app) != state,
    ensures
        state.progress() < state.after(event, app).progress() <= 4,
{
}

/// What a simple election goes by.
#[derive(Debug)]
pub struct SimpleTerms {
    pub stake: StakeConfig,
    /// The stake of the elections file, if there is one.
    pub elections_stake: Option<String>,
    /// What the elector takes to process a request.
    pub elector_gas: u128,
    /// What has to stay on the wallet after a transfer.
    pub transfer_reserve: u128,
    /// Whether our validator key is in the election.
    pub registered: bool,
    pub until_elections_end: u32,
}

/// The characters of the stake of the elections file.
pub open spec fn elections_stake_text(terms: SimpleTerms) -> Option<Seq<char>> {
    match terms.elections_stake {
        Some(text) => Some(text@),
        None => None,
    }
}

/// Taking part in an election with one's own stake.
#[derive(Clone, Copy, Debug, PartialEq, Eq, Structural)]
pub enum SimpleElection {
    /// Build the message that recovers an earlier stake.
    BuildRecovery,
    /// Update the wallet, to see whether it can send the message.
    RefreshForRecovery { value: u128 },
    /// Send the message that recovers an earlier stake.
    SendRecovery { value: u128 },
    /// Update the wallet after the recovery.
    RefreshRecovered,
    /// Hold the stake against the network's rules, and build the request.
    BuildRequest { stake: u128 },
    /// Update the wallet, to see whether it can send the request.
    RefreshForRequest { value: u128 },
    /// Send the request.
    SendRequest { value: u128 },
    /// Wait for the confirmation.
    Confirm,
    /// Done: wait so many seconds.
    Finished { wait_secs: u64 },
    Failed { error: Error },
}

/// What comes back during a simple election.
#[derive(Clone, Copy, Debug, PartialEq, Eq, Structural)]
pub enum SimpleEvent {
    /// The message is built, and this is what goes with it.
    MessageBuilt { value: u128 },
    WalletRefreshed { balance: u128 },
    Sent,
    Confirmed { wait_secs: u64 },
    ConfirmFailed { error: Error },
}

impl SimpleElection {
    /// What is due once nothing is left to recover.
    pub open spec fn with_balance(balance: u128, terms: SimpleTerms) -> SimpleElection {
        if terms.registered {
            SimpleElection::Finished { wait_secs: boundary_wait(terms.until_elections_end) }
        } else {
            match terms.stake.stake(
                balance,
                capped_sum(terms.elector_gas, terms.transfer_reserve),
                elections_stake_text(terms),
            ) {
                Err(error) => SimpleElection::Failed { error },
                Ok(stake) => SimpleElection::BuildRequest { stake },
            }
        }
    }

    pub open spec fn begun(
        credit: Option<u128>,
        balance: u128,
        terms: SimpleTerms,
    ) -> SimpleElection {
        if credit matches Some(c) && c > 0 {
            SimpleElection::BuildRecovery
        } else {
            SimpleElection::with_balance(balance, terms)
        }
    }

    pub open spec fn after(
        self,
        event: SimpleEvent,
        terms: SimpleTerms,
        app: AppConfig,
    ) -> SimpleElection {
        match (self, event) {
            (SimpleElection::BuildRecovery, SimpleEvent::MessageBuilt { value }) =>
                SimpleElection::RefreshForRecovery { value },
            (
                SimpleElection::RefreshForRecovery { value },
                SimpleEvent::WalletRefreshed { balance },
            ) => if balance >= capped_sum(value, terms.transfer_reserve) {
                SimpleElection::SendRecovery { value }
            } else {
                SimpleElection::Finished { wait_secs: app.poll_interval_secs }
            },
            (SimpleElection::SendRecovery { value }, SimpleEvent::Sent) =>
                SimpleElection::RefreshRecovered,
            (SimpleElection::RefreshRecovered, SimpleEvent::WalletRefreshed { balance }) =>
                SimpleElection::with_balance(balance, terms),
            (SimpleElection::BuildRequest { stake }, SimpleEvent::MessageBuilt { value }) =>
                SimpleElection::RefreshForRequest { value },
            (
                SimpleElection::RefreshForRequest { value },
                SimpleEvent::WalletRefreshed { balance },
            ) => if balance >= capped_sum(value, terms.transfer_reserve) {
                SimpleElection::SendRequest { value }
            } else {
                SimpleElection::Finished { wait_secs: app.poll_interval_secs }
            },
            (SimpleElection::SendRequest { value }, SimpleEvent::Sent) => SimpleElection::Confirm,
            (SimpleElection::Confirm, SimpleEvent::Confirmed { wait_secs }) =>
                SimpleElection::Finished { wait_secs },
            (SimpleElection::Confirm, SimpleEvent::ConfirmFailed { error }) =>
                SimpleElection::Failed { error },
            _ => self,
        }
    }

    fn decide(balance: u128, terms: &SimpleTerms) -> (r: SimpleElection)
        ensures
            r == SimpleElection::with_balance(balance, *terms),
    {
        if terms.registered {
            return SimpleElection::Finished {
                wait_secs: boundary_wait_secs(terms.until_elections_end),
            };
        }
        let overhead: u128 = terms.elector_gas.saturating_add(terms.transfer_reserve);
        let elections_stake: Option<&str> = match &terms.elections_stake {
            Some(text) => Some(text.as_str()),
            None => None,
        };
        match terms.stake.stake_nano(balance, overhead, elections_stake) {
            Err(error) => SimpleElection::Failed { error },
            Ok(stake) => SimpleElection::BuildRequest { stake },
        }
    }

    /// Begins to take part in an election, with the elector holding `credit` for the wallet.
    /// An earlier stake is recovered before anything else.
    pub fn run_simple_election(credit: Option<u128>, balance: u128, terms: &SimpleTerms) -> (r:
        SimpleElection)
        ensures
            r == SimpleElection::begun(credit, balance, *terms),
    {
        match credit {
            Some(c) => {
                if c > 0 {
                    return SimpleElection::BuildRecovery;
                }
            },
            None => {},
        }
        SimpleElection::decide(balance, terms)
    }

    /// Goes on after an event.
    pub fn next(self, event: SimpleEvent, terms: &SimpleTerms, app: &AppConfig) -> (r:
        SimpleElection)
        ensures
            r == self.after(event, *terms, *app),
    {
        match (self, event) {
            (SimpleElection::BuildRecovery, SimpleEvent::MessageBuilt { value }) =>
                SimpleElection::RefreshForRecovery { value },
            (
                SimpleElection::RefreshForRecovery { value },
                SimpleEvent::WalletRefreshed { balance },
            ) => {
                if simple_wallet_can_transfer(balance, value, terms.transfer_reserve) {
                    SimpleElection::SendRecovery { value }
                } else {
                    SimpleElection::Finished { wait_secs: app.poll_interval() }
                }
            },
            (SimpleElection::SendRecovery { value: _ }, SimpleEvent::Sent) =>
                SimpleElection::RefreshRecovered,
            (SimpleElection::RefreshRecovered, SimpleEvent::WalletRefreshed { balance }) =>
                SimpleElection::decide(balance, terms),
            (SimpleElection::BuildRequest { stake: _ }, SimpleEvent::MessageBuilt { value }) =>
                SimpleElection::RefreshForRequest { value },
            (
                SimpleElection::RefreshForRequest { value },
                SimpleEvent::WalletRefreshed { balance },
            ) => {
                if simple_wallet_can_transfer(balance, value, terms.transfer_reserve) {
                    SimpleElection::SendRequest { value }
                } else {
                    SimpleElection::Finished { wait_secs: app.poll_interval() }
                }
            },
            (SimpleElection::SendRequest { value: _ }, SimpleEvent::Sent) =>
                SimpleElection::Confirm,
            (SimpleElection::Confirm, SimpleEvent::Confirmed { wait_secs }) =>
                SimpleElection::Finished { wait_secs },
            (SimpleElection::Confirm, SimpleEvent::ConfirmFailed { error }) =>
                SimpleElection::Failed { error },
            (state, _) => state,
        }
    }

    /// The value of the message that is to be sent.
    pub open spec fn outgoing(self) -> Option<u128> {
        match self {
            SimpleElection::SendRecovery { value } => Some(value),
            SimpleElection::SendRequest { value } => Some(value),
            _ => None,
        }
    }

    /// Whether the request is being made.
    pub open spec fn is_requesting(self) -> bool {
        self is BuildRequest || self is RefreshForRequest || self is SendRequest || self is Confirm
    }
}

/// A simple validator sends a message only from a wallet that keeps the reserve, as long as value
/// and reserve together are an amount at all.
pub proof fn law_transfer_keeps_reserve(
    state: SimpleElection,
    event: SimpleEvent,
    terms: SimpleTerms,
    app: AppConfig,
)
    requires
        state.outgoing() is None,
        state.after(event, terms, app).outgoing() matches Some(value) && value
            + terms.transfer_reserve <= u128::MAX,
    ensures
        event matches SimpleEvent::WalletRefreshed { balance } && balance - state.after(
            event,
            terms,
            app,
        ).outgoing()->Some_0 >= terms.transfer_reserve,
{
}

/// Who is in the election already makes no second request, though an earlier stake may still be
/// recovered.
pub proof fn law_registered_makes_no_request(
    state: SimpleElection,
    event: SimpleEvent,
    credit: Option<u128>,
    balance: u128,
    terms: SimpleTerms,
    app: AppConfig,
)
    requires
        terms.registered,
    ensures
        !SimpleElection::begun(credit, balance, terms).is_requesting(),
        !state.is_requesting() ==> !state.after(event, terms, app).is_requesting(),
{
}

impl SimpleElection {
    /// How far the procedure has come.
    pub open spec fn progress(self) -> int {
        match self {
            SimpleElection::BuildRecovery => 0,
            SimpleElection::RefreshForRecovery { value } => 1,
            SimpleElection::SendRecovery { value } => 2,
            SimpleElection::RefreshRecovered => 3,
            SimpleElection::BuildRequest { stake } => 4,
            SimpleElection::RefreshForRequest { value } => 5,
            SimpleElection::SendRequest { value } => 6,
            SimpleElection::Confirm => 7,
            _ => 8,
        }
    }
}

/// Every answer brings the election forward, so that it ends after at most eight.
pub proof fn law_simple_election_moves_on(
    state: SimpleElection,
    event: SimpleEvent,
    terms: SimpleTerms,
    app: AppConfig,
)
    requires
        state.after(event, terms, app) != state,
    ensures
        state.progress() < state.after(event, terms, app).progress() <= 8,
{
}

/// An update begins with the first attempt and no tick-tock. In every attempt the DePool is looked
/// at, the stake is seen to, and the DePool is looked at again, whatever is seen of it.
pub proof fn law_attempt_sees_to_the_stake(
    attempt: usize,
    ticktocked: bool,
    first: DePoolState,
    second: DePoolState,
    config: DepoolRuntimeConfig,
    app: AppConfig,
    gas: u128,
    election_id: u32,
)
    ensures
        RoundUpdate::begun() == (RoundUpdate::RefreshDepool { attempt: 1, ticktocked: false }),
        ({
            let looked = (RoundUpdate::RefreshDepool { attempt, ticktocked }).after(
                UpdateEvent::DepoolRefreshed,
                first,
                config,
                app,
                gas,
                election_id,
            );
            &&& looked == (RoundUpdate::EnsureRoundStake { attempt, ticktocked })
            &&& looked.after(
                UpdateEvent::RoundStakeEnsured,
                second,
                config,
                app,
                gas,
                election_id,
            ) == (RoundUpdate::RefreshAgain { attempt, ticktocked })
        }),
{
}

/// Whenever the selected round stands for the election, the update ends with that round ready: in
/// every attempt, whether or not a tick-tock went out before, and whatever step the round is in.
pub proof fn law_round_of_the_election_is_ready(
    attempt: usize,
    ticktocked: bool,
    depool: DePoolState,
    config: DepoolRuntimeConfig,
    app: AppConfig,
    gas: u128,
    election_id: u32,
    required: u64,
    round: ReadyDePoolRound,
)
    requires
        required_stake(depool, config) == Ok::<u64, Error>(required),
        target_selection(depool.rounds@, depool.proxies@, required, election_id) == Ok::<
            Option<ReadyDePoolRound>,
            Error,
        >(Some(round)),
        round.supposed_elected_at == election_id,
    ensures
        (RoundUpdate::RefreshAgain { attempt, ticktocked }).after(
            UpdateEvent::DepoolRefreshed,
            depool,
            config,
            app,
            gas,
            election_id,
        ) == (RoundUpdate::Ready { round }),
{
}

/// A DePool with a round for the election that holds enough is ready in whichever attempt this is
/// seen, and the round that is ready is the first such round.
pub proof fn law_funded_round_makes_ready(
    attempt: usize,
    ticktocked: bool,
    depool: DePoolState,
    config: DepoolRuntimeConfig,
    app: AppConfig,
    gas: u128,
    election_id: u32,
    required: u64,
    i: int,
)
    requires
        required_stake(depool, config) == Ok::<u64, Error>(required),
        depool.proxies@.len() > 0,
        0 <= i < depool.rounds@.len(),
        depool.rounds@[i].supposed_elected_at == election_id,
        depool.rounds@[i].stake >= required,
        forall|j: int|
            0 <= j < i ==> (#[trigger] depool.rounds@[j]).supposed_elected_at != election_id
                || depool.rounds@[j].stake < required,
    ensures
        (RoundUpdate::RefreshAgain { attempt, ticktocked }).after(
            UpdateEvent::DepoolRefreshed,
            depool,
            config,
            app,
            gas,
            election_id,
        ) matches RoundUpdate::Ready { round } && {
            &&& round.id == depool.rounds@[i].id
            &&& round.step == depool.rounds@[i].step
            &&& round.stake == depool.rounds@[i].stake
            &&& round.supposed_elected_at == election_id
        },
{
    crate::depool::law_round_of_the_election_goes_first(
        depool.rounds@,
        depool.proxies@,
        required,
        election_id,
        i,
    );
}

/// A round that does not stand for the election is moved on as long as attempts are left, unless it
/// turned out to be a fake one after a tick-tock. In the last attempt the election is missed where
/// the round still takes stakes, and nothing can be done where it does not.
pub proof fn law_other_round_is_moved_on(
    attempt: usize,
    ticktocked: bool,
    depool: DePoolState,
    config: DepoolRuntimeConfig,
    app: AppConfig,
    gas: u128,
    election_id: u32,
    required: u64,
    round: ReadyDePoolRound,
)
    requires
        required_stake(depool, config) == Ok::<u64, Error>(required),
        target_selection(depool.rounds@, depool.proxies@, required, election_id) == Ok::<
            Option<ReadyDePoolRound>,
            Error,
        >(Some(round)),
        round.supposed_elected_at != election_id,
    ensures
        ({
            let next = (RoundUpdate::RefreshAgain { attempt, ticktocked }).after(
                UpdateEvent::DepoolRefreshed,
                depool,
                config,
                app,
                gas,
                election_id,
            );
            let fake = ticktocked && round.completion_reason == 2;
            &&& fake ==> next is NotReady
            &&& !fake && attempt < 4 <==> next == (RoundUpdate::RefreshWallet { attempt })
            &&& !fake && attempt >= 4 && round.step == 1 <==> next is MissedCurrentElection
            &&& !fake && attempt >= 4 && round.step != 1 ==> next is NotReady
        }),
{
}

/// An update ends where no round can be selected: with nothing to do where none holds enough, and
/// with an error where the DePool has no proxies or the required stake cannot be read.
pub proof fn law_update_needs_a_round(
    attempt: usize,
    ticktocked: bool,
    depool: DePoolState,
    config: DepoolRuntimeConfig,
    app: AppConfig,
    gas: u128,
    election_id: u32,
)
    ensures
        ({
            let next = (RoundUpdate::RefreshAgain { attempt, ticktocked }).after(
                UpdateEvent::DepoolRefreshed,
                depool,
                config,
                app,
                gas,
                election_id,
            );
            match required_stake(depool, config) {
                Err(error) => next == (RoundUpdate::Failed { error }),
                Ok(required) => {
                    &&& depool.proxies@.len() == 0 ==> next == (RoundUpdate::Failed {
                        error: Error::NoProxies,
                    })
                    &&& depool.proxies@.len() > 0 && (forall|i: int|
                        0 <= i < depool.rounds@.len() ==> (#[trigger] depool.rounds@[i]).stake
                            < required) ==> next is NotReady
                },
            }
        }),
{
    if let Ok(required) = required_stake(depool, config) {
        if depool.proxies@.len() > 0 {
            crate::depool::law_selection_misses_nothing(
                depool.rounds@,
                depool.proxies@,
                required,
                election_id,
            );
        }
    }
}

/// A tick-tock of one token goes out whenever the reserves stay on the wallet. A minute after it
/// the next attempt begins, as long as there is one.
pub proof fn law_ticktock_is_followed_by_an_attempt(
    attempt: usize,
    balance: u128,
    secs: u64,
    value: u128,
    depool: DePoolState,
    config: DepoolRuntimeConfig,
    app: AppConfig,
    gas: u128,
    election_id: u32,
    reserve: u128,
    request: u128,
)
    requires
        app.wallet_reserve() == Ok::<u128, Error>(reserve),
        app.participate_value() == Ok::<u128, Error>(request),
    ensures
        (RoundUpdate::RefreshWallet { attempt }).after(
            UpdateEvent::WalletRefreshed { balance },
            depool,
            config,
            app,
            gas,
            election_id,
        ) == if balance > 1_000_000_000 + reserve + request + gas || balance == u128::MAX {
            RoundUpdate::SendTicktock { attempt, value: 1_000_000_000 }
        } else {
            RoundUpdate::NotReady
        },
        (RoundUpdate::SendTicktock { attempt, value }).after(
            UpdateEvent::Sent,
            depool,
            config,
            app,
            gas,
            election_id,
        ) == (RoundUpdate::Sleep { attempt, secs: 60 }),
        (RoundUpdate::Sleep { attempt, secs }).after(
            UpdateEvent::Slept,
            depool,
            config,
            app,
            gas,
            election_id,
        ) == if attempt < 4 {
            RoundUpdate::RefreshDepool { attempt: (attempt + 1) as usize, ticktocked: true }
        } else {
            RoundUpdate::NotReady
        },
{
    crate::wallet::law_spendable_is_what_leaves_the_reserve(
        balance,
        app,
        gas,
        1_000_000_000,
        reserve,
        request,
    );
}

/// An update waits for the answer to what is due, and keeps its end. Without readable reserves it
/// fails once the wallet is looked at.
pub proof fn law_update_waits(
    state: RoundUpdate,
    error: Error,
    event: UpdateEvent,
    depool: DePoolState,
    config: DepoolRuntimeConfig,
    app: AppConfig,
    gas: u128,
    election_id: u32,
)
    ensures
        state is RefreshDepool && !(event is DepoolRefreshed) || state is EnsureRoundStake && !(
        event is RoundStakeEnsured) || state is RefreshAgain && !(event is DepoolRefreshed)
            || state is RefreshWallet && !(event is WalletRefreshed) || state is SendTicktock && !(
        event is Sent) || state is Sleep && !(event is Slept) || state is Ready
            || state is NotReady || state is MissedCurrentElection || state is Failed
            ==> state.after(event, depool, config, app, gas, election_id) == state,
        state is RefreshWallet && event is WalletRefreshed && app.wallet_reserve() == Err::<
            u128,
            Error,
        >(error) ==> state.after(event, depool, config, app, gas, election_id) == (
        RoundUpdate::Failed { error }),
        state is RefreshWallet && event is WalletRefreshed && app.wallet_reserve() is Ok
            && app.participate_value() == Err::<u128, Error>(error) ==> state.after(
            event,
            depool,
            config,
            app,
            gas,
            election_id,
        ) == (RoundUpdate::Failed { error }),
{
}

/// Our validator key is in the election through a DePool exactly where its entry came from the
/// address of one of the proxies.
pub proof fn law_registered_through_a_proxy(current: CurrentElection, depool: DePoolState)
    ensures
        current.member is None ==> !registered_by(current, depool),
        current.member matches Some(member) ==> (registered_by(current, depool) <==> exists|i: int|
            0 <= i < depool.proxies@.len() && (#[trigger] depool.proxies@[i]).address@
                == member.src_addr@),
{
}

/// Where our validator key is not in the election through the DePool, the rounds are moved on,
/// unless just this election was missed: then the next look comes after the poll interval.
pub proof fn law_unregistered_depool_is_moved_on(
    current: CurrentElection,
    depool: DePoolState,
    missed: Option<u32>,
    app: AppConfig,
    until_elections_end: u32,
)
    requires
        !registered_by(current, depool),
    ensures
        DepoolElection::begun(current, depool, missed, app, until_elections_end)
            is UpdateRounds <==> missed != Some(current.elect_at),
        missed == Some(current.elect_at) ==> DepoolElection::begun(
            current,
            depool,
            missed,
            app,
            until_elections_end,
        ) == (DepoolElection::Finished { wait_secs: app.poll_interval_secs }),
        missed == Some(current.elect_at) ==> remembered(missed, current.elect_at) == missed,
{
}

/// A round that is ready and waits for the request is taken into the election: its stake is
/// checked, the request for it goes out with the configured value, and the confirmation says how
/// the election ends.
pub proof fn law_ready_round_is_taken_into_the_election(
    round: ReadyDePoolRound,
    value: u128,
    wait_secs: u64,
    error: Error,
    app: AppConfig,
)
    requires
        round.step == 2,
        app.participate_value() == Ok::<u128, Error>(value),
    ensures
        ({
            let checked = DepoolElection::UpdateRounds.after(
                DepoolEvent::Updated { update: RoundUpdate::Ready { round } },
                app,
            );
            let asked = checked.after(DepoolEvent::StakeAccepted, app);
            let sent = asked.after(DepoolEvent::Sent, app);
            &&& checked == (DepoolElection::CheckStake { round })
            &&& asked == (DepoolElection::Participate { round, value })
            &&& sent is Confirm
            &&& sent.after(DepoolEvent::Confirmed { wait_secs }, app) == (
            DepoolElection::Finished { wait_secs })
            &&& sent.after(DepoolEvent::ConfirmFailed { error }, app) == (DepoolElection::Failed {
                error,
            })
        }),
{
}

/// An update that ends in any other way ends the election for now: the next look comes after the
/// poll interval, and an error stands. Only a missed election is marked, and with its own number.
pub proof fn law_no_round_ends_the_election(
    update: RoundUpdate,
    missed: Option<u32>,
    elect_at: u32,
    app: AppConfig,
)
    ensures
        ({
            let event = DepoolEvent::Updated { update };
            let next = DepoolElection::UpdateRounds.after(event, app);
            let marked = DepoolElection::UpdateRounds.missed_after(event, missed, elect_at);
            &&& update is NotReady || update is MissedCurrentElection ==> next == (
            DepoolElection::Finished { wait_secs: app.poll_interval_secs })
            &&& update matches RoundUpdate::Ready { round } ==> round.step != 2 ==> next == (
            DepoolElection::Finished { wait_secs: app.poll_interval_secs })
            &&& update matches RoundUpdate::Failed { error } ==> next == (DepoolElection::Failed {
                error,
            })
            &&& !update.is_over() ==> next is UpdateRounds
            &&& update is MissedCurrentElection ==> marked == Some(elect_at)
            &&& !(update is MissedCurrentElection) ==> marked == missed
        }),
{
}

/// An election through a DePool waits for the answer to what is due, and keeps its end. Without a
/// readable value there is no request. Nothing but an update marks an election as missed.
pub proof fn law_depool_election_waits(
    state: DepoolElection,
    event: DepoolEvent,
    missed: Option<u32>,
    elect_at: u32,
    error: Error,
    app: AppConfig,
)
    ensures
        state is UpdateRounds && !(event is Updated) || state is CheckStake && !(
        event is StakeAccepted) || state is Participate && !(event is Sent) || state is Confirm
            && !(event is Confirmed) && !(event is ConfirmFailed) || state is Finished
            || state is Failed ==> state.after(event, app) == state,
        state is CheckStake && event is StakeAccepted && app.participate_value() == Err::<
            u128,
            Error,
        >(error) ==> state.after(event, app) == (DepoolElection::Failed { error }),
        !(state is UpdateRounds) || !(event is Updated) ==> state.missed_after(
            event,
            missed,
            elect_at,
        ) == missed,
{
}

/// A stake that the elector holds for the wallet is recovered before anything else, whether or not
/// our validator key is in the election; without one nothing is.
pub proof fn law_credit_is_recovered_first(
    credit: u128,
    balance: u128,
    value: u128,
    terms: SimpleTerms,
    app: AppConfig,
)
    ensures
        SimpleElection::begun(Some(credit), balance, terms) is BuildRecovery <==> credit > 0,
        !(SimpleElection::begun(None, balance, terms) is BuildRecovery),
        SimpleElection::begun(None, balance, terms) == SimpleElection::begun(
            Some(0),
            balance,
            terms,
        ),
        ({
            let built = SimpleElection::BuildRecovery.after(
                SimpleEvent::MessageBuilt { value },
                terms,
                app,
            );
            let refreshed = built.after(SimpleEvent::WalletRefreshed { balance }, terms, app);
            &&& built == (SimpleElection::RefreshForRecovery { value })
            &&& balance >= value + terms.transfer_reserve ==> refreshed == (
            SimpleElection::SendRecovery { value })
            &&& balance < value + terms.transfer_reserve && balance < u128::MAX ==> refreshed == (
            SimpleElection::Finished { wait_secs: app.poll_interval_secs })
        }),
        (SimpleElection::SendRecovery { value }).after(SimpleEvent::Sent, terms, app)
            is RefreshRecovered,
        (SimpleElection::SendRecovery { value }).after(SimpleEvent::Sent, terms, app).after(
            SimpleEvent::WalletRefreshed { balance },
            terms,
            app,
        ) == SimpleElection::begun(None, balance, terms),
{
}

/// For a validator whose key is not in the election and who has nothing to recover, a request is
/// built with exactly the amount that the elections file names, where the stake comes from there,
/// and with exactly the configured amount, where it is fixed.
pub proof fn law_named_stake_is_requested(
    balance: u128,
    terms: SimpleTerms,
    text: String,
    stake: u128,
)
    requires
        !terms.registered,
        nano_amount(text@) == Ok::<u128, AmountError>(stake),
        terms.stake is FromElectionsJson && terms.elections_stake == Some(text) || terms.stake
            == (StakeConfig::Fixed { amount: text }),
    ensures
        SimpleElection::begun(None, balance, terms) == (SimpleElection::BuildRequest { stake }),
        SimpleElection::begun(Some(0), balance, terms) == (SimpleElection::BuildRequest { stake }),
{
}

/// A floating stake is requested with all that the wallet holds above the kept amount, the elector's
/// gas and the reserve of a transfer.
pub proof fn law_floating_stake_is_requested(
    balance: u128,
    terms: SimpleTerms,
    text: String,
    keep: u128,
)
    requires
        !terms.registered,
        nano_amount(text@) == Ok::<u128, AmountError>(keep),
        terms.stake == (StakeConfig::Float { keep_wallet_balance: text }),
    ensures
        ({
            let next = SimpleElection::begun(None, balance, terms);
            let kept = keep + terms.elector_gas + terms.transfer_reserve;
            &&& kept <= balance ==> (next matches SimpleElection::BuildRequest { stake } && stake
                + kept == balance)
            &&& kept > balance && balance < u128::MAX ==> next == (SimpleElection::Failed {
                error: Error::FloatingStakeTooLow,
            })
        }),
{
}

/// Without a stake to request, the election fails for what is wrong with it; and whoever is in the
/// election already waits for its end.
pub proof fn law_no_request_without_a_stake(balance: u128, terms: SimpleTerms)
    ensures
        terms.registered ==> SimpleElection::begun(None, balance, terms) == (
        SimpleElection::Finished { wait_secs: boundary_wait(terms.until_elections_end) }),
        !terms.registered && terms.stake is FromElectionsJson && terms.elections_stake is None
            ==> SimpleElection::begun(None, balance, terms) == (SimpleElection::Failed {
            error: Error::StakeUnavailable,
        }),
        !terms.registered && terms.stake is FromElectionsJson ==> (
        terms.elections_stake matches Some(text) ==> (nano_amount(text@) matches Err(reason)
            ==> SimpleElection::begun(None, balance, terms) == (SimpleElection::Failed {
            error: Error::Amount { setting: Setting::Stake, reason },
        }))),
        !terms.registered ==> (terms.stake matches StakeConfig::Fixed { amount } ==> (nano_amount(
            amount@,
        ) matches Err(reason) ==> SimpleElection::begun(None, balance, terms) == (
        SimpleElection::Failed { error: Error::Amount { setting: Setting::Stake, reason } }))),
        !terms.registered ==> (terms.stake matches StakeConfig::Float { keep_wallet_balance }
            ==> (nano_amount(keep_wallet_balance@) matches Err(reason) ==> SimpleElection::begun(
            None,
            balance,
            terms,
        ) == (SimpleElection::Failed {
            error: Error::Amount { setting: Setting::KeepWalletBalance, reason },
        }))),
{
}

/// A request that is built is sent whenever the reserve stays on the wallet, and then waits for its
/// confirmation, which says how the election ends.
pub proof fn law_request_is_sent_and_confirmed(
    stake: u128,
    value: u128,
    balance: u128,
    wait_secs: u64,
    error: Error,
    terms: SimpleTerms,
    app: AppConfig,
)
    ensures
        ({
            let built = (SimpleElection::BuildRequest { stake }).after(
                SimpleEvent::MessageBuilt { value },
                terms,
                app,
            );
            let refreshed = built.after(SimpleEvent::WalletRefreshed { balance }, terms, app);
            let sent = (SimpleElection::SendRequest { value }).after(
                SimpleEvent::Sent,
                terms,
                app,
            );
            &&& built == (SimpleElection::RefreshForRequest { value })
            &&& balance >= value + terms.transfer_reserve ==> refreshed == (
            SimpleElection::SendRequest { value })
            &&& balance < value + terms.transfer_reserve && balance < u128::MAX ==> refreshed == (
            SimpleElection::Finished { wait_secs: app.poll_interval_secs })
            &&& sent is Confirm
            &&& sent.after(SimpleEvent::Confirmed { wait_secs }, terms, app) == (
            SimpleElection::Finished { wait_secs })
            &&& sent.after(SimpleEvent::ConfirmFailed { error }, terms, app) == (
            SimpleElection::Failed { error })
        }),
{
}

/// A simple election waits for the answer to what is due, and keeps its end.
pub proof fn law_simple_election_waits(
    state: SimpleElection,
    event: SimpleEvent,
    terms: SimpleTerms,
    app: AppConfig,
)
    ensures
        (state is BuildRecovery || state is BuildRequest) && !(event is MessageBuilt) || (
        state is RefreshForRecovery || state is RefreshRecovered || state is RefreshForRequest)
            && !(event is WalletRefreshed) || (state is SendRecovery || state is SendRequest) && !(
        event is Sent) || state is Confirm && !(event is Confirmed) && !(event is ConfirmFailed)
            || state is Finished || state is Failed ==> state.after(event, terms, app) == state,
{
}

} // verus!
