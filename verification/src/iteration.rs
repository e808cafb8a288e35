//! One iteration of the validation loop, and the loop around it.

use crate::address::{StdAddr, BASECHAIN};
use crate::config::{
    accepted_depool, depool_config_refusal, wallet_refusal, AppConfig, DepoolConfig,
    DepoolRuntimeConfig, DepoolValidationConfig, KeyFacts, LoadedWallet, SimpleValidationConfig,
    StakeConfig,
};
use crate::confirm::CurrentElection;
use crate::depool::DePoolState;
use crate::direct::{
    law_dry_run_elects_without_submitting, law_dry_run_prepares_without_submitting,
    law_dry_run_stakes_without_submitting, DirectDepoolElection, DirectEvent, DirectInput,
    DirectPrepare, DirectSimpleElection,
};
use crate::error::Error;
use crate::managed::SimpleTerms;
use crate::schedule::{
    boundary_wait, boundary_wait_secs, simple_stake_unfreeze_wait, unfreeze_wait,
    MIN_BOUNDARY_WAIT_SECS,
};
use crate::text::same_text;
use crate::wallet::DepoolCosts;
use vstd::prelude::*;

verus! {

/// Where the network stands with its elections. All times are seconds.
#[derive(Clone, Copy, Debug, PartialEq, Eq, Structural)]
pub enum ElectionTimeline {
    BeforeElections { until_elections_start: u32 },
    Elections { until_elections_end: u32, elections_end: u32 },
    AfterElections { until_round_end: u32 },
}

/// Which elections are run: the direct ones or the managed ones.
#[derive(Clone, Copy, Debug, PartialEq, Eq, Structural)]
pub enum Cycle {
    Direct,
    Managed,
}

impl Cycle {
    /// The managed cycle is for live runs: a dry run goes through the direct one.
    pub open spec fn for_config(app: AppConfig) -> Cycle {
        if app.send {
            Cycle::Managed
        } else {
            Cycle::Direct
        }
    }

    /// Selects the cycle.
    pub fn select(app: &AppConfig) -> (r: Cycle)
        ensures
            r == Cycle::for_config(*app),
    {
        if app.send {
            Cycle::Managed
        } else {
            Cycle::Direct
        }
    }
}

/// How the node validates, as far as it lasts from one iteration to the next.
#[derive(Debug)]
pub enum RuntimeValidation {
    Simple { stake: StakeConfig, elections_stake: Option<String> },
    Depool { config: DepoolRuntimeConfig, missed_election_id: Option<u32> },
}

impl RuntimeValidation {
    /// The name of the kind of validation.
    pub fn name(&self) -> (r: &'static str)
        ensures
            r@ == if self is Simple {
                "simple"@
            } else {
                "depool"@
            },
    {
        match self {
            RuntimeValidation::Simple { stake: _, elections_stake: _ } => "simple",
            RuntimeValidation::Depool { config: _, missed_election_id: _ } => "depool",
        }
    }

    /// Begins simple validation with an accepted wallet, whose key has the address
    /// `derived_address`.
    pub fn new_simple(
        config: &SimpleValidationConfig,
        loaded: LoadedWallet,
        derived_address: &str,
    ) -> (r: Result<RuntimeValidation, Error>)
        ensures
            r == if derived_address@ == loaded.address@ {
                Ok::<RuntimeValidation, Error>(
                    RuntimeValidation::Simple {
                        stake: config.stake,
                        elections_stake: loaded.elections_stake,
                    },
                )
            } else {
                Err(Error::WalletAddressMismatch)
            },
    {
        if !same_text(derived_address, loaded.address.as_str()) {
            return Err(Error::WalletAddressMismatch);
        }
        Ok(
            RuntimeValidation::Simple {
                stake: config.stake.clone(),
                elections_stake: loaded.elections_stake,
            },
        )
    }

    /// Begins validation through a DePool: the wallet, whose key has the address
    /// `derived_address`, and the DePool have to be accepted. No election is missed yet.
    pub fn new_depool(
        config: &DepoolValidationConfig,
        wallet_facts: &KeyFacts,
        derived_address: &str,
        depool_facts: &KeyFacts,
    ) -> (r: Result<RuntimeValidation, Error>)
        ensures
            match wallet_refusal(config.validator_wallet, BASECHAIN, *wallet_facts) {
                Some(e) => r == Err::<RuntimeValidation, Error>(e),
                None => if derived_address@ != config.validator_wallet.address@ {
                    r == Err::<RuntimeValidation, Error>(Error::ValidatorAddressMismatch)
                } else {
                    match depool_config_refusal(config.depool, *depool_facts) {
                        Some(e) => r == Err::<RuntimeValidation, Error>(e),
                        None => r == Ok::<RuntimeValidation, Error>(
                            RuntimeValidation::Depool {
                                config: accepted_depool(config.depool),
                                missed_election_id: None,
                            },
                        ),
                    }
                },
            },
    {
        let loaded = match config.validator_wallet.load(BASECHAIN, wallet_facts) {
            Ok(wallet) => wallet,
            Err(e) => {
                return Err(e);
            },
        };
        if !same_text(derived_address, loaded.address.as_str()) {
            return Err(Error::ValidatorAddressMismatch);
        }
        match DepoolRuntimeConfig::from_config(&config.depool, depool_facts) {
            Err(e) => Err(e),
            Ok(accepted) => Ok(
                RuntimeValidation::Depool { config: accepted, missed_election_id: None },
            ),
        }
    }
}

/// What an iteration goes by.
#[derive(Clone, Copy, Debug, PartialEq, Eq, Structural)]
pub struct IterationFacts {
    pub timeline: ElectionTimeline,
    /// Whether the elector holds an election.
    pub has_election: bool,
    /// When the next frozen stake of the wallet unfreezes.
    pub unfreeze_at: Option<u32>,
    /// The clock.
    pub now: u32,
    /// How far the elector's state lags behind the clock.
    pub time_diff: u32,
}

/// One iteration, which says what is due.
#[derive(Clone, Copy, Debug, PartialEq, Eq, Structural)]
pub enum Iteration {
    /// Get the DePool ready, as the cycle does it.
    PrepareDepool { cycle: Cycle },
    /// Take part in the election with one's own stake, as the cycle does it.
    RunSimple { cycle: Cycle, elections_end: u32, until_elections_end: u32 },
    /// Take part in the election through the DePool, as the cycle does it.
    RunDepool { cycle: Cycle, elections_end: u32, until_elections_end: u32 },
    /// Done: wait so many seconds.
    Finished { wait_secs: u64 },
}

impl Iteration {
    /// What is due once there is nothing left to get ready.
    pub open spec fn scheduled(
        cycle: Cycle,
        by_depool: bool,
        facts: IterationFacts,
        app: AppConfig,
    ) -> Iteration {
        match facts.timeline {
            ElectionTimeline::BeforeElections { until_elections_start } => Iteration::Finished {
                wait_secs: boundary_wait(until_elections_start),
            },
            ElectionTimeline::AfterElections { until_round_end } => Iteration::Finished {
                wait_secs: boundary_wait(until_round_end),
            },
            ElectionTimeline::Elections { until_elections_end, elections_end } =>
                if !facts.has_election {
                Iteration::Finished { wait_secs: app.poll_interval_secs }
            } else if by_depool {
                Iteration::RunDepool { cycle, elections_end, until_elections_end }
            } else {
                match (
                    cycle,
                    unfreeze_wait(facts.unfreeze_at, elections_end, facts.now, facts.time_diff),
                ) {
                    (Cycle::Managed, Some(wait_secs)) => Iteration::Finished { wait_secs },
                    _ => Iteration::RunSimple { cycle, elections_end, until_elections_end },
                }
            },
        }
    }

    pub open spec fn begun(
        cycle: Cycle,
        by_depool: bool,
        facts: IterationFacts,
        app: AppConfig,
    ) -> Iteration {
        if by_depool {
            Iteration::PrepareDepool { cycle }
        } else {
            Iteration::scheduled(cycle, false, facts, app)
        }
    }

    /// What is due after the DePool is `ready`, or is not.
    pub open spec fn after_prepare(
        self,
        ready: bool,
        cycle: Cycle,
        facts: IterationFacts,
        app: AppConfig,
    ) -> Iteration {
        if self is PrepareDepool {
            if ready {
                Iteration::scheduled(cycle, true, facts, app)
            } else {
                Iteration::Finished { wait_secs: app.poll_interval_secs }
            }
        } else {
            self
        }
    }

    fn schedule(cycle: Cycle, by_depool: bool, facts: &IterationFacts, app: &AppConfig) -> (r:
        Iteration)
        ensures
            r == Iteration::scheduled(cycle, by_depool, *facts, *app),
    {
        match facts.timeline {
            ElectionTimeline::BeforeElections { until_elections_start } => Iteration::Finished {
                wait_secs: boundary_wait_secs(until_elections_start),
            },
            ElectionTimeline::AfterElections { until_round_end } => Iteration::Finished {
                wait_secs: boundary_wait_secs(until_round_end),
            },
            ElectionTimeline::Elections { until_elections_end, elections_end } => {
                if !facts.has_election {
                    return Iteration::Finished { wait_secs: app.poll_interval() };
                }
                if by_depool {
                    return Iteration::RunDepool { cycle, elections_end, until_elections_end };
                }
                match cycle {
                    Cycle::Direct => Iteration::RunSimple { cycle, elections_end, until_elections_end },
                    Cycle::Managed => match simple_stake_unfreeze_wait(
                        facts.unfreeze_at,
                        elections_end,
                        facts.now,
                        facts.time_diff,
                    ) {
                        Some(wait_secs) => Iteration::Finished { wait_secs },
                        None => Iteration::RunSimple { cycle, elections_end, until_elections_end },
                    },
                }
            },
        }
    }

    /// Begins an iteration of the cycle that is configured. A DePool is got ready before anything
    /// else.
    pub fn run_once(validation: &RuntimeValidation, facts: &IterationFacts, app: &AppConfig) -> (r:
        Iteration)
        ensures
            r == Iteration::begun(Cycle::for_config(*app), validation is Depool, *facts, *app),
    {
        let cycle: Cycle = Cycle::select(app);
        match validation {
            RuntimeValidation::Depool { config: _, missed_election_id: _ } =>
                Iteration::PrepareDepool { cycle },
            RuntimeValidation::Simple { stake: _, elections_stake: _ } => Iteration::schedule(
                cycle,
                false,
                facts,
                app,
            ),
        }
    }

    /// Goes on once the DePool is `ready`, or is not.
    pub fn prepared(self, ready: bool, facts: &IterationFacts, app: &AppConfig) -> (r: Iteration)
        ensures
            r == self.after_prepare(ready, Cycle::for_config(*app), *facts, *app),
    {
        match self {
            Iteration::PrepareDepool { cycle: _ } => {
                if ready {
                    Iteration::schedule(Cycle::select(app), true, facts, app)
                } else {
                    Iteration::Finished { wait_secs: app.poll_interval() }
                }
            },
            other => other,
        }
    }

    /// The cycle whose work is due.
    pub open spec fn cycle(self) -> Option<Cycle> {
        match self {
            Iteration::PrepareDepool { cycle } => Some(cycle),
            Iteration::RunSimple { cycle, elections_end, until_elections_end } => Some(cycle),
            Iteration::RunDepool { cycle, elections_end, until_elections_end } => Some(cycle),
            Iteration::Finished { wait_secs } => None,
        }
    }

    /// Whether an election is run.
    pub open spec fn runs_election(self) -> bool {
        self is RunSimple || self is RunDepool
    }
}

/// What the loop does after an iteration.
#[derive(Clone, Copy, Debug, PartialEq, Eq, Structural)]
pub enum LoopStep {
    Stop,
    Sleep { secs: u64 },
}

/// Decides what the loop does after an iteration: `outcome` is the wait that the iteration asks
/// for, or nothing where it failed.
pub fn after_iteration(app: &AppConfig, outcome: Option<u64>) -> (r: LoopStep)
    ensures
        app.once ==> r == LoopStep::Stop,
        !app.once ==> r == (LoopStep::Sleep {
            secs: match outcome {
                Some(wait_secs) => wait_secs,
                None => app.error_retry_interval_secs,
            },
        }),
{
    if app.once {
        return LoopStep::Stop;
    }
    match outcome {
        Some(wait_secs) => LoopStep::Sleep { secs: wait_secs },
        None => LoopStep::Sleep { secs: app.error_retry_interval() },
    }
}

/// Outside of elections there is nothing to do but to sleep until the known boundary.
pub proof fn law_sleeps_until_boundary(
    cycle: Cycle,
    by_depool: bool,
    facts: IterationFacts,
    app: AppConfig,
    until: u32,
)
    requires
        facts.timeline == (ElectionTimeline::BeforeElections { until_elections_start: until })
            || facts.timeline == (ElectionTimeline::AfterElections { until_round_end: until }),
    ensures
        Iteration::scheduled(cycle, by_depool, facts, app) matches Iteration::Finished {
            wait_secs,
        } && wait_secs >= until && wait_secs >= MIN_BOUNDARY_WAIT_SECS,
{
}

/// An election is run only while it is open and the elector holds one, and by the means that are
/// configured.
pub proof fn law_election_only_when_open(
    cycle: Cycle,
    by_depool: bool,
    facts: IterationFacts,
    app: AppConfig,
)
    requires
        Iteration::scheduled(cycle, by_depool, facts, app).runs_election(),
    ensures
        facts.timeline is Elections,
        facts.has_election,
        Iteration::scheduled(cycle, by_depool, facts, app) is RunDepool == by_depool,
{
}

/// A DePool that is not ready takes no part in an election: the next look comes after the polling
/// interval.
pub proof fn law_unready_depool_waits(cycle: Cycle, facts: IterationFacts, app: AppConfig)
    ensures
        Iteration::begun(cycle, true, facts, app).after_prepare(false, cycle, facts, app) == (
        Iteration::Finished { wait_secs: app.poll_interval_secs }),
{
}

/// All work of an iteration is that of the configured cycle. With `send` off that is the direct one.
pub proof fn law_iteration_stays_in_its_cycle(
    by_depool: bool,
    ready: bool,
    facts: IterationFacts,
    app: AppConfig,
)
    ensures
        ({
            let configured = Cycle::for_config(app);
            let begun = Iteration::begun(configured, by_depool, facts, app);
            let prepared = begun.after_prepare(ready, configured, facts, app);
            &&& begun.cycle() matches Some(cycle) ==> cycle == configured
            &&& prepared.cycle() matches Some(cycle) ==> cycle == configured
            &&& !app.send ==> configured is Direct
        }),
{
}

/// With `send` off nothing is ever submitted: the direct cycle is run, and whatever happens while
/// it gets a DePool ready, takes part through it, or takes part with one's own stake, none of the
/// three comes to submit anything.
pub proof fn law_dry_run_submits_nothing(
    app: AppConfig,
    config: DepoolRuntimeConfig,
    wallet: StdAddr,
    costs: DepoolCosts,
    current: CurrentElection,
    depool: DePoolState,
    until_elections_end: u32,
    credit: Option<u128>,
    balance: u128,
    terms: SimpleTerms,
    inputs: Seq<DirectInput>,
    events: Seq<DirectEvent>,
)
    requires
        !app.send,
    ensures
        Cycle::for_config(app) is Direct,
        !DirectPrepare::RefreshDepool.after_all(inputs, config, wallet, app, costs).submits(),
        !DirectDepoolElection::begun(current, depool, until_elections_end).after_all(
            inputs,
            current.elect_at,
            app,
        ).submits(),
        !DirectSimpleElection::begun(credit, balance, terms, app).after_all(
            events,
            terms,
            app,
        ).submits(),
{
    law_dry_run_prepares_without_submitting(inputs, config, wallet, app, costs);
    law_dry_run_elects_without_submitting(inputs, current, depool, until_elections_end, app);
    law_dry_run_stakes_without_submitting(events, credit, balance, terms, app);
}

/// A live run goes through the managed cycle, and a dry run through the direct one.
pub proof fn law_live_runs_are_managed(app: AppConfig)
    ensures
        app.send <==> Cycle::for_config(app) is Managed,
        !app.send <==> Cycle::for_config(app) is Direct,
{
}

/// Validation through a DePool begins with the DePool, whatever the network does. Simple validation
/// goes by the schedule at once, and so does validation through a DePool that is ready.
pub proof fn law_depool_is_prepared_first(cycle: Cycle, facts: IterationFacts, app: AppConfig)
    ensures
        Iteration::begun(cycle, true, facts, app) == (Iteration::PrepareDepool { cycle }),
        Iteration::begun(cycle, false, facts, app) == Iteration::scheduled(
            cycle,
            false,
            facts,
            app,
        ),
        (Iteration::PrepareDepool { cycle }).after_prepare(true, cycle, facts, app)
            == Iteration::scheduled(cycle, true, facts, app),
{
}

/// Before and after elections the wait is the time until the boundary, or five seconds where that
/// is longer, for either cycle and for either kind of validation.
pub proof fn law_boundary_is_waited_for(
    cycle: Cycle,
    by_depool: bool,
    facts: IterationFacts,
    app: AppConfig,
    until: u32,
)
    requires
        facts.timeline == (ElectionTimeline::BeforeElections { until_elections_start: until })
            || facts.timeline == (ElectionTimeline::AfterElections { until_round_end: until }),
    ensures
        until >= 5 ==> Iteration::scheduled(cycle, by_depool, facts, app) == (Iteration::Finished {
            wait_secs: until as u64,
        }),
        until < 5 ==> Iteration::scheduled(cycle, by_depool, facts, app) == (Iteration::Finished {
            wait_secs: 5,
        }),
{
}

/// While the election is open, the elector holding none means to look again after the poll
/// interval, and a DePool that is ready takes part whenever the elector holds one, whatever is
/// frozen.
pub proof fn law_open_election_is_run_by_depool(
    cycle: Cycle,
    by_depool: bool,
    facts: IterationFacts,
    app: AppConfig,
    until_elections_end: u32,
    elections_end: u32,
)
    requires
        facts.timeline == (ElectionTimeline::Elections { until_elections_end, elections_end }),
    ensures
        !facts.has_election ==> Iteration::scheduled(cycle, by_depool, facts, app) == (
        Iteration::Finished { wait_secs: app.poll_interval_secs }),
        facts.has_election ==> Iteration::scheduled(cycle, true, facts, app) == (
        Iteration::RunDepool { cycle, elections_end, until_elections_end }),
{
}

/// While the election is open and the elector holds one, a simple validator runs it whenever no
/// frozen stake is worth waiting for, whatever is frozen, and in the direct cycle in any case. Where
/// one is worth waiting for, the managed cycle waits for it.
pub proof fn law_open_election_is_run_by_simple(
    cycle: Cycle,
    facts: IterationFacts,
    app: AppConfig,
    until_elections_end: u32,
    elections_end: u32,
)
    requires
        facts.timeline == (ElectionTimeline::Elections { until_elections_end, elections_end }),
        facts.has_election,
    ensures
        ({
            let next = Iteration::scheduled(cycle, false, facts, app);
            let run = Iteration::RunSimple { cycle, elections_end, until_elections_end };
            match unfreeze_wait(facts.unfreeze_at, elections_end, facts.now, facts.time_diff) {
                None => next == run,
                Some(wait_secs) => if cycle is Direct {
                    next == run
                } else {
                    next == (Iteration::Finished { wait_secs })
                },
            }
        }),
{
}

/// The managed cycle runs an open election for a simple validator unless some stake unfreezes soon:
/// unless it can be used, ten minutes after it unfreezes, later than now and no later than two
/// minutes before the election ends.
pub proof fn law_election_waits_for_frozen_stake_only(
    facts: IterationFacts,
    app: AppConfig,
    until_elections_end: u32,
    elections_end: u32,
)
    requires
        facts.timeline == (ElectionTimeline::Elections { until_elections_end, elections_end }),
        facts.has_election,
        elections_end >= 120,
    ensures
        Iteration::scheduled(Cycle::Managed, false, facts, app).runs_election() <==> !(
        facts.unfreeze_at matches Some(unfreeze_at) && facts.now < unfreeze_at + 600 && unfreeze_at
            + 720 <= elections_end),
{
    if let Some(unfreeze_at) = facts.unfreeze_at {
        if unfreeze_at + 600 <= u32::MAX {
            crate::schedule::law_frozen_stake_is_waited_for(
                unfreeze_at,
                elections_end,
                facts.now,
                facts.time_diff,
            );
        }
    }
}

/// Only a DePool that is being prepared waits for its preparation: nothing else changes with it.
pub proof fn law_only_a_preparation_is_waited_for(
    state: Iteration,
    ready: bool,
    cycle: Cycle,
    facts: IterationFacts,
    app: AppConfig,
)
    requires
        !(state is PrepareDepool),
    ensures
        state.after_prepare(ready, cycle, facts, app) == state,
{
}

/// The loop goes on exactly where more than one iteration is wanted. It sleeps as long as the
/// iteration asks for, and for the retry interval after one that failed.
pub proof fn law_loop_sleeps_as_asked(
    app: &AppConfig,
    wait_secs: u64,
    after_success: LoopStep,
    after_failure: LoopStep,
)
    requires
        call_ensures(after_iteration, (app, Some(wait_secs)), after_success),
        call_ensures(after_iteration, (app, None), after_failure),
    ensures
        app.once <==> after_success is Stop,
        app.once <==> after_failure is Stop,
        !app.once ==> after_success == (LoopStep::Sleep { secs: wait_secs }),
        !app.once ==> after_failure == (LoopStep::Sleep { secs: app.error_retry_interval_secs }),
{
}

/// Simple validation begins with the configured stake and the stake of the wallet's elections file,
/// exactly where the wallet's key has the wallet's address.
pub proof fn law_simple_validation_begins(
    config: SimpleValidationConfig,
    loaded: LoadedWallet,
    derived_address: &str,
    r: Result<RuntimeValidation, Error>,
)
    requires
        call_ensures(RuntimeValidation::new_simple, (&config, loaded, derived_address), r),
    ensures
        r is Ok <==> derived_address@ == loaded.address@,
        r matches Err(e) ==> e == Error::WalletAddressMismatch,
        r matches Ok(validation) ==> {
            &&& validation matches RuntimeValidation::Simple { stake, elections_stake }
            &&& stake == config.stake
            &&& elections_stake == loaded.elections_stake
        },
{
}

/// Validation through a DePool begins with the configured DePool and no missed election, exactly
/// where wallet and DePool are accepted for the basechain and the wallet's key has the wallet's
/// address. What is wrong with the wallet is told first.
pub proof fn law_depool_validation_begins(
    config: DepoolValidationConfig,
    wallet_facts: KeyFacts,
    derived_address: &str,
    depool_facts: KeyFacts,
    r: Result<RuntimeValidation, Error>,
)
    requires
        call_ensures(
            RuntimeValidation::new_depool,
            (&config, &wallet_facts, derived_address, &depool_facts),
            r,
        ),
    ensures
        ({
            let wallet_refused = wallet_refusal(config.validator_wallet, 0i8, wallet_facts);
            let depool_refused = depool_config_refusal(config.depool, depool_facts);
            let is_own = derived_address@ == config.validator_wallet.address@;
            &&& r is Ok <==> wallet_refused is None && is_own && depool_refused is None
            &&& r matches Err(e) ==> {
                &&& wallet_refused is Some ==> wallet_refused == Some(e)
                &&& wallet_refused is None && !is_own ==> e == Error::ValidatorAddressMismatch
                &&& wallet_refused is None && is_own ==> depool_refused == Some(e)
            }
        }),
        r matches Ok(validation) ==> {
            &&& validation matches RuntimeValidation::Depool { config: runtime, missed_election_id }
            &&& missed_election_id is None
            &&& match config.depool {
                DepoolConfig::New(new) => runtime.address == new.address && runtime.new == Some(
                    new,
                ),
                DepoolConfig::Existing(existing) => runtime.address == existing.address
                    && runtime.new is None,
            }
        },
{
}

} // verus!
