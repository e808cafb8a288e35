use ever_elect::config::{AppConfig, DepoolRuntimeConfig, StakeConfig};
use ever_elect::iteration::{
    after_iteration, Cycle, ElectionTimeline, Iteration, IterationFacts, LoopStep,
    RuntimeValidation,
};

fn app() -> AppConfig {
    AppConfig::default(None)
}

fn live() -> AppConfig {
    let mut config = app();
    config.send = true;
    config
}

fn simple() -> RuntimeValidation {
    RuntimeValidation::Simple {
        stake: StakeConfig::FromElectionsJson,
        elections_stake: None,
    }
}

fn depool() -> RuntimeValidation {
    RuntimeValidation::Depool {
        config: DepoolRuntimeConfig {
            address: "0:aa".to_string(),
            new: None,
        },
        missed_election_id: None,
    }
}

fn facts(timeline: ElectionTimeline) -> IterationFacts {
    IterationFacts {
        timeline,
        has_election: true,
        unfreeze_at: Some(1_000),
        now: 1_100,
        time_diff: 7,
    }
}

const OPEN: ElectionTimeline = ElectionTimeline::Elections {
    until_elections_end: 900,
    elections_end: 2_000,
};

#[test]
fn live_runs_are_managed() {
    let mut config = app();
    assert_eq!(Cycle::select(&config), Cycle::Direct);
    config.send = true;
    assert_eq!(Cycle::select(&config), Cycle::Managed);
}

#[test]
fn sleeps_until_known_boundaries() {
    let before = ElectionTimeline::BeforeElections {
        until_elections_start: 300,
    };
    let after = ElectionTimeline::AfterElections { until_round_end: 2 };
    for config in [app(), live()] {
        assert_eq!(
            Iteration::run_once(&simple(), &facts(before), &config),
            Iteration::Finished { wait_secs: 300 }
        );
        assert_eq!(
            Iteration::run_once(&simple(), &facts(after), &config),
            Iteration::Finished { wait_secs: 5 }
        );
    }
}

#[test]
fn simple_validators_wait_for_frozen_stakes() {
    assert_eq!(
        Iteration::run_once(&simple(), &facts(OPEN), &live()),
        Iteration::Finished { wait_secs: 507 }
    );
    let run = |cycle: Cycle| Iteration::RunSimple {
        cycle,
        elections_end: 2_000,
        until_elections_end: 900,
    };
    assert_eq!(Iteration::run_once(&simple(), &facts(OPEN), &app()), run(Cycle::Direct));
    let mut thawed = facts(OPEN);
    thawed.unfreeze_at = None;
    assert_eq!(Iteration::run_once(&simple(), &thawed, &live()), run(Cycle::Managed));
}

#[test]
fn polls_without_an_election() {
    let mut none = facts(OPEN);
    none.has_election = false;
    assert_eq!(
        Iteration::run_once(&simple(), &none, &live()),
        Iteration::Finished { wait_secs: 60 }
    );
}

#[test]
fn depools_get_ready_first() {
    for (config, cycle) in [(app(), Cycle::Direct), (live(), Cycle::Managed)] {
        let state = Iteration::run_once(&depool(), &facts(OPEN), &config);
        assert_eq!(state, Iteration::PrepareDepool { cycle });
        assert_eq!(
            state.prepared(false, &facts(OPEN), &config),
            Iteration::Finished { wait_secs: 60 }
        );
        let run = state.prepared(true, &facts(OPEN), &config);
        assert_eq!(
            run,
            Iteration::RunDepool {
                cycle,
                elections_end: 2_000,
                until_elections_end: 900
            }
        );
        assert_eq!(run.prepared(false, &facts(OPEN), &config), run);
    }
}

#[test]
fn loop_sleeps_or_stops() {
    let mut config = app();
    assert_eq!(after_iteration(&config, Some(7)), LoopStep::Sleep { secs: 7 });
    assert_eq!(after_iteration(&config, None), LoopStep::Sleep { secs: 30 });
    config.once = true;
    assert_eq!(after_iteration(&config, Some(7)), LoopStep::Stop);
    assert_eq!(after_iteration(&config, None), LoopStep::Stop);
}
