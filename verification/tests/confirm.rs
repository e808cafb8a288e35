use ever_elect::address::{HashBytes, StdAddr};
use ever_elect::config::AppConfig;
use ever_elect::confirm::{
    ConfirmTerms, Confirmation, CurrentElection, Member, Sending, Sighting,
};
use ever_elect::error::Error;

fn election(src: Option<u8>) -> Option<CurrentElection> {
    Some(CurrentElection {
        elect_at: 9,
        member: src.map(|byte| Member {
            src_addr: HashBytes([byte; 32]),
        }),
    })
}

fn tries(retry: usize) -> usize {
    let mut state = Sending::begin();
    let mut count = 0;
    while let Sending::Send { attempt, pause_secs } = state {
        assert_eq!(attempt, count);
        assert_eq!(pause_secs, if count == 0 { 0 } else { 1 });
        count += 1;
        state = state.next(false, retry);
    }
    assert_eq!(state, Sending::GaveUp);
    count
}

#[test]
fn messages_are_tried_as_often_as_configured() {
    assert_eq!(tries(0), 1);
    assert_eq!(tries(1), 1);
    assert_eq!(tries(3), 3);
}

#[test]
fn sent_messages_are_not_tried_again() {
    let state = Sending::begin().next(false, 3).next(true, 3);
    assert_eq!(state, Sending::Sent);
    assert_eq!(state.next(false, 3), Sending::Sent);
}

#[test]
fn first_look_comes_at_once() {
    assert_eq!(
        Confirmation::begin(),
        Confirmation::Look {
            attempt: 1,
            pause_secs: 0
        }
    );
}

#[test]
fn simple_requests_are_confirmed() {
    let app = AppConfig::default(None);
    let wallet = HashBytes([1; 32]);
    let state = Confirmation::begin().confirm_simple_participation(None, &wallet, &app, 100);
    assert_eq!(
        state,
        Confirmation::Look {
            attempt: 2,
            pause_secs: 3
        }
    );
    let state = state.confirm_simple_participation(election(None), &wallet, &app, 100);
    let done = state.confirm_simple_participation(election(Some(1)), &wallet, &app, 100);
    assert_eq!(done, Confirmation::Confirmed { wait_secs: 100 });
    let foreign = state.confirm_simple_participation(election(Some(2)), &wallet, &app, 100);
    assert_eq!(
        foreign,
        Confirmation::Failed {
            error: Error::ForeignWalletSource
        }
    );
}

#[test]
fn depool_requests_are_confirmed() {
    let app = AppConfig::default(None);
    let proxies = [1u8, 2].map(|byte| StdAddr {
        workchain: 0,
        address: HashBytes([byte; 32]),
    });
    let begin = Confirmation::begin();
    assert_eq!(
        begin.confirm_depool_participation(election(Some(2)), &proxies, &app, 1),
        Confirmation::Confirmed { wait_secs: 5 }
    );
    assert_eq!(
        begin.confirm_depool_participation(election(Some(3)), &proxies, &app, 1),
        Confirmation::Failed {
            error: Error::ForeignProxySource
        }
    );
}

#[test]
fn confirmations_end_after_the_configured_looks() {
    let mut app = AppConfig::default(None);
    for (configured, expected) in [(0, 1), (1, 1), (4, 4)] {
        app.confirmation_attempts = configured;
        let mut state = Confirmation::begin();
        let mut looks = 0;
        while matches!(state, Confirmation::Look { .. }) {
            looks += 1;
            state = state.confirm_depool_participation(election(None), &[], &app, 1);
        }
        assert_eq!(looks, expected);
        assert_eq!(
            state,
            Confirmation::Failed {
                error: Error::NotRegisteredByDepool
            }
        );
    }
    app.confirmation_attempts = 1;
    assert_eq!(
        Confirmation::begin().confirm_simple_participation(None, &HashBytes([1; 32]), &app, 1),
        Confirmation::Failed {
            error: Error::NotRegistered
        }
    );
}

#[test]
fn first_sighting_decides() {
    let terms = ConfirmTerms {
        attempts: 3,
        interval_secs: 2,
        wait_secs: 50,
        foreign: Error::ForeignWalletSource,
        timeout: Error::NotRegistered,
    };
    let state = Confirmation::begin()
        .next(Sighting::Unregistered, &terms)
        .next(Sighting::Registered { ours: false }, &terms)
        .next(Sighting::Registered { ours: true }, &terms);
    assert_eq!(
        state,
        Confirmation::Failed {
            error: Error::ForeignWalletSource
        }
    );
}
