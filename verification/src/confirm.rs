//! Sending with retries, and waiting for a confirmation.

use crate::address::{HashBytes, StdAddr};
use crate::config::AppConfig;
use crate::depool::{depool_has_source, has_source};
use crate::error::Error;
use crate::schedule::{boundary_wait, boundary_wait_secs};
use vstd::prelude::*;

verus! {

/// Seconds between two attempts to send the same message.
pub const SEND_RETRY_PAUSE_SECS: u64 = 1;

/// Somebody who takes part in an election: the address that the request came from.
#[derive(Clone, Copy, Debug, PartialEq, Eq)]
pub struct Member {
    pub src_addr: HashBytes,
}

/// The election that the elector holds now, and the entry of our validator key in it.
#[derive(Clone, Copy, Debug, PartialEq, Eq)]
pub struct CurrentElection {
    pub elect_at: u32,
    pub member: Option<Member>,
}

/// How often something is done at least: once, whatever is configured.
pub open spec fn at_least_once(n: usize) -> usize {
    if n == 0 {
        1
    } else {
        n
    }
}

/// The sending of one message, which says what is due.
#[derive(Clone, Copy, Debug, PartialEq, Eq, Structural)]
pub enum Sending {
    /// Pause, and then send the message. `attempt` counts from zero.
    Send { attempt: usize, pause_secs: u64 },
    /// The message is out.
    Sent,
    /// Every attempt failed: the last failure stands.
    GaveUp,
}

impl Sending {
    /// The sending of a message that was not tried yet.
    pub open spec fn begun() -> Sending {
        Sending::Send { attempt: 0, pause_secs: 0 }
    }

    /// What is due after an attempt.
    pub open spec fn after(self, sent: bool, retry: usize) -> Sending {
        match self {
            Sending::Send { attempt, pause_secs } => if sent {
                Sending::Sent
            } else if attempt + 1 < at_least_once(retry) {
                Sending::Send {
                    attempt: (attempt + 1) as usize,
                    pause_secs: SEND_RETRY_PAUSE_SECS,
                }
            } else {
                Sending::GaveUp
            },
            _ => self,
        }
    }

    /// What is due when every attempt fails, `n` of them.
    pub open spec fn after_failures(self, n: nat, retry: usize) -> Sending
        decreases n,
    {
        if n == 0 {
            self
        } else {
            self.after_failures((n - 1) as nat, retry).after(false, retry)
        }
    }

    /// Begins to send a message.
    pub fn begin() -> (r: Sending)
        ensures
            r == Sending::begun(),
    {
        Sending::Send { attempt: 0, pause_secs: 0 }
    }

    /// Takes note of an attempt.
    pub fn next(self, sent: bool, retry: usize) -> (r: Sending)
        ensures
            r == self.after(sent, retry),
    {
        match self {
            Sending::Send { attempt, pause_secs: _ } => {
                if sent {
                    return Sending::Sent;
                }
                let attempts: usize = if retry == 0 {
                    1
                } else {
                    retry
                };
                if attempt < attempts - 1 {
                    Sending::Send { attempt: attempt + 1, pause_secs: SEND_RETRY_PAUSE_SECS }
                } else {
                    Sending::GaveUp
                }
            },
            other => other,
        }
    }
}

proof fn lemma_sending_counts_failures(n: nat, retry: usize)
    requires
        n < at_least_once(retry),
    ensures
        Sending::begun().after_failures(n, retry) matches Sending::Send { attempt, .. } && attempt
            == n,
    decreases n,
{
    if n > 0 {
        lemma_sending_counts_failures((n - 1) as nat, retry);
    }
}

/// A message that cannot be sent is tried as often as configured, at least once, and no more.
pub proof fn law_sending_tries_as_often_as_configured(n: nat, retry: usize)
    ensures
        n < at_least_once(retry) ==> Sending::begun().after_failures(n, retry) is Send,
        n >= at_least_once(retry) ==> Sending::begun().after_failures(n, retry) is GaveUp,
    decreases n,
{
    if n < at_least_once(retry) {
        lemma_sending_counts_failures(n, retry);
    } else {
        law_sending_tries_as_often_as_configured((n - 1) as nat, retry);
        if n == at_least_once(retry) {
            lemma_sending_counts_failures((n - 1) as nat, retry);
        }
    }
}

/// One look at the election after a request.
#[derive(Clone, Copy, Debug, PartialEq, Eq, Structural)]
pub enum Sighting {
    /// There is no election, or the validator key is not in it.
    Unregistered,
    /// The validator key is in the election; `ours` says whether the request came from us.
    Registered { ours: bool },
}

/// What a confirmation goes by.
#[derive(Clone, Copy, Debug, PartialEq, Eq, Structural)]
pub struct ConfirmTerms {
    /// How often to look, as configured.
    pub attempts: usize,
    /// Seconds between two looks.
    pub interval_secs: u64,
    /// Seconds to wait once the request is confirmed.
    pub wait_secs: u64,
    /// What is wrong when the request came from somebody else.
    pub foreign: Error,
    /// What is wrong when the validator key does not show up.
    pub timeout: Error,
}

/// The wait for a confirmation, which says what is due.
#[derive(Clone, Copy, Debug, PartialEq, Eq, Structural)]
pub enum Confirmation {
    /// Pause, and then look at the election. `attempt` counts from one.
    Look { attempt: usize, pause_secs: u64 },
    /// The request is confirmed: wait so many seconds.
    Confirmed { wait_secs: u64 },
    /// The request is not confirmed.
    Failed { error: Error },
}

/// What the confirmation of a simple validator's request goes by.
pub open spec fn simple_terms(app: AppConfig, until_elections_end: u32) -> ConfirmTerms {
    ConfirmTerms {
        attempts: app.confirmation_attempts,
        interval_secs: app.confirmation_interval_secs,
        wait_secs: boundary_wait(until_elections_end),
        foreign: Error::ForeignWalletSource,
        timeout: Error::NotRegistered,
    }
}

/// What the confirmation of a request through a DePool goes by.
pub open spec fn depool_terms(app: AppConfig, until_elections_end: u32) -> ConfirmTerms {
    ConfirmTerms {
        attempts: app.confirmation_attempts,
        interval_secs: app.confirmation_interval_secs,
        wait_secs: boundary_wait(until_elections_end),
        foreign: Error::ForeignProxySource,
        timeout: Error::NotRegisteredByDepool,
    }
}

/// What a simple validator sees: the request has to come from its wallet.
pub open spec fn simple_sighting(
    election: Option<CurrentElection>,
    wallet: HashBytes,
) -> Sighting {
    match election {
        Some(current) => match current.member {
            Some(member) => Sighting::Registered { ours: member.src_addr@ == wallet@ },
            None => Sighting::Unregistered,
        },
        None => Sighting::Unregistered,
    }
}

/// What a DePool validator sees: the request has to come from one of the proxies.
pub open spec fn depool_sighting(
    election: Option<CurrentElection>,
    proxies: Seq<StdAddr>,
) -> Sighting {
    match election {
        Some(current) => match current.member {
            Some(member) => Sighting::Registered { ours: has_source(proxies, member.src_addr@) },
            None => Sighting::Unregistered,
        },
        None => Sighting::Unregistered,
    }
}

impl Confirmation {
    /// The wait for a confirmation before the first look.
    pub open spec fn begun() -> Confirmation {
        Confirmation::Look { attempt: 1, pause_secs: 0 }
    }

    /// What is due after a look.
    pub open spec fn after(self, seen: Sighting, terms: ConfirmTerms) -> Confirmation {
        match self {
            Confirmation::Look { attempt, pause_secs } => match seen {
                Sighting::Registered { ours } => if ours {
                    Confirmation::Confirmed { wait_secs: terms.wait_secs }
                } else {
                    Confirmation::Failed { error: terms.foreign }
                },
                Sighting::Unregistered => if attempt < at_least_once(terms.attempts) {
                    Confirmation::Look {
                        attempt: (attempt + 1) as usize,
                        pause_secs: terms.interval_secs,
                    }
                } else {
                    Confirmation::Failed { error: terms.timeout }
                },
            },
            _ => self,
        }
    }

    /// What is due after several looks.
    pub open spec fn after_all(self, seen: Seq<Sighting>, terms: ConfirmTerms) -> Confirmation
        decreases seen.len(),
    {
        if seen.len() == 0 {
            self
        } else {
            self.after_all(seen.drop_last(), terms).after(seen.last(), terms)
        }
    }

    /// Begins to wait for a confirmation.
    pub fn begin() -> (r: Confirmation)
        ensures
            r == Confirmation::begun(),
    {
        Confirmation::Look { attempt: 1, pause_secs: 0 }
    }

    /// Takes note of a look.
    pub fn next(self, seen: Sighting, terms: &ConfirmTerms) -> (r: Confirmation)
        ensures
            r == self.after(seen, *terms),
    {
        match self {
            Confirmation::Look { attempt, pause_secs: _ } => match seen {
                Sighting::Registered { ours } => {
                    if ours {
                        Confirmation::Confirmed { wait_secs: terms.wait_secs }
                    } else {
                        Confirmation::Failed { error: terms.foreign }
                    }
                },
                Sighting::Unregistered => {
                    let attempts: usize = if terms.attempts == 0 {
                        1
                    } else {
                        terms.attempts
                    };
                    if attempt < attempts {
                        Confirmation::Look {
                            attempt: attempt + 1,
                            pause_secs: terms.interval_secs,
                        }
                    } else {
                        Confirmation::Failed { error: terms.timeout }
                    }
                },
            },
            other => other,
        }
    }

    /// Takes note of a look for the request of a simple validator.
    pub fn confirm_simple_participation(
        self,
        election: Option<CurrentElection>,
        wallet: &HashBytes,
        app: &AppConfig,
        until_elections_end: u32,
    ) -> (r: Confirmation)
        ensures
            r == self.after(
                simple_sighting(election, *wallet),
                simple_terms(*app, until_elections_end),
            ),
    {
        let seen: Sighting = match election {
            Some(current) => match current.member {
                Some(member) => Sighting::Registered { ours: member.src_addr.same(wallet) },
                None => Sighting::Unregistered,
            },
            None => Sighting::Unregistered,
        };
        let terms: ConfirmTerms = ConfirmTerms {
            attempts: app.confirmation_attempts,
            interval_secs: app.confirmation_interval(),
            wait_secs: boundary_wait_secs(until_elections_end),
            foreign: Error::ForeignWalletSource,
            timeout: Error::NotRegistered,
        };
        self.next(seen, &terms)
    }

    /// Takes note of a look for a request through a DePool with these proxies.
    pub fn confirm_depool_participation(
        self,
        election: Option<CurrentElection>,
        proxies: &[StdAddr],
        app: &AppConfig,
        until_elections_end: u32,
    ) -> (r: Confirmation)
        ensures
            r == self.after(
                depool_sighting(election, proxies@),
                depool_terms(*app, until_elections_end),
            ),
    {
        let seen: Sighting = match election {
            Some(current) => match current.member {
                Some(member) => Sighting::Registered {
                    ours: depool_has_source(proxies, &member.src_addr),
                },
                None => Sighting::Unregistered,
            },
            None => Sighting::Unregistered,
        };
        let terms: ConfirmTerms = ConfirmTerms {
            attempts: app.confirmation_attempts,
            interval_secs: app.confirmation_interval(),
            wait_secs: boundary_wait_secs(until_elections_end),
            foreign: Error::ForeignProxySource,
            timeout: Error::NotRegisteredByDepool,
        };
        self.next(seen, &terms)
    }
}

/// Where a confirmation stands after several looks: it goes on only while nothing was seen and
/// looks are left, and it ends with the first look that shows the validator key.
pub open spec fn confirmation_outcome(seen: Seq<Sighting>, terms: ConfirmTerms) -> Confirmation {
    if exists|i: int|
        0 <= i < seen.len() && i < at_least_once(terms.attempts) && registered_first_at(seen, i) {
        let i = choose|i: int|
            0 <= i < seen.len() && i < at_least_once(terms.attempts) && registered_first_at(seen, i);
        if seen[i] == (Sighting::Registered { ours: true }) {
            Confirmation::Confirmed { wait_secs: terms.wait_secs }
        } else {
            Confirmation::Failed { error: terms.foreign }
        }
    } else if seen.len() >= at_least_once(terms.attempts) {
        Confirmation::Failed { error: terms.timeout }
    } else {
        Confirmation::Look {
            attempt: (seen.len() + 1) as usize,
            pause_secs: if seen.len() == 0 {
                0
            } else {
                terms.interval_secs
            },
        }
    }
}

/// Whether the validator key shows up in look `i`, and in none before.
pub open spec fn registered_first_at(seen: Seq<Sighting>, i: int) -> bool {
    &&& 0 <= i < seen.len()
    &&& seen[i] is Registered
    &&& forall|j: int| 0 <= j < i ==> #[trigger] seen[j] is Unregistered
}

proof fn lemma_registered_first_unique(seen: Seq<Sighting>, i: int, j: int)
    requires
        registered_first_at(seen, i),
        registered_first_at(seen, j),
    ensures
        i == j,
{
    if i < j {
        assert(seen[i] is Unregistered);
    } else if j < i {
        assert(seen[j] is Unregistered);
    }
}

/// A confirmation looks as often as configured, at least once. It is given to the request that the
/// first look with the validator key shows to be ours, and to no other.
pub proof fn law_confirmation_outcome(seen: Seq<Sighting>, terms: ConfirmTerms)
    ensures
        Confirmation::begun().after_all(seen, terms) == confirmation_outcome(seen, terms),
    decreases seen.len(),
{
    if seen.len() > 0 {
        let init = seen.drop_last();
        let last = seen.len() - 1;
        let limit = at_least_once(terms.attempts);
        law_confirmation_outcome(init, terms);
        if exists|i: int| 0 <= i < init.len() && i < limit && registered_first_at(init, i) {
            let i = choose|i: int| 0 <= i < init.len() && i < limit && registered_first_at(init, i);
            assert forall|j: int| 0 <= j < i implies #[trigger] seen[j] is Unregistered by {
                assert(init[j] is Unregistered);
            }
            assert(seen[i] == init[i]);
            assert(registered_first_at(seen, i));
            let k = choose|k: int| 0 <= k < seen.len() && k < limit && registered_first_at(seen, k);
            lemma_registered_first_unique(seen, i, k);
        } else {
            lemma_unregistered_before(init, limit as int);
            if last < limit {
                assert forall|j: int| 0 <= j < last implies #[trigger] seen[j] is Unregistered by {
                    assert(init[j] is Unregistered);
                }
                if seen[last] is Registered {
                    assert(registered_first_at(seen, last));
                    let k = choose|k: int|
                        0 <= k < seen.len() && k < limit && registered_first_at(seen, k);
                    lemma_registered_first_unique(seen, last, k);
                }
            } else {
                assert forall|i: int| 0 <= i < seen.len() && i < limit implies !registered_first_at(
                    seen,
                    i,
                ) by {
                    assert(init[i] is Unregistered);
                    assert(seen[i] == init[i]);
                }
            }
            if last < limit && seen[last] is Unregistered {
                assert forall|i: int| 0 <= i < seen.len() && i < limit implies !registered_first_at(
                    seen,
                    i,
                ) by {
                    if i < last {
                        assert(init[i] is Unregistered);
                        assert(seen[i] == init[i]);
                    }
                }
            }
        }
    }
}

/// Without a first registered look below the limit, every look below it shows nothing.
proof fn lemma_unregistered_before(seen: Seq<Sighting>, limit: int)
    requires
        !exists|i: int| 0 <= i < seen.len() && i < limit && registered_first_at(seen, i),
    ensures
        forall|i: int| 0 <= i < seen.len() && i < limit ==> #[trigger] seen[i] is Unregistered,
{
    assert forall|i: int| 0 <= i < seen.len() && i < limit implies #[trigger] seen[i] is Unregistered by {
        lemma_unregistered_at(seen, limit, i);
    }
}

proof fn lemma_unregistered_at(seen: Seq<Sighting>, limit: int, i: int)
    requires
        !exists|k: int| 0 <= k < seen.len() && k < limit && registered_first_at(seen, k),
        0 <= i < seen.len(),
        i < limit,
    ensures
        seen[i] is Unregistered,
    decreases i,
{
    if seen[i] is Registered {
        assert forall|j: int| 0 <= j < i implies #[trigger] seen[j] is Unregistered by {
            lemma_unregistered_at(seen, limit, j);
        }
        assert(registered_first_at(seen, i));
    }
}

/// A confirmation comes to an end after as many looks as configured.
pub proof fn law_confirmation_ends(seen: Seq<Sighting>, terms: ConfirmTerms)
    requires
        seen.len() >= at_least_once(terms.attempts),
    ensures
        !(Confirmation::begun().after_all(seen, terms) is Look),
{
    law_confirmation_outcome(seen, terms);
}

/// A message that got out is not sent again, and every attempt after the first comes a second after
/// the one before.
pub proof fn law_sending_stops_once_sent(n: nat, retry: usize)
    ensures
        Sending::begun() == (Sending::Send { attempt: 0, pause_secs: 0 }),
        n < retry || n == 0 ==> Sending::begun().after_failures(n, retry).after(true, retry)
            is Sent,
        0 < n < retry ==> Sending::begun().after_failures(n, retry) == (Sending::Send {
            attempt: n as usize,
            pause_secs: 1,
        }),
        Sending::Sent.after(true, retry) is Sent,
        Sending::Sent.after(false, retry) is Sent,
        Sending::GaveUp.after(true, retry) is GaveUp,
    decreases n,
{
    if n < at_least_once(retry) {
        lemma_sending_counts_failures(n, retry);
    }
    if n > 0 {
        law_sending_stops_once_sent((n - 1) as nat, retry);
        if n < retry {
            lemma_sending_counts_failures((n - 1) as nat, retry);
        }
    }
}

/// A look at an election with our entry confirms a simple request that came from the wallet, at
/// every attempt, and refuses any other.
pub proof fn law_own_entry_confirms_simple_request(
    attempt: usize,
    pause_secs: u64,
    elect_at: u32,
    member: Member,
    wallet: HashBytes,
    app: AppConfig,
    until_elections_end: u32,
)
    ensures
        ({
            let election = Some(CurrentElection { elect_at, member: Some(member) });
            let next = (Confirmation::Look { attempt, pause_secs }).after(
                simple_sighting(election, wallet),
                simple_terms(app, until_elections_end),
            );
            if member.src_addr@ == wallet@ {
                next matches Confirmation::Confirmed { wait_secs } && wait_secs
                    >= until_elections_end && wait_secs >= 5 && (wait_secs == until_elections_end
                    || wait_secs == 5)
            } else {
                next == (Confirmation::Failed { error: Error::ForeignWalletSource })
            }
        }),
{
}

/// A look at an election with our entry confirms a request through a DePool that came from one of
/// its proxies, at every attempt, and refuses any other.
pub proof fn law_own_entry_confirms_depool_request(
    attempt: usize,
    pause_secs: u64,
    elect_at: u32,
    member: Member,
    proxies: Seq<StdAddr>,
    app: AppConfig,
    until_elections_end: u32,
)
    ensures
        ({
            let election = Some(CurrentElection { elect_at, member: Some(member) });
            let next = (Confirmation::Look { attempt, pause_secs }).after(
                depool_sighting(election, proxies),
                depool_terms(app, until_elections_end),
            );
            if exists|i: int|
                0 <= i < proxies.len() && (#[trigger] proxies[i]).address@ == member.src_addr@ {
                next matches Confirmation::Confirmed { wait_secs } && wait_secs
                    >= until_elections_end && wait_secs >= 5 && (wait_secs == until_elections_end
                    || wait_secs == 5)
            } else {
                next == (Confirmation::Failed { error: Error::ForeignProxySource })
            }
        }),
{
}

/// Without our entry, or without an election, a confirmation looks again after the configured
/// interval, and gives up after as many looks as configured, at least one.
pub proof fn law_missing_entry_is_looked_for_again(
    attempt: usize,
    pause_secs: u64,
    elect_at: u32,
    wallet: HashBytes,
    proxies: Seq<StdAddr>,
    app: AppConfig,
    until_elections_end: u32,
)
    requires
        1 <= attempt,
    ensures
        ({
            let look = Confirmation::Look { attempt, pause_secs };
            let empty = Some(CurrentElection { elect_at, member: None });
            let simple = simple_terms(app, until_elections_end);
            let depool = depool_terms(app, until_elections_end);
            if attempt < app.confirmation_attempts {
                let again = Confirmation::Look {
                    attempt: (attempt + 1) as usize,
                    pause_secs: app.confirmation_interval_secs,
                };
                &&& look.after(simple_sighting(empty, wallet), simple) == again
                &&& look.after(simple_sighting(None, wallet), simple) == again
                &&& look.after(depool_sighting(empty, proxies), depool) == again
                &&& look.after(depool_sighting(None, proxies), depool) == again
            } else {
                let late = Confirmation::Failed { error: Error::NotRegistered };
                let depool_late = Confirmation::Failed { error: Error::NotRegisteredByDepool };
                &&& look.after(simple_sighting(empty, wallet), simple) == late
                &&& look.after(simple_sighting(None, wallet), simple) == late
                &&& look.after(depool_sighting(empty, proxies), depool) == depool_late
                &&& look.after(depool_sighting(None, proxies), depool) == depool_late
            }
        }),
{
}

/// A confirmation that has ended stays as it is.
pub proof fn law_ended_confirmation_stays(state: Confirmation, seen: Sighting, terms: ConfirmTerms)
    ensures
        !(state is Look) ==> state.after(seen, terms) == state,
        Confirmation::begun() == (Confirmation::Look { attempt: 1, pause_secs: 0 }),
{
}

} // verus!
