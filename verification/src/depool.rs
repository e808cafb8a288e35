//! What a DePool looks like from outside, and which of its rounds matters.

use crate::address::{HashBytes, StdAddr};
use crate::config::DepoolRuntimeConfig;
use crate::error::Error;
use crate::text::{decimal, decimal_text};
use vstd::prelude::*;

verus! {

/// The step of a round that takes stakes.
pub const DEPOOL_ROUND_STEP_POOLING: u8 = 1;

/// The step of a round that waits for the validator's request.
pub const DEPOOL_ROUND_STEP_WAITING_VALIDATOR_REQUEST: u8 = 2;

/// The completion reason of a round that takes no part in an election.
pub const DEPOOL_COMPLETION_REASON_FAKE_ROUND: u8 = 2;

/// One round of a DePool.
#[derive(Clone, Copy, Debug, PartialEq, Eq, Structural)]
pub struct DePoolRound {
    pub id: u64,
    pub supposed_elected_at: u32,
    pub step: u8,
    pub completion_reason: u8,
    pub stake: u64,
    pub validator_stake: u64,
}

/// What a participant holds in one round.
#[derive(Clone, Copy, Debug, PartialEq, Eq, Structural)]
pub struct DePoolParticipantRound {
    pub round_id: u64,
    pub total: u64,
}

/// What a participant holds.
#[derive(Clone, Debug)]
pub struct DePoolParticipant {
    pub total_round_stake: u128,
    pub rounds: Vec<DePoolParticipantRound>,
}

/// A DePool at one moment.
#[derive(Clone, Debug)]
pub struct DePoolState {
    pub active: bool,
    pub account_balance: u128,
    pub own_balance: i128,
    pub min_stake: u64,
    pub validator_assurance: u64,
    pub validator_wallet: Option<StdAddr>,
    pub rounds: Vec<DePoolRound>,
    pub proxies: Vec<StdAddr>,
}

/// The round to take into an election, and the proxy that speaks for it.
#[derive(Clone, Copy, Debug, PartialEq, Eq)]
pub struct ReadyDePoolRound {
    pub id: u64,
    pub step: u8,
    pub completion_reason: u8,
    pub supposed_elected_at: u32,
    pub proxy: StdAddr,
    pub stake: u64,
    pub validator_stake: u64,
}

/// What a participant has in the rounds that count for the next election.
#[derive(Clone, Debug, PartialEq, Eq)]
pub struct DePoolRoundStake {
    pub current: u128,
    pub rounds_label: String,
}

/// The first round for which `wanted` holds.
pub open spec fn first_round(rounds: Seq<DePoolRound>, wanted: spec_fn(DePoolRound) -> bool) -> Option<
    DePoolRound,
>
    decreases rounds.len(),
{
    if rounds.len() == 0 {
        None
    } else if wanted(rounds[0]) {
        Some(rounds[0])
    } else {
        first_round(rounds.drop_first(), wanted)
    }
}

/// What `first_round` finds: a round that is wanted, behind none that is.
pub proof fn lemma_first_round(rounds: Seq<DePoolRound>, wanted: spec_fn(DePoolRound) -> bool)
    ensures
        match first_round(rounds, wanted) {
            Some(round) => wanted(round) && exists|i: int|
                0 <= i < rounds.len() && #[trigger] rounds[i] == round && forall|j: int|
                    0 <= j < i ==> !wanted(#[trigger] rounds[j]),
            None => forall|i: int| 0 <= i < rounds.len() ==> !wanted(#[trigger] rounds[i]),
        },
    decreases rounds.len(),
{
    if rounds.len() > 0 {
        if wanted(rounds[0]) {
            assert(rounds[0] == first_round(rounds, wanted)->Some_0);
        } else {
            let rest = rounds.drop_first();
            lemma_first_round(rest, wanted);
            match first_round(rest, wanted) {
                Some(round) => {
                    let k = choose|i: int|
                        0 <= i < rest.len() && #[trigger] rest[i] == round && forall|j: int|
                            0 <= j < i ==> !wanted(#[trigger] rest[j]);
                    assert(rounds[k + 1] == round);
                    assert forall|j: int| 0 <= j < k + 1 implies !wanted(#[trigger] rounds[j]) by {
                        if j > 0 {
                            assert(rest[j - 1] == rounds[j]);
                        }
                    }
                },
                None => {
                    assert forall|i: int| 0 <= i < rounds.len() implies !wanted(
                        #[trigger] rounds[i],
                    ) by {
                        if i > 0 {
                            assert(rest[i - 1] == rounds[i]);
                        }
                    }
                },
            }
        }
    }
}

/// One step of a search for the first wanted round.
proof fn lemma_first_round_step(
    rounds: Seq<DePoolRound>,
    wanted: spec_fn(DePoolRound) -> bool,
    i: int,
)
    requires
        0 <= i < rounds.len(),
    ensures
        first_round(rounds.skip(i), wanted) == if wanted(rounds[i]) {
            Some(rounds[i])
        } else {
            first_round(rounds.skip(i + 1), wanted)
        },
{
    assert(rounds.skip(i).drop_first() =~= rounds.skip(i + 1));
}

/// The round that stands for an election and holds enough.
pub open spec fn elected_round(election_id: u32, required: u64) -> spec_fn(DePoolRound) -> bool {
    |round: DePoolRound| round.supposed_elected_at == election_id && round.stake >= required
}

/// A round that takes stakes and holds enough.
pub open spec fn funded_pooling_round(required: u64) -> spec_fn(DePoolRound) -> bool {
    |round: DePoolRound| round.step == DEPOOL_ROUND_STEP_POOLING && round.stake >= required
}

/// A round that takes stakes.
pub open spec fn pooling_round() -> spec_fn(DePoolRound) -> bool {
    |round: DePoolRound| round.step == DEPOOL_ROUND_STEP_POOLING
}

/// A round of an election that waits for the validator's request.
pub open spec fn waiting_round(election_id: u32) -> spec_fn(DePoolRound) -> bool {
    |round: DePoolRound|
        round.supposed_elected_at == election_id && round.step
            == DEPOOL_ROUND_STEP_WAITING_VALIDATOR_REQUEST
}

/// The round to take into the election: the one that stands for it, else one that takes stakes.
pub open spec fn target_round(
    rounds: Seq<DePoolRound>,
    required: u64,
    election_id: u32,
) -> Option<DePoolRound> {
    match first_round(rounds, elected_round(election_id, required)) {
        Some(round) => Some(round),
        None => first_round(rounds, funded_pooling_round(required)),
    }
}

/// The proxy of a round: proxies take turns.
pub open spec fn proxy_of(id: u64, proxies: Seq<StdAddr>) -> StdAddr {
    proxies[(id as usize) as int % proxies.len() as int]
}

/// A round together with its proxy.
pub open spec fn with_proxy(round: DePoolRound, proxies: Seq<StdAddr>) -> ReadyDePoolRound {
    ReadyDePoolRound {
        id: round.id,
        step: round.step,
        completion_reason: round.completion_reason,
        supposed_elected_at: round.supposed_elected_at,
        proxy: proxy_of(round.id, proxies),
        stake: round.stake,
        validator_stake: round.validator_stake,
    }
}

/// The selection of a round and its proxy.
pub open spec fn target_selection(
    rounds: Seq<DePoolRound>,
    proxies: Seq<StdAddr>,
    required: u64,
    election_id: u32,
) -> Result<Option<ReadyDePoolRound>, Error> {
    if proxies.len() == 0 {
        Err(Error::NoProxies)
    } else {
        match target_round(rounds, required, election_id) {
            None => Ok(None),
            Some(round) => Ok(Some(with_proxy(round, proxies))),
        }
    }
}

fn find_elected_round(rounds: &[DePoolRound], election_id: u32, required: u64) -> (r: Option<
    DePoolRound,
>)
    ensures
        r == first_round(rounds@, elected_round(election_id, required)),
{
    let mut i: usize = 0;
    let ghost wanted = elected_round(election_id, required);
    assert(rounds@.skip(0) =~= rounds@);
    while i < rounds.len()
        invariant
            i <= rounds@.len(),
            wanted == elected_round(election_id, required),
            first_round(rounds@, wanted) == first_round(rounds@.skip(i as int), wanted),
        decreases rounds@.len() - i,
    {
        proof {
            lemma_first_round_step(rounds@, wanted, i as int);
        }
        if rounds[i].supposed_elected_at == election_id && rounds[i].stake >= required {
            return Some(rounds[i]);
        }
        i = i + 1;
    }
    None
}

fn find_funded_pooling_round(rounds: &[DePoolRound], required: u64) -> (r: Option<DePoolRound>)
    ensures
        r == first_round(rounds@, funded_pooling_round(required)),
{
    let mut i: usize = 0;
    let ghost wanted = funded_pooling_round(required);
    assert(rounds@.skip(0) =~= rounds@);
    while i < rounds.len()
        invariant
            i <= rounds@.len(),
            wanted == funded_pooling_round(required),
            first_round(rounds@, wanted) == first_round(rounds@.skip(i as int), wanted),
        decreases rounds@.len() - i,
    {
        proof {
            lemma_first_round_step(rounds@, wanted, i as int);
        }
        if rounds[i].step == DEPOOL_ROUND_STEP_POOLING && rounds[i].stake >= required {
            return Some(rounds[i]);
        }
        i = i + 1;
    }
    None
}

fn find_pooling_round(rounds: &[DePoolRound]) -> (r: Option<DePoolRound>)
    ensures
        r == first_round(rounds@, pooling_round()),
{
    let mut i: usize = 0;
    let ghost wanted = pooling_round();
    assert(rounds@.skip(0) =~= rounds@);
    while i < rounds.len()
        invariant
            i <= rounds@.len(),
            wanted == pooling_round(),
            first_round(rounds@, wanted) == first_round(rounds@.skip(i as int), wanted),
        decreases rounds@.len() - i,
    {
        proof {
            lemma_first_round_step(rounds@, wanted, i as int);
        }
        if rounds[i].step == DEPOOL_ROUND_STEP_POOLING {
            return Some(rounds[i]);
        }
        i = i + 1;
    }
    None
}

fn pick_proxy(id: u64, proxies: &[StdAddr]) -> (r: StdAddr)
    requires
        proxies@.len() > 0,
    ensures
        r == proxy_of(id, proxies@),
{
    let turn: usize = (id as usize) % proxies.len();
    proxies[turn]
}

/// Selects the round to take into the election `election_id`.
///
/// The first round that stands for this election and holds `required_stake` goes first. Without
/// one, the first round that takes stakes and holds as much is the candidate.
pub fn select_target_depool_round_from_state(
    rounds: &[DePoolRound],
    proxies: &[StdAddr],
    required_stake: u64,
    election_id: u32,
) -> (r: Result<Option<ReadyDePoolRound>, Error>)
    ensures
        r == target_selection(rounds@, proxies@, required_stake, election_id),
{
    if proxies.len() == 0 {
        return Err(Error::NoProxies);
    }
    let found: Option<DePoolRound> = match find_elected_round(rounds, election_id, required_stake) {
        Some(round) => Some(round),
        None => find_funded_pooling_round(rounds, required_stake),
    };
    match found {
        None => Ok(None),
        Some(round) => Ok(
            Some(
                ReadyDePoolRound {
                    id: round.id,
                    step: round.step,
                    completion_reason: round.completion_reason,
                    supposed_elected_at: round.supposed_elected_at,
                    proxy: pick_proxy(round.id, proxies),
                    stake: round.stake,
                    validator_stake: round.validator_stake,
                },
            ),
        ),
    }
}

/// Selects the round of a DePool to take into the election `election_id`.
pub fn select_target_depool_round(depool: &DePoolState, required_stake: u64, election_id: u32) -> (r:
    Result<Option<ReadyDePoolRound>, Error>)
    ensures
        r == target_selection(depool.rounds@, depool.proxies@, required_stake, election_id),
{
    select_target_depool_round_from_state(
        depool.rounds.as_slice(),
        depool.proxies.as_slice(),
        required_stake,
        election_id,
    )
}

/// The selection of a round that waits for the validator's request.
pub open spec fn ready_selection(
    rounds: Seq<DePoolRound>,
    proxies: Seq<StdAddr>,
    election_id: u32,
) -> Result<Option<(u64, StdAddr)>, Error> {
    if proxies.len() == 0 {
        Err(Error::NoProxies)
    } else {
        match first_round(rounds, waiting_round(election_id)) {
            None => Ok(None),
            Some(round) => Ok(Some((round.id, proxy_of(round.id, proxies)))),
        }
    }
}

/// Selects the first round of the election that waits for the validator's request, whatever it
/// holds.
pub fn select_ready_depool_round(depool: &DePoolState, election_id: u32) -> (r: Result<
    Option<(u64, StdAddr)>,
    Error,
>)
    ensures
        r == ready_selection(depool.rounds@, depool.proxies@, election_id),
{
    if depool.proxies.len() == 0 {
        return Err(Error::NoProxies);
    }
    let rounds: &[DePoolRound] = depool.rounds.as_slice();
    let mut i: usize = 0;
    let ghost wanted = waiting_round(election_id);
    assert(rounds@.skip(0) =~= rounds@);
    while i < rounds.len()
        invariant
            i <= rounds@.len(),
            rounds@ == depool.rounds@,
            depool.proxies@.len() > 0,
            wanted == waiting_round(election_id),
            first_round(rounds@, wanted) == first_round(rounds@.skip(i as int), wanted),
        decreases rounds@.len() - i,
    {
        proof {
            lemma_first_round_step(rounds@, wanted, i as int);
        }
        if rounds[i].supposed_elected_at == election_id && rounds[i].step
            == DEPOOL_ROUND_STEP_WAITING_VALIDATOR_REQUEST {
            return Ok(Some((rounds[i].id, pick_proxy(rounds[i].id, depool.proxies.as_slice()))));
        }
        i = i + 1;
    }
    Ok(None)
}

/// What a participant holds in the round `id`: the first entry of that round counts.
pub open spec fn stake_in_round(rounds: Seq<DePoolParticipantRound>, id: u64) -> u128
    decreases rounds.len(),
{
    if rounds.len() == 0 {
        0
    } else if rounds[0].round_id == id {
        rounds[0].total as u128
    } else {
        stake_in_round(rounds.drop_first(), id)
    }
}

/// What somebody who may be no participant holds in the round `id`.
pub open spec fn held_in_round(participant: Option<&DePoolParticipant>, id: u64) -> u128 {
    match participant {
        Some(p) => stake_in_round(p.rounds@, id),
        None => 0,
    }
}

proof fn lemma_stake_in_round_bound(rounds: Seq<DePoolParticipantRound>, id: u64)
    ensures
        stake_in_round(rounds, id) <= u64::MAX,
    decreases rounds.len(),
{
    if rounds.len() > 0 && rounds[0].round_id != id {
        lemma_stake_in_round_bound(rounds.drop_first(), id);
    }
}

/// What a participant holds in one round.
pub fn participant_round_stake(participant: Option<&DePoolParticipant>, round_id: u64) -> (r: u128)
    ensures
        r == held_in_round(participant, round_id),
        r <= u64::MAX,
{
    match participant {
        None => 0,
        Some(p) => {
            let mut i: usize = 0;
            assert(p.rounds@.skip(0) =~= p.rounds@);
            proof {
                lemma_stake_in_round_bound(p.rounds@, round_id);
            }
            while i < p.rounds.len()
                invariant
                    i <= p.rounds@.len(),
                    participant == Some(p),
                    stake_in_round(p.rounds@, round_id) == stake_in_round(
                        p.rounds@.skip(i as int),
                        round_id,
                    ),
                    stake_in_round(p.rounds@, round_id) <= u64::MAX,
                decreases p.rounds@.len() - i,
            {
                assert(p.rounds@.skip(i as int).drop_first() =~= p.rounds@.skip(i + 1));
                if p.rounds[i].round_id == round_id {
                    return p.rounds[i].total as u128;
                }
                i = i + 1;
            }
            0
        },
    }
}

/// The round that the next stake goes to: the first that takes stakes, else the third.
pub open spec fn staking_round(rounds: Seq<DePoolRound>) -> DePoolRound {
    match first_round(rounds, pooling_round()) {
        Some(round) => round,
        None => rounds[2],
    }
}

/// What counts towards the next election: the stake in the round that takes stakes and in the
/// oldest one. Before there are three rounds, all stake counts.
pub open spec fn counted_stake(
    rounds: Seq<DePoolRound>,
    participant: Option<&DePoolParticipant>,
) -> int {
    if rounds.len() >= 3 {
        held_in_round(participant, staking_round(rounds).id) + held_in_round(
            participant,
            rounds[0].id,
        )
    } else {
        match participant {
            Some(p) => p.total_round_stake as int,
            None => 0,
        }
    }
}

/// The rounds that were counted.
pub open spec fn counted_label(rounds: Seq<DePoolRound>) -> Seq<char> {
    if rounds.len() >= 3 {
        "pooling:"@ + decimal_text(staking_round(rounds).id as int) + "+prev:"@ + decimal_text(
            rounds[0].id as int,
        )
    } else {
        "all"@
    }
}

/// What counts is never negative, and fits an amount.
pub proof fn lemma_counted_stake_is_an_amount(
    rounds: Seq<DePoolRound>,
    participant: Option<&DePoolParticipant>,
)
    ensures
        0 <= counted_stake(rounds, participant) <= u128::MAX,
{
    if rounds.len() >= 3 && participant is Some {
        lemma_stake_in_round_bound(participant->Some_0.rounds@, staking_round(rounds).id);
        lemma_stake_in_round_bound(participant->Some_0.rounds@, rounds[0].id);
    }
}

/// Counts what a participant holds towards the next election.
pub fn depool_pooling_round_stake_from_state(
    rounds: &[DePoolRound],
    participant: Option<&DePoolParticipant>,
) -> (r: DePoolRoundStake)
    ensures
        r.current == counted_stake(rounds@, participant),
        r.rounds_label@ == counted_label(rounds@),
{
    if rounds.len() >= 3 {
        let target: DePoolRound = match find_pooling_round(rounds) {
            Some(round) => round,
            None => rounds[2],
        };
        let current: u128 = participant_round_stake(participant, target.id)
            + participant_round_stake(participant, rounds[0].id);
        return DePoolRoundStake {
            current,
            rounds_label: "pooling:".to_owned().concat(decimal(target.id as u128).as_str()).concat(
                "+prev:",
            ).concat(decimal(rounds[0].id as u128).as_str()),
        };
    }
    DePoolRoundStake {
        current: match participant {
            Some(p) => p.total_round_stake,
            None => 0,
        },
        rounds_label: "all".to_owned(),
    }
}

/// Counts what a participant of a DePool holds towards the next election.
pub fn depool_pooling_round_stake(
    depool: &DePoolState,
    participant: Option<&DePoolParticipant>,
) -> (r: DePoolRoundStake)
    ensures
        r.current == counted_stake(depool.rounds@, participant),
        r.rounds_label@ == counted_label(depool.rounds@),
{
    depool_pooling_round_stake_from_state(depool.rounds.as_slice(), participant)
}

pub open spec fn larger(a: u64, b: u64) -> u64 {
    if a >= b {
        a
    } else {
        b
    }
}

/// The stake that the validator has to hold: the largest of what the DePool asks as assurance,
/// what it takes at least, and what the configuration of a new one says.
pub open spec fn required_stake(depool: DePoolState, config: DepoolRuntimeConfig) -> Result<
    u64,
    Error,
> {
    match config.assurance() {
        Err(e) => Err(e),
        Ok(assurance) => Ok(
            larger(larger(depool.validator_assurance, depool.min_stake), assurance),
        ),
    }
}

/// The stake that the validator of a DePool has to hold.
pub fn required_depool_stake(depool: &DePoolState, config: &DepoolRuntimeConfig) -> (r: Result<
    u64,
    Error,
>)
    ensures
        r == required_stake(*depool, *config),
{
    let assurance: u64 = match config.new_validator_assurance_nano() {
        Ok(v) => v,
        Err(e) => {
            return Err(e);
        },
    };
    let own: u64 = if depool.validator_assurance >= depool.min_stake {
        depool.validator_assurance
    } else {
        depool.min_stake
    };
    Ok(
        if own >= assurance {
            own
        } else {
            assurance
        },
    )
}

/// Whether one of the proxies has the address `source`.
pub open spec fn has_source(proxies: Seq<StdAddr>, source: Seq<u8>) -> bool {
    exists|i: int| 0 <= i < proxies.len() && (#[trigger] proxies[i]).address@ == source
}

/// Whether `source` is one of the proxies.
pub fn depool_has_source(proxies: &[StdAddr], source: &HashBytes) -> (r: bool)
    ensures
        r == has_source(proxies@, source@),
{
    let mut i: usize = 0;
    while i < proxies.len()
        invariant
            i <= proxies@.len(),
            forall|j: int| 0 <= j < i ==> (#[trigger] proxies@[j]).address@ != source@,
        decreases proxies@.len() - i,
    {
        if proxies[i].address.same(source) {
            return true;
        }
        i = i + 1;
    }
    false
}

/// One round in a log line.
pub open spec fn round_text(round: DePoolRound) -> Seq<char> {
    "{id="@ + decimal_text(round.id as int) + ", supposed_elected_at="@ + decimal_text(
        round.supposed_elected_at as int,
    ) + ", step="@ + decimal_text(round.step as int) + ", stake="@ + decimal_text(
        round.stake as int,
    ) + ", validator_stake="@ + decimal_text(round.validator_stake as int) + "}"@
}

/// Rounds one after the other, with a comma between two.
pub open spec fn rounds_text(rounds: Seq<DePoolRound>) -> Seq<char>
    decreases rounds.len(),
{
    if rounds.len() == 0 {
        Seq::empty()
    } else if rounds.len() == 1 {
        round_text(rounds[0])
    } else {
        rounds_text(rounds.drop_last()) + ", "@ + round_text(rounds.last())
    }
}

fn format_round(round: &DePoolRound) -> (r: String)
    ensures
        r@ == round_text(*round),
{
    "{id=".to_owned().concat(decimal(round.id as u128).as_str()).concat(
        ", supposed_elected_at=",
    ).concat(decimal(round.supposed_elected_at as u128).as_str()).concat(", step=").concat(
        decimal(round.step as u128).as_str(),
    ).concat(", stake=").concat(decimal(round.stake as u128).as_str()).concat(
        ", validator_stake=",
    ).concat(decimal(round.validator_stake as u128).as_str()).concat("}")
}

/// The rounds of a DePool in a log line.
pub fn format_depool_rounds(rounds: &[DePoolRound]) -> (r: String)
    ensures
        r@ == if rounds@.len() == 0 {
            "none"@
        } else {
            rounds_text(rounds@)
        },
{
    if rounds.len() == 0 {
        return "none".to_owned();
    }
    let mut text: String = format_round(&rounds[0]);
    let mut i: usize = 1;
    assert(rounds@.take(1)[0] == rounds@[0]);
    while i < rounds.len()
        invariant
            1 <= i <= rounds@.len(),
            text@ == rounds_text(rounds@.take(i as int)),
        decreases rounds@.len() - i,
    {
        let ghost longer = rounds@.take(i + 1);
        assert(longer.drop_last() =~= rounds@.take(i as int));
        text.append(", ");
        text.append(format_round(&rounds[i]).as_str());
        i = i + 1;
    }
    assert(rounds@.take(rounds@.len() as int) =~= rounds@);
    text
}

/// A selected round holds the required stake. It stands for the election, or it takes stakes and
/// no round that stands for the election holds enough.
pub proof fn law_selected_round_is_funded(
    rounds: Seq<DePoolRound>,
    proxies: Seq<StdAddr>,
    required: u64,
    election_id: u32,
)
    requires
        target_selection(rounds, proxies, required, election_id) matches Ok(Some(_)),
    ensures
        ({
            let selected = target_selection(rounds, proxies, required, election_id)->Ok_0->Some_0;
            &&& selected.stake >= required
            &&& selected.supposed_elected_at == election_id || {
                &&& selected.step == DEPOOL_ROUND_STEP_POOLING
                &&& forall|i: int|
                    0 <= i < rounds.len() && (#[trigger] rounds[i]).supposed_elected_at
                        == election_id ==> rounds[i].stake < required
            }
        }),
{
    lemma_first_round(rounds, elected_round(election_id, required));
    lemma_first_round(rounds, funded_pooling_round(required));
    if first_round(rounds, elected_round(election_id, required)) is None {
        assert forall|i: int|
            0 <= i < rounds.len() && (#[trigger] rounds[i]).supposed_elected_at
                == election_id implies rounds[i].stake < required by {
            assert(!elected_round(election_id, required)(rounds[i]));
        }
    }
}

/// A round is selected whenever one could be: nothing is selected only where no round of the
/// election and no round that takes stakes holds enough.
pub proof fn law_selection_misses_nothing(
    rounds: Seq<DePoolRound>,
    proxies: Seq<StdAddr>,
    required: u64,
    election_id: u32,
)
    requires
        proxies.len() > 0,
    ensures
        target_selection(rounds, proxies, required, election_id) == Ok::<
            Option<ReadyDePoolRound>,
            Error,
        >(None) <==> forall|i: int|
            0 <= i < rounds.len() && ((#[trigger] rounds[i]).supposed_elected_at == election_id
                || rounds[i].step == DEPOOL_ROUND_STEP_POOLING) ==> rounds[i].stake < required,
{
    let elected = elected_round(election_id, required);
    let pooling = funded_pooling_round(required);
    lemma_first_round(rounds, elected);
    lemma_first_round(rounds, pooling);
    if target_round(rounds, required, election_id) is None {
        assert forall|i: int|
            0 <= i < rounds.len() && ((#[trigger] rounds[i]).supposed_elected_at == election_id
                || rounds[i].step == DEPOOL_ROUND_STEP_POOLING) implies rounds[i].stake
            < required by {
            assert(!elected(rounds[i]));
            assert(!pooling(rounds[i]));
        }
    }
}

/// The proxy of any round is one of the DePool's.
pub proof fn lemma_proxy_is_a_source(id: u64, proxies: Seq<StdAddr>)
    requires
        proxies.len() > 0,
    ensures
        has_source(proxies, proxy_of(id, proxies).address@),
{
    let turn = (id as usize) as int % proxies.len() as int;
    assert(0 <= turn < proxies.len()) by (nonlinear_arith)
        requires
            proxies.len() > 0,
            turn == (id as usize) as int % proxies.len() as int,
    ;
    assert(proxies[turn].address@ == proxy_of(id, proxies).address@);
}

/// The proxy of a selected round is one of the DePool's: what is sent through it counts as sent
/// by this DePool.
pub proof fn law_selected_proxy_is_a_source(
    rounds: Seq<DePoolRound>,
    proxies: Seq<StdAddr>,
    required: u64,
    election_id: u32,
)
    requires
        target_selection(rounds, proxies, required, election_id) matches Ok(Some(_)),
    ensures
        has_source(
            proxies,
            target_selection(rounds, proxies, required, election_id)->Ok_0->Some_0.proxy.address@,
        ),
{
    let id = target_round(rounds, required, election_id)->Some_0.id;
    lemma_proxy_is_a_source(id, proxies);
}

/// The required stake covers everything that asks for one.
pub proof fn law_required_stake_covers(depool: DePoolState, config: DepoolRuntimeConfig)
    requires
        required_stake(depool, config) is Ok,
    ensures
        required_stake(depool, config)->Ok_0 >= depool.validator_assurance,
        required_stake(depool, config)->Ok_0 >= depool.min_stake,
        required_stake(depool, config)->Ok_0 >= config.assurance()->Ok_0,
{
}

/// The first wanted round is the one that is wanted behind none that is.
proof fn lemma_first_is_found(
    rounds: Seq<DePoolRound>,
    wanted: spec_fn(DePoolRound) -> bool,
    i: int,
)
    requires
        0 <= i < rounds.len(),
        wanted(rounds[i]),
        forall|j: int| 0 <= j < i ==> !wanted(#[trigger] rounds[j]),
    ensures
        first_round(rounds, wanted) == Some(rounds[i]),
{
    lemma_first_round(rounds, wanted);
    let k = choose|k: int|
        0 <= k < rounds.len() && #[trigger] rounds[k] == first_round(rounds, wanted)->Some_0
            && forall|j: int| 0 <= j < k ==> !wanted(#[trigger] rounds[j]);
    if k < i {
        assert(!wanted(rounds[k]));
    } else if i < k {
        assert(!wanted(rounds[i]));
    }
}

/// The first round that stands for the election and holds enough is selected, whatever its step is
/// and whatever rounds take stakes. It is handed on as it is, with the proxy whose turn it is.
pub proof fn law_round_of_the_election_goes_first(
    rounds: Seq<DePoolRound>,
    proxies: Seq<StdAddr>,
    required: u64,
    election_id: u32,
    i: int,
)
    requires
        proxies.len() > 0,
        0 <= i < rounds.len(),
        rounds[i].supposed_elected_at == election_id,
        rounds[i].stake >= required,
        forall|j: int|
            0 <= j < i ==> (#[trigger] rounds[j]).supposed_elected_at != election_id
                || rounds[j].stake < required,
    ensures
        target_selection(rounds, proxies, required, election_id) matches Ok(Some(selected)) && {
            &&& selected.id == rounds[i].id
            &&& selected.step == rounds[i].step
            &&& selected.completion_reason == rounds[i].completion_reason
            &&& selected.supposed_elected_at == election_id
            &&& selected.stake == rounds[i].stake
            &&& selected.validator_stake == rounds[i].validator_stake
            &&& selected.proxy == proxies[(rounds[i].id as usize) as int % proxies.len() as int]
        },
{
    lemma_first_is_found(rounds, elected_round(election_id, required), i);
}

/// Where no round of the election holds enough, the first round that takes stakes and holds enough
/// is selected. It is handed on as it is, with the proxy whose turn it is.
pub proof fn law_pooling_round_goes_second(
    rounds: Seq<DePoolRound>,
    proxies: Seq<StdAddr>,
    required: u64,
    election_id: u32,
    i: int,
)
    requires
        proxies.len() > 0,
        forall|j: int|
            0 <= j < rounds.len() ==> (#[trigger] rounds[j]).supposed_elected_at != election_id
                || rounds[j].stake < required,
        0 <= i < rounds.len(),
        rounds[i].step == 1,
        rounds[i].stake >= required,
        forall|j: int|
            0 <= j < i ==> (#[trigger] rounds[j]).step != 1 || rounds[j].stake < required,
    ensures
        target_selection(rounds, proxies, required, election_id) matches Ok(Some(selected)) && {
            &&& selected.id == rounds[i].id
            &&& selected.step == 1
            &&& selected.completion_reason == rounds[i].completion_reason
            &&& selected.supposed_elected_at == rounds[i].supposed_elected_at
            &&& selected.stake == rounds[i].stake
            &&& selected.validator_stake == rounds[i].validator_stake
            &&& selected.proxy == proxies[(rounds[i].id as usize) as int % proxies.len() as int]
        },
{
    lemma_first_round(rounds, elected_round(election_id, required));
    lemma_first_is_found(rounds, funded_pooling_round(required), i);
}

/// The round that is ready is the first of the election that waits for the validator's request,
/// whatever it holds, with the proxy whose turn it is.
pub proof fn law_first_waiting_round_is_ready(
    rounds: Seq<DePoolRound>,
    proxies: Seq<StdAddr>,
    election_id: u32,
    i: int,
)
    requires
        proxies.len() > 0,
        0 <= i < rounds.len(),
        rounds[i].supposed_elected_at == election_id,
        rounds[i].step == 2,
        forall|j: int|
            0 <= j < i ==> (#[trigger] rounds[j]).supposed_elected_at != election_id
                || rounds[j].step != 2,
    ensures
        ready_selection(rounds, proxies, election_id) == Ok::<Option<(u64, StdAddr)>, Error>(
            Some(
                (
                    rounds[i].id,
                    proxies[(rounds[i].id as usize) as int % proxies.len() as int],
                ),
            ),
        ),
{
    lemma_first_is_found(rounds, waiting_round(election_id), i);
}

/// No round is ready where none of the election waits for the validator's request, and nothing is
/// selected without a proxy to speak for it.
pub proof fn law_nothing_is_ready_without_a_waiting_round(
    rounds: Seq<DePoolRound>,
    proxies: Seq<StdAddr>,
    required: u64,
    election_id: u32,
)
    ensures
        proxies.len() > 0 ==> (ready_selection(rounds, proxies, election_id) == Ok::<
            Option<(u64, StdAddr)>,
            Error,
        >(None) <==> forall|i: int|
            0 <= i < rounds.len() ==> (#[trigger] rounds[i]).supposed_elected_at != election_id
                || rounds[i].step != 2),
        ready_selection(rounds, proxies, election_id) is Err <==> proxies.len() == 0,
        target_selection(rounds, proxies, required, election_id) is Err <==> proxies.len() == 0,
        proxies.len() == 0 ==> ready_selection(rounds, proxies, election_id) == Err::<
            Option<(u64, StdAddr)>,
            Error,
        >(Error::NoProxies),
        proxies.len() == 0 ==> target_selection(rounds, proxies, required, election_id) == Err::<
            Option<ReadyDePoolRound>,
            Error,
        >(Error::NoProxies),
{
    let waiting = waiting_round(election_id);
    lemma_first_round(rounds, waiting);
    if first_round(rounds, waiting) is None {
        assert forall|i: int|
            0 <= i < rounds.len() implies (#[trigger] rounds[i]).supposed_elected_at != election_id
            || rounds[i].step != 2 by {
            assert(!waiting(rounds[i]));
        }
    }
}

/// Whether `total` is what the entries of a participant say of the round `id`: the first of them
/// for this round, or nothing where there is none.
pub open spec fn entries_say(
    entries: Seq<DePoolParticipantRound>,
    id: u64,
    total: int,
) -> bool {
    if forall|k: int| 0 <= k < entries.len() ==> (#[trigger] entries[k]).round_id != id {
        total == 0
    } else {
        exists|k: int| #[trigger] first_entry_at(entries, id, k) && entries[k].total == total
    }
}

/// Whether entry `k` is the first for the round `id`.
pub open spec fn first_entry_at(entries: Seq<DePoolParticipantRound>, id: u64, k: int) -> bool {
    &&& 0 <= k < entries.len()
    &&& entries[k].round_id == id
    &&& forall|j: int| 0 <= j < k ==> (#[trigger] entries[j]).round_id != id
}

proof fn lemma_entries_say_stake(entries: Seq<DePoolParticipantRound>, id: u64)
    ensures
        entries_say(entries, id, stake_in_round(entries, id) as int),
    decreases entries.len(),
{
    if entries.len() > 0 {
        if entries[0].round_id == id {
            assert(first_entry_at(entries, id, 0));
        } else {
            let rest = entries.drop_first();
            lemma_entries_say_stake(rest, id);
            if exists|k: int| #[trigger] first_entry_at(rest, id, k) {
                let k = choose|k: int| #[trigger]
                    first_entry_at(rest, id, k) && rest[k].total == stake_in_round(rest, id);
                assert(rest[k] == entries[k + 1]);
                assert forall|j: int| 0 <= j < k + 1 implies (#[trigger] entries[j]).round_id
                    != id by {
                    if j > 0 {
                        assert(rest[j - 1] == entries[j]);
                    }
                }
                assert(first_entry_at(entries, id, k + 1));
            } else {
                assert forall|k: int| 0 <= k < entries.len() implies (#[trigger] entries[k]).round_id
                    != id by {
                    if k > 0 {
                        assert(rest[k - 1] == entries[k]);
                    }
                }
            }
        }
    }
}

proof fn lemma_entries_say_one_thing(
    entries: Seq<DePoolParticipantRound>,
    id: u64,
    total: int,
    other: int,
)
    requires
        entries_say(entries, id, total),
        entries_say(entries, id, other),
    ensures
        total == other,
{
    if exists|k: int| 0 <= k < entries.len() && (#[trigger] entries[k]).round_id == id {
        let k = choose|k: int| #[trigger]
            first_entry_at(entries, id, k) && entries[k].total == total;
        let l = choose|l: int| #[trigger]
            first_entry_at(entries, id, l) && entries[l].total == other;
        if k < l {
            assert(entries[k].round_id != id);
        } else if l < k {
            assert(entries[l].round_id != id);
        }
    }
}

/// With three rounds or more, what counts is what the participant's entries say of the first round
/// that takes stakes (of the third round, where none does) and what they say of the oldest round.
/// The label names these two rounds. Somebody without entries has nothing that counts.
pub proof fn law_two_rounds_count(
    rounds: Seq<DePoolRound>,
    participant: &DePoolParticipant,
    t: int,
    staking: int,
    oldest: int,
)
    requires
        rounds.len() >= 3,
        0 <= t < rounds.len(),
        if forall|j: int| 0 <= j < rounds.len() ==> (#[trigger] rounds[j]).step != 1 {
            t == 2
        } else {
            rounds[t].step == 1 && forall|j: int| 0 <= j < t ==> (#[trigger] rounds[j]).step != 1
        },
        entries_say(participant.rounds@, rounds[t].id, staking),
        entries_say(participant.rounds@, rounds[0].id, oldest),
    ensures
        counted_stake(rounds, Some(participant)) == staking + oldest,
        counted_stake(rounds, None) == 0,
        counted_label(rounds) == "pooling:"@ + decimal_text(rounds[t].id as int) + "+prev:"@
            + decimal_text(rounds[0].id as int),
{
    lemma_first_round(rounds, pooling_round());
    if rounds[t].step == 1 {
        lemma_first_is_found(rounds, pooling_round(), t);
    }
    let entries = participant.rounds@;
    lemma_entries_say_stake(entries, rounds[t].id);
    lemma_entries_say_stake(entries, rounds[0].id);
    lemma_entries_say_one_thing(
        entries,
        rounds[t].id,
        staking,
        stake_in_round(entries, rounds[t].id) as int,
    );
    lemma_entries_say_one_thing(
        entries,
        rounds[0].id,
        oldest,
        stake_in_round(entries, rounds[0].id) as int,
    );
}

proof fn lemma_entry_of_another_round(
    before: Seq<DePoolParticipantRound>,
    entry: DePoolParticipantRound,
    behind: Seq<DePoolParticipantRound>,
    id: u64,
)
    requires
        entry.round_id != id,
    ensures
        stake_in_round(before.push(entry) + behind, id) == stake_in_round(before + behind, id),
    decreases before.len(),
{
    let with = before.push(entry) + behind;
    let without = before + behind;
    if before.len() == 0 {
        assert(with.drop_first() =~= without);
        assert(with[0] == entry);
    } else {
        assert(with.drop_first() =~= before.drop_first().push(entry) + behind);
        assert(without.drop_first() =~= before.drop_first() + behind);
        assert(with[0] == without[0]);
        lemma_entry_of_another_round(before.drop_first(), entry, behind, id);
    }
}

/// With three rounds or more, an entry for a round that neither takes stakes nor is the oldest or
/// the third does not change what counts, wherever it stands. Nor does the total of the participant.
pub proof fn law_other_rounds_do_not_count(
    rounds: Seq<DePoolRound>,
    before: Seq<DePoolParticipantRound>,
    entry: DePoolParticipantRound,
    behind: Seq<DePoolParticipantRound>,
    with: &DePoolParticipant,
    without: &DePoolParticipant,
)
    requires
        rounds.len() >= 3,
        with.rounds@ == before.push(entry) + behind,
        without.rounds@ == before + behind,
        forall|i: int|
            0 <= i < rounds.len() && (i == 0 || i == 2 || (#[trigger] rounds[i]).step == 1)
                ==> rounds[i].id != entry.round_id,
    ensures
        counted_stake(rounds, Some(with)) == counted_stake(rounds, Some(without)),
{
    lemma_first_round(rounds, pooling_round());
    assert(rounds[0].id != entry.round_id);
    assert(rounds[2].id != entry.round_id);
    if let Some(round) = first_round(rounds, pooling_round()) {
        let i = choose|i: int|
            0 <= i < rounds.len() && #[trigger] rounds[i] == round && forall|j: int|
                0 <= j < i ==> !pooling_round()(#[trigger] rounds[j]);
        assert(rounds[i].step == 1);
    }
    lemma_entry_of_another_round(before, entry, behind, staking_round(rounds).id);
    lemma_entry_of_another_round(before, entry, behind, rounds[0].id);
}

/// Before there are three rounds, all that a participant holds counts.
pub proof fn law_all_counts_at_first(rounds: Seq<DePoolRound>, participant: &DePoolParticipant)
    requires
        rounds.len() < 3,
    ensures
        counted_stake(rounds, Some(participant)) == participant.total_round_stake,
        counted_stake(rounds, None) == 0,
        counted_label(rounds) == "all"@,
{
}

/// The required stake is no more than something asks for, and it is there whenever the assurance
/// of the configuration can be read.
pub proof fn law_required_stake_is_asked_for(depool: DePoolState, config: DepoolRuntimeConfig)
    ensures
        match config.assurance() {
            Ok(assurance) => required_stake(depool, config) matches Ok(required) && (required
                == depool.validator_assurance || required == depool.min_stake || required
                == assurance),
            Err(e) => required_stake(depool, config) == Err::<u64, Error>(e),
        },
{
}

/// A source is one of the proxies exactly where some proxy has its address: none has it to begin
/// with, and one more proxy adds its own address and nothing else.
pub proof fn law_sources_are_the_proxies(proxies: Seq<StdAddr>, proxy: StdAddr, source: Seq<u8>)
    ensures
        !has_source(Seq::empty(), source),
        has_source(proxies.push(proxy), source) <==> has_source(proxies, source)
            || proxy.address@ == source,
{
    let more = proxies.push(proxy);
    assert(more[proxies.len() as int] == proxy);
    if has_source(proxies, source) {
        let i = choose|i: int|
            0 <= i < proxies.len() && (#[trigger] proxies[i]).address@ == source;
        assert(more[i].address@ == source);
    }
    if has_source(more, source) && proxy.address@ != source {
        let i = choose|i: int| 0 <= i < more.len() && (#[trigger] more[i]).address@ == source;
        assert(proxies[i].address@ == source);
    }
}

/// A log line shows the rounds in their order: the line of more rounds is made of the lines of its
/// parts.
pub proof fn law_rounds_are_shown_in_order(a: Seq<DePoolRound>, b: Seq<DePoolRound>)
    requires
        a.len() > 0,
        b.len() > 0,
    ensures
        rounds_text(a + b) == rounds_text(a) + ", "@ + rounds_text(b),
    decreases b.len(),
{
    let both = a + b;
    assert(both.last() == b.last());
    assert(both.drop_last() =~= a + b.drop_last());
    if b.len() == 1 {
        assert(a + b.drop_last() =~= a);
        assert(b.last() == b[0]);
        assert(rounds_text(both) =~= rounds_text(a) + ", "@ + rounds_text(b));
    } else {
        law_rounds_are_shown_in_order(a, b.drop_last());
        assert(rounds_text(both) =~= rounds_text(a) + ", "@ + rounds_text(b));
    }
}

/// Every round is shown with its number, its election, its step and its stakes, whatever they are;
/// and where there is none, the line says so.
pub proof fn law_every_round_is_shown(
    round: DePoolRound,
    rounds: &[DePoolRound],
    line: String,
)
    requires
        call_ensures(format_depool_rounds, (rounds,), line),
    ensures
        rounds_text(seq![round]) == "{id="@ + decimal_text(round.id as int)
            + ", supposed_elected_at="@ + decimal_text(round.supposed_elected_at as int)
            + ", step="@ + decimal_text(round.step as int) + ", stake="@ + decimal_text(
            round.stake as int,
        ) + ", validator_stake="@ + decimal_text(round.validator_stake as int) + "}"@,
        rounds@.len() == 0 ==> line@ == "none"@,
        rounds@.len() > 0 ==> line@ == rounds_text(rounds@),
{
}

} // verus!
