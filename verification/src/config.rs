//! The configuration, and what it takes to accept it.

use crate::address::{ensure_workchain, in_workchain, StdAddr, BASECHAIN, MASTERCHAIN};
use crate::amount::{nano_amount, parse_tokens_to_nano};
use crate::error::{Error, Setting};
use crate::paths::{home_folder, home_or_here};
use crate::text::{same_text, trim, trimmed};
use vstd::prelude::*;

verus! {

pub const DEFAULT_ENDPOINT: &'static str = "https://rpc-testnet.tychoprotocol.com";

pub const DEFAULT_DEPOOL_PARTICIPATE_VALUE: &'static str = "5";

pub const DEFAULT_DEPOOL_WALLET_RESERVE: &'static str = "20";

/// Everything that the user can set.
#[derive(Clone, Debug)]
pub struct AppConfig {
    pub endpoint: String,
    pub node_keys_path: String,
    pub elections_path: Option<String>,
    /// Off for dry runs: then nothing is submitted.
    pub send: bool,
    /// On to stop after one iteration.
    pub once: bool,
    /// How often a message is sent before giving up.
    pub retry: usize,
    pub stake_factor: Option<u32>,
    pub depool_participate_value: String,
    pub depool_wallet_reserve: String,
    pub confirmation_attempts: usize,
    pub confirmation_interval_secs: u64,
    pub poll_interval_secs: u64,
    pub error_retry_interval_secs: u64,
    pub validation: ValidationConfig,
}

/// How the node validates.
#[derive(Clone, Debug)]
pub enum ValidationConfig {
    Simple(SimpleValidationConfig),
    Depool(DepoolValidationConfig),
}

/// Validation with the validator's own stake.
#[derive(Clone, Debug)]
pub struct SimpleValidationConfig {
    pub wallet: SimpleWalletConfig,
    pub stake: StakeConfig,
}

/// Where the wallet of simple validation comes from.
#[derive(Clone, Debug)]
pub enum SimpleWalletConfig {
    ElectionsJson { path: Option<String> },
    Stored { wallet: StoredWalletConfig },
}

/// How much to stake in simple validation.
#[derive(Debug)]
pub enum StakeConfig {
    FromElectionsJson,
    Fixed { amount: String },
    Float { keep_wallet_balance: String },
}

/// Validation through a DePool.
#[derive(Clone, Debug)]
pub struct DepoolValidationConfig {
    pub validator_wallet: StoredWalletConfig,
    pub depool: DepoolConfig,
}

#[derive(Clone, Debug)]
pub enum DepoolConfig {
    New(NewDepoolConfig),
    Existing(ExistingDepoolConfig),
}

/// A DePool that may still have to be deployed.
#[derive(Debug)]
pub struct NewDepoolConfig {
    pub address: String,
    pub seed: Option<String>,
    pub public: String,
    pub secret: String,
    pub min_stake: String,
    pub validator_assurance: String,
    pub participant_reward_fraction: u8,
}

/// A DePool that somebody has deployed.
#[derive(Clone, Debug)]
pub struct ExistingDepoolConfig {
    pub address: String,
    pub public: Option<String>,
}

/// A wallet whose keys stand in the configuration.
#[derive(Clone, Debug)]
pub struct StoredWalletConfig {
    pub address: String,
    pub seed: Option<String>,
    pub public: String,
    pub secret: String,
}

/// The DePool that an iteration works with.
#[derive(Debug)]
pub struct DepoolRuntimeConfig {
    pub address: String,
    pub new: Option<NewDepoolConfig>,
}

/// The node's key file.
#[derive(Clone, Debug)]
pub struct NodeKeysFile {
    pub secret: String,
    pub public: String,
}

/// The elections file of the node.
#[derive(Clone, Debug)]
pub struct ElectionsFile {
    pub ty: String,
    pub wallet_secret: String,
    pub wallet_public: String,
    pub wallet_address: String,
    pub stake: String,
}

/// What the texts of a wallet or of a DePool yield: the address that its address text names, the
/// public key of its secret, and the address that belongs to that key. A text that yields nothing
/// is `None`.
#[derive(Clone, Debug)]
pub struct KeyFacts {
    pub address: Option<StdAddr>,
    pub public: Option<String>,
    pub derived_address: Option<String>,
}

/// An accepted wallet.
#[derive(Clone, Debug)]
pub struct LoadedWallet {
    pub address: String,
    pub elections_stake: Option<String>,
}

/// An accepted stored wallet.
#[derive(Clone, Debug)]
pub struct LoadedStoredWallet {
    pub address: String,
}

/// A copy of an optional text.
fn copy_text(s: &Option<String>) -> (r: Option<String>)
    ensures
        r == *s,
{
    match s {
        Some(t) => Some(t.clone()),
        None => None,
    }
}

impl Clone for NewDepoolConfig {
    fn clone(&self) -> (r: NewDepoolConfig)
        ensures
            r == *self,
    {
        NewDepoolConfig {
            address: self.address.clone(),
            seed: copy_text(&self.seed),
            public: self.public.clone(),
            secret: self.secret.clone(),
            min_stake: self.min_stake.clone(),
            validator_assurance: self.validator_assurance.clone(),
            participant_reward_fraction: self.participant_reward_fraction,
        }
    }
}

impl Clone for StakeConfig {
    fn clone(&self) -> (r: StakeConfig)
        ensures
            r == *self,
    {
        match self {
            StakeConfig::FromElectionsJson => StakeConfig::FromElectionsJson,
            StakeConfig::Fixed { amount } => StakeConfig::Fixed { amount: amount.clone() },
            StakeConfig::Float { keep_wallet_balance } => StakeConfig::Float {
                keep_wallet_balance: keep_wallet_balance.clone(),
            },
        }
    }
}

/// The amount that a setting names.
pub open spec fn setting_amount(setting: Setting, text: Seq<char>) -> Result<u128, Error> {
    match nano_amount(text) {
        Ok(v) => Ok(v),
        Err(reason) => Err(Error::Amount { setting, reason }),
    }
}

fn read_setting(setting: Setting, text: &str) -> (r: Result<u128, Error>)
    ensures
        r == setting_amount(setting, text@),
{
    match parse_tokens_to_nano(text) {
        Ok(v) => Ok(v),
        Err(reason) => Err(Error::Amount { setting, reason }),
    }
}

/// The amount that a setting names, which must not be zero.
pub open spec fn positive_amount(setting: Setting, text: Seq<char>, zero: Error) -> Result<
    u128,
    Error,
> {
    match setting_amount(setting, text) {
        Ok(v) => if v == 0 {
            Err(zero)
        } else {
            Ok(v)
        },
        Err(e) => Err(e),
    }
}

/// The sum of two amounts, or the largest amount where that is smaller.
pub open spec fn capped_sum(a: u128, b: u128) -> u128 {
    if a + b > u128::MAX {
        u128::MAX
    } else {
        (a + b) as u128
    }
}

impl AppConfig {
    /// What every setting is when nobody says otherwise.
    pub fn default(home: Option<&str>) -> (r: AppConfig)
        ensures
            r.endpoint@ == DEFAULT_ENDPOINT@,
            r.node_keys_path@ == home_or_here(home) + "/.tycho/node_keys.json"@,
            r.elections_path is None,
            !r.send,
            !r.once,
            r.retry == 3,
            r.stake_factor is None,
            r.depool_participate_value@ == DEFAULT_DEPOOL_PARTICIPATE_VALUE@,
            r.depool_wallet_reserve@ == DEFAULT_DEPOOL_WALLET_RESERVE@,
            r.confirmation_attempts == 20,
            r.confirmation_interval_secs == 3,
            r.poll_interval_secs == 60,
            r.error_retry_interval_secs == 30,
            r.validation == ValidationConfig::Simple(
                (SimpleValidationConfig {
                    wallet: SimpleWalletConfig::ElectionsJson { path: None },
                    stake: StakeConfig::FromElectionsJson,
                }),
            ),
    {
        AppConfig {
            endpoint: DEFAULT_ENDPOINT.to_owned(),
            node_keys_path: home_folder(home).concat("/.tycho/node_keys.json"),
            elections_path: None,
            send: false,
            once: false,
            retry: 3,
            stake_factor: None,
            depool_participate_value: DEFAULT_DEPOOL_PARTICIPATE_VALUE.to_owned(),
            depool_wallet_reserve: DEFAULT_DEPOOL_WALLET_RESERVE.to_owned(),
            confirmation_attempts: 20,
            confirmation_interval_secs: 3,
            poll_interval_secs: 60,
            error_retry_interval_secs: 30,
            validation: ValidationConfig::default(),
        }
    }

    /// Seconds between two looks at an open election.
    pub fn poll_interval(&self) -> (r: u64)
        ensures
            r == self.poll_interval_secs,
    {
        self.poll_interval_secs
    }

    /// Seconds to wait after an iteration that failed.
    pub fn error_retry_interval(&self) -> (r: u64)
        ensures
            r == self.error_retry_interval_secs,
    {
        self.error_retry_interval_secs
    }

    /// Seconds between two looks for a confirmation.
    pub fn confirmation_interval(&self) -> (r: u64)
        ensures
            r == self.confirmation_interval_secs,
    {
        self.confirmation_interval_secs
    }

    /// What goes with a request to participate through a DePool.
    pub open spec fn participate_value(self) -> Result<u128, Error> {
        positive_amount(
            Setting::ParticipateValue,
            self.depool_participate_value@,
            Error::ZeroParticipateValue,
        )
    }

    /// What must stay on the wallet of a DePool validator.
    pub open spec fn wallet_reserve(self) -> Result<u128, Error> {
        positive_amount(
            Setting::WalletReserve,
            self.depool_wallet_reserve@,
            Error::ZeroWalletReserve,
        )
    }

    /// Reads the value of a request to participate through a DePool.
    pub fn depool_participate_value_nano(&self) -> (r: Result<u128, Error>)
        ensures
            r == self.participate_value(),
    {
        let value: u128 = match read_setting(
            Setting::ParticipateValue,
            self.depool_participate_value.as_str(),
        ) {
            Ok(v) => v,
            Err(e) => {
                return Err(e);
            },
        };
        if value == 0 {
            return Err(Error::ZeroParticipateValue);
        }
        Ok(value)
    }

    /// Reads what must stay on the wallet of a DePool validator.
    pub fn depool_wallet_reserve_nano(&self) -> (r: Result<u128, Error>)
        ensures
            r == self.wallet_reserve(),
    {
        let value: u128 = match read_setting(
            Setting::WalletReserve,
            self.depool_wallet_reserve.as_str(),
        ) {
            Ok(v) => v,
            Err(e) => {
                return Err(e);
            },
        };
        if value == 0 {
            return Err(Error::ZeroWalletReserve);
        }
        Ok(value)
    }
}

impl Default for ValidationConfig {
    fn default() -> (r: ValidationConfig)
        ensures
            r == ValidationConfig::Simple(
                (SimpleValidationConfig {
                    wallet: SimpleWalletConfig::ElectionsJson { path: None },
                    stake: StakeConfig::FromElectionsJson,
                }),
            ),
    {
        ValidationConfig::Simple(SimpleValidationConfig::default())
    }
}

impl Default for SimpleValidationConfig {
    fn default() -> (r: SimpleValidationConfig)
        ensures
            r == (SimpleValidationConfig {
                wallet: SimpleWalletConfig::ElectionsJson { path: None },
                stake: StakeConfig::FromElectionsJson,
            }),
    {
        SimpleValidationConfig {
            wallet: SimpleWalletConfig::default(),
            stake: StakeConfig::FromElectionsJson,
        }
    }
}

impl Default for SimpleWalletConfig {
    fn default() -> (r: SimpleWalletConfig)
        ensures
            r == (SimpleWalletConfig::ElectionsJson { path: None }),
    {
        SimpleWalletConfig::ElectionsJson { path: None }
    }
}

impl StakeConfig {
    /// The stake for a wallet that holds `balance`, when the election itself costs `overhead`.
    pub open spec fn stake(
        self,
        balance: u128,
        overhead: u128,
        elections_stake: Option<Seq<char>>,
    ) -> Result<u128, Error> {
        match self {
            StakeConfig::FromElectionsJson => match elections_stake {
                None => Err(Error::StakeUnavailable),
                Some(text) => setting_amount(Setting::Stake, text),
            },
            StakeConfig::Fixed { amount } => setting_amount(Setting::Stake, amount@),
            StakeConfig::Float { keep_wallet_balance } => match setting_amount(
                Setting::KeepWalletBalance,
                keep_wallet_balance@,
            ) {
                Err(e) => Err(e),
                Ok(keep) => if capped_sum(keep, overhead) <= balance {
                    Ok((balance - capped_sum(keep, overhead)) as u128)
                } else {
                    Err(Error::FloatingStakeTooLow)
                },
            },
        }
    }

    /// Computes the stake in nano tokens.
    pub fn stake_nano(
        &self,
        wallet_balance: u128,
        election_overhead: u128,
        elections_stake: Option<&str>,
    ) -> (r: Result<u128, Error>)
        ensures
            r == self.stake(
                wallet_balance,
                election_overhead,
                match elections_stake {
                    Some(text) => Some(text@),
                    None => None,
                },
            ),
    {
        match self {
            StakeConfig::FromElectionsJson => match elections_stake {
                None => Err(Error::StakeUnavailable),
                Some(text) => read_setting(Setting::Stake, text),
            },
            StakeConfig::Fixed { amount } => read_setting(Setting::Stake, amount.as_str()),
            StakeConfig::Float { keep_wallet_balance } => {
                let keep: u128 = match read_setting(
                    Setting::KeepWalletBalance,
                    keep_wallet_balance.as_str(),
                ) {
                    Ok(v) => v,
                    Err(e) => {
                        return Err(e);
                    },
                };
                match wallet_balance.checked_sub(keep.saturating_add(election_overhead)) {
                    Some(stake) => Ok(stake),
                    None => Err(Error::FloatingStakeTooLow),
                }
            },
        }
    }
}

/// A floating stake leaves exactly the reserved amount and the cost of the election on the wallet,
/// as long as the two together are an amount at all.
pub proof fn law_floating_stake_keeps_reserve(
    keep_wallet_balance: String,
    balance: u128,
    overhead: u128,
    elections_stake: Option<Seq<char>>,
)
    requires
        setting_amount(Setting::KeepWalletBalance, keep_wallet_balance@) matches Ok(keep) && keep
            + overhead <= u128::MAX,
    ensures
        match (StakeConfig::Float { keep_wallet_balance }).stake(
            balance,
            overhead,
            elections_stake,
        ) {
            Ok(stake) => stake + setting_amount(
                Setting::KeepWalletBalance,
                keep_wallet_balance@,
            )->Ok_0 + overhead == balance,
            Err(e) => e == Error::FloatingStakeTooLow && balance < setting_amount(
                Setting::KeepWalletBalance,
                keep_wallet_balance@,
            )->Ok_0 + overhead,
        },
{
}

/// A fixed stake and one from the elections file do not depend on the wallet.
pub proof fn law_other_stakes_ignore_balance(
    config: StakeConfig,
    balance: u128,
    overhead: u128,
    other_balance: u128,
    other_overhead: u128,
    elections_stake: Option<Seq<char>>,
)
    requires
        !(config is Float),
    ensures
        config.stake(balance, overhead, elections_stake) == config.stake(
            other_balance,
            other_overhead,
            elections_stake,
        ),
{
}

impl NewDepoolConfig {
    /// Reads the smallest stake that the DePool will take.
    pub fn min_stake_nano(&self) -> (r: Result<u128, Error>)
        ensures
            r == setting_amount(Setting::MinStake, self.min_stake@),
    {
        read_setting(Setting::MinStake, self.min_stake.as_str())
    }

    /// Reads the stake that the validator itself has to hold.
    pub fn validator_assurance_nano(&self) -> (r: Result<u128, Error>)
        ensures
            r == setting_amount(Setting::ValidatorAssurance, self.validator_assurance@),
    {
        read_setting(Setting::ValidatorAssurance, self.validator_assurance.as_str())
    }
}

/// Whether an optional text is `expected`.
pub open spec fn text_is(text: Option<String>, expected: Seq<char>) -> bool {
    text matches Some(t) && t@ == expected
}

/// Why the keys of a DePool are refused.
pub open spec fn depool_refusal(new: NewDepoolConfig, facts: KeyFacts) -> Option<Error> {
    if in_workchain(facts.address, BASECHAIN) is Err {
        Some(in_workchain(facts.address, BASECHAIN)->Err_0)
    } else if facts.public is None {
        Some(Error::InvalidDepoolSecret)
    } else if !text_is(facts.public, new.public@) {
        Some(Error::DepoolKeyMismatch)
    } else if facts.derived_address is None {
        Some(Error::UnknownDepoolAddress)
    } else if !text_is(facts.derived_address, new.address@) {
        Some(Error::DepoolAddressMismatch)
    } else {
        None
    }
}

/// Why a configured DePool is refused: of an existing one only the address counts.
pub open spec fn depool_config_refusal(config: DepoolConfig, facts: KeyFacts) -> Option<Error> {
    match config {
        DepoolConfig::New(new) => depool_refusal(new, facts),
        DepoolConfig::Existing(existing) => match in_workchain(facts.address, BASECHAIN) {
            Err(e) => Some(e),
            Ok(_) => None,
        },
    }
}

/// What a run works with, once a configured DePool is accepted.
pub open spec fn accepted_depool(config: DepoolConfig) -> DepoolRuntimeConfig {
    match config {
        DepoolConfig::New(new) => DepoolRuntimeConfig { address: new.address, new: Some(new) },
        DepoolConfig::Existing(existing) => DepoolRuntimeConfig {
            address: existing.address,
            new: None,
        },
    }
}

impl DepoolRuntimeConfig {
    /// Accepts the configured DePool.
    pub fn from_config(config: &DepoolConfig, facts: &KeyFacts) -> (r: Result<
        DepoolRuntimeConfig,
        Error,
    >)
        ensures
            match depool_config_refusal(*config, *facts) {
                Some(e) => r == Err::<DepoolRuntimeConfig, Error>(e),
                None => r == Ok::<DepoolRuntimeConfig, Error>(accepted_depool(*config)),
            },
    {
        match ensure_workchain(facts.address, BASECHAIN) {
            Err(e) => {
                return Err(e);
            },
            Ok(_) => {},
        }
        match config {
            DepoolConfig::New(new) => {
                match &facts.public {
                    None => {
                        return Err(Error::InvalidDepoolSecret);
                    },
                    Some(public) => {
                        if !same_text(public.as_str(), new.public.as_str()) {
                            return Err(Error::DepoolKeyMismatch);
                        }
                    },
                }
                match &facts.derived_address {
                    None => {
                        return Err(Error::UnknownDepoolAddress);
                    },
                    Some(derived) => {
                        if !same_text(derived.as_str(), new.address.as_str()) {
                            return Err(Error::DepoolAddressMismatch);
                        }
                    },
                }
                Ok(DepoolRuntimeConfig { address: new.address.clone(), new: Some(new.clone()) })
            },
            DepoolConfig::Existing(existing) => Ok(
                DepoolRuntimeConfig { address: existing.address.clone(), new: None },
            ),
        }
    }

    /// The assurance that a new DePool asks of its validator; none for an existing one.
    pub open spec fn assurance(self) -> Result<u64, Error> {
        match self.new {
            None => Ok(0),
            Some(new) => match setting_amount(
                Setting::ValidatorAssurance,
                new.validator_assurance@,
            ) {
                Err(e) => Err(e),
                Ok(v) => if v > u64::MAX {
                    Err(Error::AssuranceTooLarge)
                } else {
                    Ok(v as u64)
                },
            },
        }
    }

    /// Reads the assurance that a new DePool asks of its validator.
    pub fn new_validator_assurance_nano(&self) -> (r: Result<u64, Error>)
        ensures
            r == self.assurance(),
    {
        match &self.new {
            None => Ok(0),
            Some(new) => match new.validator_assurance_nano() {
                Err(e) => Err(e),
                Ok(v) => {
                    if v > u64::MAX as u128 {
                        Err(Error::AssuranceTooLarge)
                    } else {
                        Ok(v as u64)
                    }
                },
            },
        }
    }
}

/// Why a stored wallet is refused.
pub open spec fn wallet_refusal(
    wallet: StoredWalletConfig,
    workchain: i8,
    facts: KeyFacts,
) -> Option<Error> {
    if in_workchain(facts.address, workchain) is Err {
        Some(in_workchain(facts.address, workchain)->Err_0)
    } else if facts.public is None {
        Some(Error::InvalidWalletSecret)
    } else if !text_is(facts.public, wallet.public@) {
        Some(Error::WalletKeyMismatch)
    } else if facts.derived_address is None {
        Some(Error::UnknownWalletAddress)
    } else if !text_is(facts.derived_address, wallet.address@) {
        Some(Error::WalletAddressMismatch)
    } else {
        None
    }
}

impl StoredWalletConfig {
    /// The wallet of a seed phrase, whose keys and address are given.
    pub fn from_seed(seed: &str, address: String, public: String, secret: String) -> (r:
        StoredWalletConfig)
        ensures
            r.address == address,
            r.seed matches Some(s) && s@ == seed@,
            r.public == public,
            r.secret == secret,
    {
        StoredWalletConfig { address, seed: Some(seed.to_owned()), public, secret }
    }

    /// Accepts the wallet for `workchain`.
    pub fn load(&self, workchain: i8, facts: &KeyFacts) -> (r: Result<LoadedStoredWallet, Error>)
        ensures
            match wallet_refusal(*self, workchain, *facts) {
                Some(e) => r == Err::<LoadedStoredWallet, Error>(e),
                None => r == Ok::<LoadedStoredWallet, Error>(
                    LoadedStoredWallet { address: self.address },
                ),
            },
    {
        match ensure_workchain(facts.address, workchain) {
            Err(e) => {
                return Err(e);
            },
            Ok(_) => {},
        }
        match &facts.public {
            None => {
                return Err(Error::InvalidWalletSecret);
            },
            Some(public) => {
                if !same_text(public.as_str(), self.public.as_str()) {
                    return Err(Error::WalletKeyMismatch);
                }
            },
        }
        match &facts.derived_address {
            None => {
                return Err(Error::UnknownWalletAddress);
            },
            Some(derived) => {
                if !same_text(derived.as_str(), self.address.as_str()) {
                    return Err(Error::WalletAddressMismatch);
                }
            },
        }
        Ok(LoadedStoredWallet { address: self.address.clone() })
    }
}

impl ElectionsFile {
    /// Accepts a file of the simple kind, with its stake trimmed.
    pub fn load(self) -> (r: Result<ElectionsFile, Error>)
        ensures
            self.ty@ != "Simple"@ ==> r == Err::<ElectionsFile, Error>(Error::UnsupportedElections),
            self.ty@ == "Simple"@ ==> (r matches Ok(file) && {
                &&& file.ty == self.ty
                &&& file.wallet_secret == self.wallet_secret
                &&& file.wallet_public == self.wallet_public
                &&& file.wallet_address == self.wallet_address
                &&& file.stake@ == trimmed(self.stake@)
            }),
    {
        if !same_text(self.ty.as_str(), "Simple") {
            return Err(Error::UnsupportedElections);
        }
        let stake: String = trim(self.stake.as_str()).to_owned();
        Ok(
            ElectionsFile {
                ty: self.ty,
                wallet_secret: self.wallet_secret,
                wallet_public: self.wallet_public,
                wallet_address: self.wallet_address,
                stake,
            },
        )
    }
}

/// Why the wallet of an elections file is refused.
pub open spec fn elections_refusal(elections: ElectionsFile, facts: KeyFacts) -> Option<Error> {
    if facts.public is None {
        Some(Error::InvalidWalletSecret)
    } else if !text_is(facts.public, elections.wallet_public@) {
        Some(Error::WalletKeyMismatch)
    } else {
        match in_workchain(facts.address, MASTERCHAIN) {
            Err(e) => Some(e),
            Ok(_) => None,
        }
    }
}

impl SimpleWalletConfig {
    /// The elections file to read, if the wallet comes from one: the configured one, else the
    /// one of the whole configuration, else the default one.
    pub fn elections_path(&self, legacy_path: Option<&String>, default_path: &str) -> (r: Option<
        String,
    >)
        ensures
            match *self {
                SimpleWalletConfig::Stored { wallet } => r is None,
                SimpleWalletConfig::ElectionsJson { path } => r matches Some(chosen) && chosen@
                    == match path {
                    Some(own) => own@,
                    None => match legacy_path {
                        Some(shared) => shared@,
                        None => default_path@,
                    },
                },
            },
    {
        match self {
            SimpleWalletConfig::Stored { wallet: _ } => None,
            SimpleWalletConfig::ElectionsJson { path } => match path {
                Some(own) => Some(own.clone()),
                None => match legacy_path {
                    Some(shared) => Some(shared.clone()),
                    None => Some(default_path.to_owned()),
                },
            },
        }
    }

    /// Accepts the wallet of simple validation, which lies in the masterchain.
    ///
    /// `elections` is the accepted elections file, where the wallet comes from one.
    pub fn load(&self, elections: Option<&ElectionsFile>, facts: &KeyFacts) -> (r: Result<
        LoadedWallet,
        Error,
    >)
        requires
            self is ElectionsJson ==> elections is Some,
        ensures
            match *self {
                SimpleWalletConfig::ElectionsJson { path } => match elections_refusal(
                    *elections->Some_0,
                    *facts,
                ) {
                    Some(e) => r == Err::<LoadedWallet, Error>(e),
                    None => r == Ok::<LoadedWallet, Error>(
                        LoadedWallet {
                            address: elections->Some_0.wallet_address,
                            elections_stake: Some(elections->Some_0.stake),
                        },
                    ),
                },
                SimpleWalletConfig::Stored { wallet } => match wallet_refusal(
                    wallet,
                    MASTERCHAIN,
                    *facts,
                ) {
                    Some(e) => r == Err::<LoadedWallet, Error>(e),
                    None => r == Ok::<LoadedWallet, Error>(
                        LoadedWallet { address: wallet.address, elections_stake: None },
                    ),
                },
            },
    {
        match self {
            SimpleWalletConfig::ElectionsJson { path: _ } => {
                let file: &ElectionsFile = elections.unwrap();
                match &facts.public {
                    None => {
                        return Err(Error::InvalidWalletSecret);
                    },
                    Some(public) => {
                        if !same_text(public.as_str(), file.wallet_public.as_str()) {
                            return Err(Error::WalletKeyMismatch);
                        }
                    },
                }
                match ensure_workchain(facts.address, MASTERCHAIN) {
                    Err(e) => Err(e),
                    Ok(_) => Ok(
                        LoadedWallet {
                            address: file.wallet_address.clone(),
                            elections_stake: Some(file.stake.clone()),
                        },
                    ),
                }
            },
            SimpleWalletConfig::Stored { wallet } => match wallet.load(MASTERCHAIN, facts) {
                Err(e) => Err(e),
                Ok(loaded) => Ok(LoadedWallet { address: loaded.address, elections_stake: None }),
            },
        }
    }
}

impl NodeKeysFile {
    /// Accepts the node's keys: `derived_public` is the public key of the secret, if it is one.
    pub fn check(&self, derived_public: Option<&str>) -> (r: Result<(), Error>)
        ensures
            r == match derived_public {
                None => Err::<(), Error>(Error::InvalidNodeSecret),
                Some(public) => if public@ == self.public@ {
                    Ok(())
                } else {
                    Err(Error::NodeKeyMismatch)
                },
            },
    {
        match derived_public {
            None => Err(Error::InvalidNodeSecret),
            Some(public) => {
                if same_text(public, self.public.as_str()) {
                    Ok(())
                } else {
                    Err(Error::NodeKeyMismatch)
                }
            },
        }
    }
}

/// A stored wallet is accepted exactly where it lies in the workchain, its public key belongs to its
/// secret, and its address belongs to its key. So a wallet that was made from a seed phrase, with
/// the key and the address of that phrase, is accepted.
pub proof fn law_wallet_of_its_own_keys_is_accepted(
    wallet: StoredWalletConfig,
    workchain: i8,
    facts: KeyFacts,
)
    ensures
        wallet_refusal(wallet, workchain, facts) is None <==> (in_workchain(
            facts.address,
            workchain,
        ) is Ok && text_is(facts.public, wallet.public@) && text_is(
            facts.derived_address,
            wallet.address@,
        )),
{
}

/// A new DePool is accepted exactly where it lies in the basechain, its public key belongs to its
/// secret, and its address belongs to its key.
pub proof fn law_depool_of_its_own_keys_is_accepted(new: NewDepoolConfig, facts: KeyFacts)
    ensures
        depool_refusal(new, facts) is None <==> (in_workchain(facts.address, BASECHAIN) is Ok
            && text_is(facts.public, new.public@) && text_is(facts.derived_address, new.address@)),
{
}

/// A stored wallet that is accepted for one workchain is refused for every other.
pub proof fn law_wallet_belongs_to_one_workchain(
    wallet: StoredWalletConfig,
    workchain: i8,
    other: i8,
    facts: KeyFacts,
)
    requires
        workchain != other,
        wallet_refusal(wallet, workchain, facts) is None,
    ensures
        wallet_refusal(wallet, other, facts) == Some(
            Error::WrongWorkchain { expected: other, found: workchain },
        ),
{
}

/// A sum of amounts is capped at the largest amount and is exact below it.
pub proof fn law_sums_are_exact_or_capped(a: u128, b: u128)
    ensures
        a + b <= u128::MAX ==> capped_sum(a, b) == a + b,
        a + b > u128::MAX ==> capped_sum(a, b) == u128::MAX,
        capped_sum(a, b) == capped_sum(b, a),
{
}

/// The two amounts that a DePool validator keeps back are read from their own settings, and are
/// refused where they are zero or cannot be read.
pub proof fn law_reserves_are_positive_amounts(app: AppConfig, v: u128)
    ensures
        app.participate_value() == Ok::<u128, Error>(v) <==> v > 0 && nano_amount(
            app.depool_participate_value@,
        ) == Ok::<u128, crate::amount::AmountError>(v),
        app.wallet_reserve() == Ok::<u128, Error>(v) <==> v > 0 && nano_amount(
            app.depool_wallet_reserve@,
        ) == Ok::<u128, crate::amount::AmountError>(v),
        nano_amount(app.depool_participate_value@) == Ok::<u128, crate::amount::AmountError>(0)
            ==> app.participate_value() == Err::<u128, Error>(Error::ZeroParticipateValue),
        nano_amount(app.depool_wallet_reserve@) == Ok::<u128, crate::amount::AmountError>(0)
            ==> app.wallet_reserve() == Err::<u128, Error>(Error::ZeroWalletReserve),
        nano_amount(app.depool_participate_value@) matches Err(reason) ==> app.participate_value()
            == Err::<u128, Error>(Error::Amount { setting: Setting::ParticipateValue, reason }),
        nano_amount(app.depool_wallet_reserve@) matches Err(reason) ==> app.wallet_reserve()
            == Err::<u128, Error>(Error::Amount { setting: Setting::WalletReserve, reason }),
{
}

/// An amount is read for every setting as it is, and is refused with the setting's name.
pub proof fn law_settings_name_amounts(setting: Setting, text: Seq<char>)
    ensures
        nano_amount(text) matches Ok(v) ==> setting_amount(setting, text) == Ok::<u128, Error>(v),
        nano_amount(text) matches Err(reason) ==> setting_amount(setting, text) == Err::<
            u128,
            Error,
        >(Error::Amount { setting, reason }),
{
}

/// A fixed stake is the amount that is configured, and one from the elections file is the amount
/// that stands there; without the file there is none.
pub proof fn law_stakes_are_what_is_written(
    amount: String,
    text: Seq<char>,
    balance: u128,
    overhead: u128,
    elections_stake: Option<Seq<char>>,
)
    ensures
        nano_amount(amount@) matches Ok(v) ==> (StakeConfig::Fixed { amount }).stake(
            balance,
            overhead,
            elections_stake,
        ) == Ok::<u128, Error>(v),
        nano_amount(amount@) matches Err(reason) ==> (StakeConfig::Fixed { amount }).stake(
            balance,
            overhead,
            elections_stake,
        ) == Err::<u128, Error>(Error::Amount { setting: Setting::Stake, reason }),
        nano_amount(text) matches Ok(v) ==> StakeConfig::FromElectionsJson.stake(
            balance,
            overhead,
            Some(text),
        ) == Ok::<u128, Error>(v),
        nano_amount(text) matches Err(reason) ==> StakeConfig::FromElectionsJson.stake(
            balance,
            overhead,
            Some(text),
        ) == Err::<u128, Error>(Error::Amount { setting: Setting::Stake, reason }),
        StakeConfig::FromElectionsJson.stake(balance, overhead, None) == Err::<u128, Error>(
            Error::StakeUnavailable,
        ),
{
}

/// A floating stake is what the wallet holds above the kept amount and the cost of the election. It
/// is refused where the wallet holds less than these, short of the largest balance there is, and
/// where the kept amount cannot be read.
pub proof fn law_floating_stake_is_the_rest(
    keep_wallet_balance: String,
    balance: u128,
    overhead: u128,
    elections_stake: Option<Seq<char>>,
)
    ensures
        ({
            let stake = (StakeConfig::Float { keep_wallet_balance }).stake(
                balance,
                overhead,
                elections_stake,
            );
            match nano_amount(keep_wallet_balance@) {
                Ok(keep) => if keep + overhead <= balance {
                    stake matches Ok(v) && v + keep + overhead == balance
                } else {
                    balance < u128::MAX ==> stake == Err::<u128, Error>(Error::FloatingStakeTooLow)
                },
                Err(reason) => stake == Err::<u128, Error>(
                    Error::Amount { setting: Setting::KeepWalletBalance, reason },
                ),
            }
        }),
{
}

/// A new DePool asks for the assurance that is configured for it, where that fits 64 bits; an
/// existing one asks for none here.
pub proof fn law_assurance_is_what_is_written(config: DepoolRuntimeConfig)
    ensures
        config.new is None ==> config.assurance() == Ok::<u64, Error>(0),
        config.new matches Some(new) ==> match nano_amount(new.validator_assurance@) {
            Ok(v) => if v <= 0xffff_ffff_ffff_ffff {
                config.assurance() == Ok::<u64, Error>(v as u64)
            } else {
                config.assurance() == Err::<u64, Error>(Error::AssuranceTooLarge)
            },
            Err(reason) => config.assurance() == Err::<u64, Error>(
                Error::Amount { setting: Setting::ValidatorAssurance, reason },
            ),
        },
{
}

/// A refused wallet is refused for what is wrong with it, the workchain before the secret, the
/// secret before the key, and the key before the address.
pub proof fn law_wallet_is_refused_for_a_reason(
    wallet: StoredWalletConfig,
    workchain: i8,
    facts: KeyFacts,
)
    ensures
        facts.address is None ==> wallet_refusal(wallet, workchain, facts) == Some(
            Error::InvalidAddress,
        ),
        facts.address matches Some(a) ==> (a.workchain != workchain) ==> wallet_refusal(
            wallet,
            workchain,
            facts,
        ) == Some(Error::WrongWorkchain { expected: workchain, found: a.workchain }),
        facts.address matches Some(a) ==> (a.workchain == workchain) ==> {
            &&& facts.public is None ==> wallet_refusal(wallet, workchain, facts) == Some(
                Error::InvalidWalletSecret,
            )
            &&& facts.public matches Some(p) ==> (p@ != wallet.public@) ==> wallet_refusal(
                wallet,
                workchain,
                facts,
            ) == Some(Error::WalletKeyMismatch)
            &&& facts.public matches Some(p) ==> (p@ == wallet.public@) ==> {
                &&& facts.derived_address is None ==> wallet_refusal(wallet, workchain, facts)
                    == Some(Error::UnknownWalletAddress)
                &&& facts.derived_address matches Some(d) ==> if d@ == wallet.address@ {
                    wallet_refusal(wallet, workchain, facts) is None
                } else {
                    wallet_refusal(wallet, workchain, facts) == Some(Error::WalletAddressMismatch)
                }
            }
        },
{
}

/// A refused new DePool is refused for what is wrong with it, in the same order. Of an existing
/// one only the workchain counts, and an accepted one is worked with as it is configured.
pub proof fn law_depool_is_refused_for_a_reason(
    new: NewDepoolConfig,
    existing: ExistingDepoolConfig,
    facts: KeyFacts,
)
    ensures
        facts.address is None ==> depool_config_refusal(DepoolConfig::New(new), facts) == Some(
            Error::InvalidAddress,
        ) && depool_config_refusal(DepoolConfig::Existing(existing), facts) == Some(
            Error::InvalidAddress,
        ),
        facts.address matches Some(a) ==> (a.workchain != 0) ==> depool_config_refusal(
            DepoolConfig::New(new),
            facts,
        ) == Some(Error::WrongWorkchain { expected: 0, found: a.workchain })
            && depool_config_refusal(DepoolConfig::Existing(existing), facts) == Some(
            Error::WrongWorkchain { expected: 0, found: a.workchain },
        ),
        facts.address matches Some(a) ==> (a.workchain == 0) ==> {
            &&& depool_config_refusal(DepoolConfig::Existing(existing), facts) is None
            &&& facts.public is None ==> depool_config_refusal(DepoolConfig::New(new), facts)
                == Some(Error::InvalidDepoolSecret)
            &&& facts.public matches Some(p) ==> (p@ != new.public@) ==> depool_config_refusal(
                DepoolConfig::New(new),
                facts,
            ) == Some(Error::DepoolKeyMismatch)
            &&& facts.public matches Some(p) ==> (p@ == new.public@) ==> {
                &&& facts.derived_address is None ==> depool_config_refusal(
                    DepoolConfig::New(new),
                    facts,
                ) == Some(Error::UnknownDepoolAddress)
                &&& facts.derived_address matches Some(d) ==> if d@ == new.address@ {
                    depool_config_refusal(DepoolConfig::New(new), facts) is None
                } else {
                    depool_config_refusal(DepoolConfig::New(new), facts) == Some(
                        Error::DepoolAddressMismatch,
                    )
                }
            }
        },
        accepted_depool(DepoolConfig::New(new)).address == new.address,
        accepted_depool(DepoolConfig::New(new)).new == Some(new),
        accepted_depool(DepoolConfig::Existing(existing)).address == existing.address,
        accepted_depool(DepoolConfig::Existing(existing)).new is None,
{
}

/// The wallet of an elections file is accepted exactly where its public key belongs to its secret
/// and it lies in the masterchain.
pub proof fn law_elections_wallet_is_refused_for_a_reason(elections: ElectionsFile, facts: KeyFacts)
    ensures
        facts.public is None ==> elections_refusal(elections, facts) == Some(
            Error::InvalidWalletSecret,
        ),
        facts.public matches Some(p) ==> (p@ != elections.wallet_public@) ==> elections_refusal(
            elections,
            facts,
        ) == Some(Error::WalletKeyMismatch),
        facts.public matches Some(p) ==> (p@ == elections.wallet_public@) ==> {
            &&& facts.address is None ==> elections_refusal(elections, facts) == Some(
                Error::InvalidAddress,
            )
            &&& facts.address matches Some(a) ==> if a.workchain == -1 {
                elections_refusal(elections, facts) is None
            } else {
                elections_refusal(elections, facts) == Some(
                    Error::WrongWorkchain { expected: -1i8, found: a.workchain },
                )
            }
        },
{
}

/// What every setting is when nobody says otherwise: a dry run that goes on until it is stopped,
/// with simple validation from the elections file.
pub proof fn law_default_config(home: Option<&str>, config: AppConfig)
    requires
        call_ensures(AppConfig::default, (home,), config),
    ensures
        !config.send,
        !config.once,
        config.retry == 3,
        config.confirmation_attempts == 20,
        config.confirmation_interval_secs == 3,
        config.poll_interval_secs == 60,
        config.error_retry_interval_secs == 30,
        config.elections_path is None,
        config.stake_factor is None,
        config.endpoint@ == "https://rpc-testnet.tychoprotocol.com"@,
        config.node_keys_path@ == match home {
            Some(folder) => folder@ + "/.tycho/node_keys.json"@,
            None => "."@ + "/.tycho/node_keys.json"@,
        },
        config.depool_participate_value@ == "5"@,
        config.depool_wallet_reserve@ == "20"@,
        config.validation matches ValidationConfig::Simple(simple) && {
            &&& simple.stake is FromElectionsJson
            &&& simple.wallet == (SimpleWalletConfig::ElectionsJson { path: None })
        },
{
}

/// An elections file is accepted exactly where it is of the simple kind. It stays as it is, but for
/// the white space around its stake, which does not change the amount.
pub proof fn law_simple_elections_are_accepted(
    file: ElectionsFile,
    loaded: Result<ElectionsFile, Error>,
)
    requires
        call_ensures(ElectionsFile::load, (file,), loaded),
    ensures
        loaded is Ok <==> file.ty@ == "Simple"@,
        loaded matches Err(e) ==> e == Error::UnsupportedElections,
        loaded matches Ok(kept) ==> {
            &&& kept.ty == file.ty
            &&& kept.wallet_secret == file.wallet_secret
            &&& kept.wallet_public == file.wallet_public
            &&& kept.wallet_address == file.wallet_address
            &&& kept.stake@ == trimmed(file.stake@)
        },
{
}

/// The elections file is the wallet's own one, else the one of the whole configuration, else the
/// default one. A stored wallet needs none.
pub proof fn law_own_elections_file_goes_first(
    wallet: SimpleWalletConfig,
    legacy_path: Option<&String>,
    default_path: &str,
    chosen: Option<String>,
)
    requires
        call_ensures(
            SimpleWalletConfig::elections_path,
            (&wallet, legacy_path, default_path),
            chosen,
        ),
    ensures
        wallet is Stored <==> chosen is None,
        wallet matches SimpleWalletConfig::ElectionsJson { path: Some(own) } ==> text_is(
            chosen,
            own@,
        ),
        wallet == (SimpleWalletConfig::ElectionsJson { path: None }) ==> (
        legacy_path matches Some(shared) ==> text_is(chosen, shared@)),
        wallet == (SimpleWalletConfig::ElectionsJson { path: None }) && legacy_path is None
            ==> text_is(chosen, default_path@),
{
}

/// The wallet of simple validation has the address and the stake of the elections file, or the
/// address of the stored wallet and no stake. Either is held to the masterchain.
pub proof fn law_simple_wallet_is_the_configured_one(
    wallet: SimpleWalletConfig,
    elections: &ElectionsFile,
    facts: KeyFacts,
    loaded: Result<LoadedWallet, Error>,
)
    requires
        call_ensures(SimpleWalletConfig::load, (&wallet, Some(elections), &facts), loaded),
    ensures
        loaded matches Ok(accepted) ==> in_workchain(facts.address, -1i8) is Ok,
        loaded is Ok <==> match wallet {
            SimpleWalletConfig::ElectionsJson { path } => elections_refusal(
                *elections,
                facts,
            ) is None,
            SimpleWalletConfig::Stored { wallet: stored } => wallet_refusal(
                stored,
                -1i8,
                facts,
            ) is None,
        },
        loaded matches Ok(accepted) ==> match wallet {
            SimpleWalletConfig::ElectionsJson { path } => accepted.address
                == elections.wallet_address && accepted.elections_stake == Some(elections.stake),
            SimpleWalletConfig::Stored { wallet: stored } => accepted.address == stored.address
                && accepted.elections_stake is None,
        },
        loaded matches Err(e) ==> match wallet {
            SimpleWalletConfig::ElectionsJson { path } => elections_refusal(*elections, facts)
                == Some(e),
            SimpleWalletConfig::Stored { wallet: stored } => wallet_refusal(stored, -1i8, facts)
                == Some(e),
        },
{
}

/// The keys of a node are accepted exactly where the public key is that of the secret.
pub proof fn law_node_keys_belong_together(
    keys: NodeKeysFile,
    derived_public: Option<&str>,
    r: Result<(), Error>,
)
    requires
        call_ensures(NodeKeysFile::check, (&keys, derived_public), r),
    ensures
        r is Ok <==> (derived_public matches Some(public) && public@ == keys.public@),
        derived_public is None <==> r == Err::<(), Error>(Error::InvalidNodeSecret),
        r matches Err(e) ==> (derived_public is Some ==> e == Error::NodeKeyMismatch),
{
}

/// A stored wallet that is accepted keeps its address, and one that is refused is refused for its
/// reason. So it is with a DePool.
pub proof fn law_accepted_is_taken_over(
    wallet: StoredWalletConfig,
    workchain: i8,
    depool: DepoolConfig,
    facts: KeyFacts,
    loaded: Result<LoadedStoredWallet, Error>,
    accepted: Result<DepoolRuntimeConfig, Error>,
)
    requires
        call_ensures(StoredWalletConfig::load, (&wallet, workchain, &facts), loaded),
        call_ensures(DepoolRuntimeConfig::from_config, (&depool, &facts), accepted),
    ensures
        loaded matches Ok(w) ==> w.address == wallet.address && wallet_refusal(
            wallet,
            workchain,
            facts,
        ) is None,
        loaded matches Err(e) ==> wallet_refusal(wallet, workchain, facts) == Some(e),
        accepted matches Ok(config) ==> depool_config_refusal(depool, facts) is None && match depool {
            DepoolConfig::New(new) => config.address == new.address && config.new == Some(new),
            DepoolConfig::Existing(existing) => config.address == existing.address && config.new
                is None,
        },
        accepted matches Err(e) ==> depool_config_refusal(depool, facts) == Some(e),
{
}

/// A wallet that is made from a seed phrase has that phrase, and the keys and the address that were
/// given for it. Where they are those of the phrase, and lie in the workchain, it is accepted.
pub proof fn law_wallet_from_seed_is_accepted(
    seed: &str,
    address: String,
    public: String,
    secret: String,
    wallet: StoredWalletConfig,
    workchain: i8,
    facts: KeyFacts,
)
    requires
        call_ensures(StoredWalletConfig::from_seed, (seed, address, public, secret), wallet),
        facts.address matches Some(a) && a.workchain == workchain,
        text_is(facts.public, public@),
        text_is(facts.derived_address, address@),
    ensures
        text_is(wallet.seed, seed@),
        wallet.secret == secret,
        wallet_refusal(wallet, workchain, facts) is None,
{
}

} // verus!
