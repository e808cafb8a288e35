//! Setting up a configuration with the user.

use crate::address::{ensure_workchain, in_workchain, StdAddr, BASECHAIN, MASTERCHAIN};
use crate::amount::{
    all_white_space, law_white_space_is_trimmed, law_whole_amount_is_in_tokens, nano_amount,
    parse_tokens_to_nano, AmountError,
};
use crate::config::{
    depool_config_refusal, depool_refusal, setting_amount, wallet_refusal, AppConfig, DepoolConfig,
    DepoolRuntimeConfig, DepoolValidationConfig, ExistingDepoolConfig, KeyFacts, NewDepoolConfig, SimpleValidationConfig, SimpleWalletConfig, StakeConfig, StoredWalletConfig,
    ValidationConfig, DEFAULT_DEPOOL_PARTICIPATE_VALUE, DEFAULT_DEPOOL_WALLET_RESERVE,
};
use crate::error::{Error, Setting};
use crate::paths::{
    expand_home, expanded, join_user_path, joined, parent_folder, parent_of, CONFIG_FILE_NAME,
    DEFAULT_CONFIG_FOLDER,
};
use crate::text::{
    bounded_value, digits_value, law_numbers_are_not_negative, parse_unsigned, same_text, trim,
    trimmed, unsigned_digits, unsigned_value, white_space,
};
use crate::upkeep::deployment;
use vstd::prelude::*;

verus! {

/// What is offered as a fixed stake, in tokens.
pub const DEFAULT_FIXED_STAKE: &'static str = "500000";

/// What is offered to keep on the wallet, in tokens.
pub const DEFAULT_KEEP_BALANCE: &'static str = "100";

/// What is offered as the smallest stake of a DePool, in tokens.
pub const DEFAULT_DEPOOL_MIN_STAKE: &'static str = "100";

/// What is offered as the validator's assurance, in tokens.
pub const DEFAULT_DEPOOL_ASSURANCE: &'static str = "500";

/// What is offered as the share of the participants' reward, in percent.
pub const DEFAULT_REWARD_FRACTION: &'static str = "95";

/// Which option is offered.
pub const DEFAULT_CHOICE: &'static str = "1";

/// The line that asks for an answer.
pub open spec fn prompt_line_text(label: Seq<char>, default: Seq<char>) -> Seq<char> {
    if default.len() == 0 {
        label + ": "@
    } else {
        label + " ["@ + default + "]: "@
    }
}

/// The line that asks for an answer, with what an empty answer stands for.
pub fn prompt_line(label: &str, default: &str) -> (r: String)
    ensures
        r@ == prompt_line_text(label@, default@),
{
    if default.unicode_len() == 0 {
        label.to_owned().concat(": ")
    } else {
        label.to_owned().concat(" [").concat(default).concat("]: ")
    }
}

/// The answer in a line: an empty one stands for the default.
pub open spec fn answer_of(line: Seq<char>, default: Seq<char>) -> Seq<char> {
    if trimmed(line).len() == 0 {
        default
    } else {
        trimmed(line)
    }
}

/// Reads the answer in a line.
pub fn prompt_text(line: &str, default: &str) -> (r: String)
    ensures
        r@ == answer_of(line@, default@),
{
    let answer: &str = trim(line);
    if answer.unicode_len() == 0 {
        default.to_owned()
    } else {
        answer.to_owned()
    }
}

/// What an answer to a list of options is.
#[derive(Clone, Copy, Debug, PartialEq, Eq, Structural)]
pub enum ChoiceAnswer {
    /// The number of an option, from one on.
    Chosen { choice: usize },
    /// A number that is no option.
    AskAgain,
}

/// Reads the number of one of `options` options. What is no number is refused.
pub fn prompt_choice(answer: &str, options: usize) -> (r: Result<ChoiceAnswer, Error>)
    ensures
        r == match bounded_value(answer@, usize::MAX as int) {
            None => Err::<ChoiceAnswer, Error>(Error::InvalidChoice),
            Some(n) => if 1 <= n <= options {
                Ok(ChoiceAnswer::Chosen { choice: n as usize })
            } else {
                Ok(ChoiceAnswer::AskAgain)
            },
        },
{
    match parse_unsigned(answer, usize::MAX as u128) {
        None => Err(Error::InvalidChoice),
        Some(n) => {
            if 1 <= n && n <= options as u128 {
                Ok(ChoiceAnswer::Chosen { choice: n as usize })
            } else {
                Ok(ChoiceAnswer::AskAgain)
            }
        },
    }
}

/// A letter of the ASCII alphabet as a small one; any other character as it is.
pub open spec fn lower(c: char) -> char {
    if 'A' as int <= c as int <= 'Z' as int {
        (c as int + 32) as char
    } else {
        c
    }
}

/// A text with small ASCII letters.
pub open spec fn lowered(s: Seq<char>) -> Seq<char> {
    Seq::new(s.len(), |i: int| lower(s[i]))
}

fn lower_char(c: char) -> (r: char)
    ensures
        r == lower(c),
{
    if 'A' <= c && c <= 'Z' {
        let u: u8 = c as u8;
        (u + 32) as char
    } else {
        c
    }
}

fn is_lowered(s: &str, expected: &str) -> (r: bool)
    ensures
        r == (lowered(s@) == expected@),
{
    let n: usize = s.unicode_len();
    if n != expected.unicode_len() {
        return false;
    }
    let mut i: usize = 0;
    while i < n
        invariant
            i <= n,
            n == s@.len(),
            n == expected@.len(),
            forall|j: int| 0 <= j < i ==> lower(s@[j]) == expected@[j],
        decreases n - i,
    {
        if lower_char(s.get_char(i)) != expected.get_char(i) {
            assert(lowered(s@)[i as int] != expected@[i as int]);
            return false;
        }
        i = i + 1;
    }
    assert(lowered(s@) =~= expected@);
    true
}

/// What an empty answer to a yes-or-no question is shown as.
pub open spec fn confirm_hint(default: bool) -> Seq<char> {
    if default {
        "Y/n"@
    } else {
        "y/N"@
    }
}

/// What is offered for a yes-or-no question.
pub fn confirm_default_text(default: bool) -> (r: &'static str)
    ensures
        r@ == confirm_hint(default),
{
    if default {
        "Y/n"
    } else {
        "y/N"
    }
}

/// Whether an answer is a yes or a no; the case of letters does not matter. Nothing at all, and
/// the hint as it is shown, are `default`. What is neither is asked again.
pub open spec fn confirmation(answer: Seq<char>, default: bool) -> Option<bool> {
    let small = lowered(answer);
    if answer.len() == 0 || answer == confirm_hint(default) {
        Some(default)
    } else if small == "y"@ || small == "yes"@ || small == "y/n"@ {
        Some(true)
    } else if small == "n"@ || small == "no"@ || small == "n/y"@ {
        Some(false)
    } else {
        None
    }
}

/// Reads a yes or a no.
pub fn prompt_confirm(answer: &str, default: bool) -> (r: Option<bool>)
    ensures
        r == confirmation(answer@, default),
{
    if answer.unicode_len() == 0 || same_text(answer, confirm_default_text(default)) {
        Some(default)
    } else if is_lowered(answer, "y") || is_lowered(answer, "yes") || is_lowered(answer, "y/n") {
        Some(true)
    } else if is_lowered(answer, "n") || is_lowered(answer, "no") || is_lowered(answer, "n/y") {
        Some(false)
    } else {
        None
    }
}

/// An empty line at a yes-or-no question is the default that its hint shows.
pub proof fn law_empty_line_is_the_default(line: Seq<char>, default: bool)
    requires
        trimmed(line).len() == 0,
    ensures
        confirmation(answer_of(line, confirm_hint(default)), default) == Some(default),
{
}

/// Takes an answer that is a token amount, as it was given.
pub fn prompt_token_amount(answer: String, setting: Setting) -> (r: Result<String, Error>)
    ensures
        match setting_amount(setting, answer@) {
            Ok(_) => r == Ok::<String, Error>(answer),
            Err(e) => r == Err::<String, Error>(e),
        },
{
    match parse_tokens_to_nano(answer.as_str()) {
        Ok(_) => Ok(answer),
        Err(reason) => Err(Error::Amount { setting, reason }),
    }
}

/// The number below 256 that an answer is.
pub open spec fn small_number(answer: Seq<char>) -> Result<u8, Error> {
    match bounded_value(answer, u8::MAX as int) {
        Some(n) => Ok(n as u8),
        None => Err(Error::InvalidSmallNumber),
    }
}

/// Reads a number below 256.
pub fn prompt_u8(answer: &str) -> (r: Result<u8, Error>)
    ensures
        r == small_number(answer@),
{
    match parse_unsigned(answer, u8::MAX as u128) {
        Some(n) => Ok(n as u8),
        None => Err(Error::InvalidSmallNumber),
    }
}

impl ExistingDepoolConfig {
    /// A DePool of which only the address is known.
    pub fn address(address: String) -> (r: ExistingDepoolConfig)
        ensures
            r == (ExistingDepoolConfig { address, public: None }),
    {
        ExistingDepoolConfig { address, public: None }
    }

    /// The DePool of a seed phrase, whose key and address are given.
    pub fn from_seed(address: String, public: String) -> (r: ExistingDepoolConfig)
        ensures
            r == (ExistingDepoolConfig { address, public: Some(public) }),
    {
        ExistingDepoolConfig { address, public: Some(public) }
    }
}

/// The questions about how the node validates. The value says what is to be asked or made.
#[derive(Debug)]
pub enum ValidationPrompt {
    /// Simple, or through a DePool?
    AskType,
    /// Where does the wallet of simple validation come from?
    AskSimpleWallet,
    /// Make a wallet in the masterchain, or restore it from a seed phrase.
    MakeSimpleWallet { restore: bool },
    /// What is the stake like?
    AskStakeKind { wallet: SimpleWalletConfig },
    /// How large is the fixed stake?
    AskFixedStake { wallet: SimpleWalletConfig },
    /// How much stays on the wallet?
    AskKeepBalance { wallet: SimpleWalletConfig },
    /// Where does the wallet of a DePool validator come from?
    AskDepoolWallet,
    /// Make a wallet in the basechain, or restore it from a seed phrase.
    MakeDepoolWallet { restore: bool },
    /// Which DePool?
    AskDepool { validator_wallet: StoredWalletConfig },
    /// Make the keys and amounts of a new DePool.
    MakeNewDepool { validator_wallet: StoredWalletConfig },
    /// Find the DePool of a seed phrase.
    RestoreDepool { validator_wallet: StoredWalletConfig },
    /// Which address does the DePool have?
    AskDepoolAddress { validator_wallet: StoredWalletConfig },
    Finished { validation: ValidationConfig },
    Failed { error: Error },
}

/// What the user gave, or what was made for them.
#[derive(Debug)]
pub enum SetupEvent {
    /// The number of an option.
    Chosen { choice: usize },
    WalletMade { wallet: StoredWalletConfig },
    /// An answer that should be a token amount.
    AmountGiven { amount: String },
    NewDepoolMade { depool: NewDepoolConfig },
    DepoolRestored { existing: ExistingDepoolConfig },
    /// The address of a DePool, and what it names.
    AddressGiven { address: String, parsed: Option<StdAddr> },
}

impl ValidationPrompt {
    /// The options that are offered.
    pub open spec fn options_text(self) -> Seq<Seq<char>> {
        match self {
            ValidationPrompt::AskType => seq!["Simple"@, "Depool"@],
            ValidationPrompt::AskSimpleWallet => seq![
                "Use from elections.json"@,
                "Create new"@,
                "Restore from seed"@,
            ],
            ValidationPrompt::AskStakeKind { wallet } => seq![
                "Fixed amount"@,
                "Float: use wallet balance except reserved amount"@,
            ],
            ValidationPrompt::AskDepoolWallet => seq!["Create new"@, "Restore from seed"@],
            ValidationPrompt::AskDepool { validator_wallet } => seq![
                "Create new"@,
                "Restore from seed"@,
                "Use existing by address"@,
            ],
            _ => seq![],
        }
    }

    /// The options that are offered; none where no number is asked for.
    pub fn options(&self) -> (r: Vec<&'static str>)
        ensures
            r@.map_values(|s: &str| s@) =~= self.options_text(),
    {
        match self {
            ValidationPrompt::AskType => vec!["Simple", "Depool"],
            ValidationPrompt::AskSimpleWallet => vec![
                "Use from elections.json",
                "Create new",
                "Restore from seed",
            ],
            ValidationPrompt::AskStakeKind { wallet: _ } => vec![
                "Fixed amount",
                "Float: use wallet balance except reserved amount",
            ],
            ValidationPrompt::AskDepoolWallet => vec!["Create new", "Restore from seed"],
            ValidationPrompt::AskDepool { validator_wallet: _ } => vec![
                "Create new",
                "Restore from seed",
                "Use existing by address",
            ],
            _ => Vec::new(),
        }
    }

    /// What the options are about.
    pub open spec fn label_text(self) -> Seq<char> {
        match self {
            ValidationPrompt::AskType => "Type of validation"@,
            ValidationPrompt::AskSimpleWallet =>
                "Validator's wallet (must be in masterchain: -1:...)"@,
            ValidationPrompt::AskStakeKind { wallet } => "Stake size for simple validation"@,
            ValidationPrompt::AskFixedStake { wallet } => "Fixed stake amount"@,
            ValidationPrompt::AskKeepBalance { wallet } => "Keep on wallet before staking"@,
            ValidationPrompt::AskDepoolWallet =>
                "Validator's wallet (must be in workchain: 0:...)"@,
            ValidationPrompt::AskDepool { validator_wallet } => "Depool"@,
            ValidationPrompt::RestoreDepool { validator_wallet } => "DePool seed phrase"@,
            ValidationPrompt::AskDepoolAddress { validator_wallet } =>
                "Existing DePool address (workchain 0)"@,
            ValidationPrompt::MakeSimpleWallet { restore } => "Seed phrase"@,
            ValidationPrompt::MakeDepoolWallet { restore } => "Seed phrase"@,
            _ => Seq::empty(),
        }
    }

    /// What is asked.
    pub fn label(&self) -> (r: &'static str)
        ensures
            r@ == self.label_text(),
    {
        proof {
            reveal_strlit("");
        }
        assert(""@ =~= Seq::<char>::empty());
        match self {
            ValidationPrompt::AskType => "Type of validation",
            ValidationPrompt::AskSimpleWallet =>
                "Validator's wallet (must be in masterchain: -1:...)",
            ValidationPrompt::AskStakeKind { wallet: _ } => "Stake size for simple validation",
            ValidationPrompt::AskFixedStake { wallet: _ } => "Fixed stake amount",
            ValidationPrompt::AskKeepBalance { wallet: _ } => "Keep on wallet before staking",
            ValidationPrompt::AskDepoolWallet =>
                "Validator's wallet (must be in workchain: 0:...)",
            ValidationPrompt::AskDepool { validator_wallet: _ } => "Depool",
            ValidationPrompt::RestoreDepool { validator_wallet: _ } => "DePool seed phrase",
            ValidationPrompt::AskDepoolAddress { validator_wallet: _ } =>
                "Existing DePool address (workchain 0)",
            ValidationPrompt::MakeSimpleWallet { restore: _ } => "Seed phrase",
            ValidationPrompt::MakeDepoolWallet { restore: _ } => "Seed phrase",
            _ => "",
        }
    }

    /// What an empty answer stands for.
    pub open spec fn default_text(self) -> Seq<char> {
        match self {
            ValidationPrompt::AskFixedStake { wallet } => DEFAULT_FIXED_STAKE@,
            ValidationPrompt::AskKeepBalance { wallet } => DEFAULT_KEEP_BALANCE@,
            _ => if self.options_text().len() > 0 {
                DEFAULT_CHOICE@
            } else {
                ""@
            },
        }
    }

    /// What an empty answer stands for.
    pub fn default_answer(&self) -> (r: &'static str)
        ensures
            r@ == self.default_text(),
    {
        match self {
            ValidationPrompt::AskFixedStake { wallet: _ } => DEFAULT_FIXED_STAKE,
            ValidationPrompt::AskKeepBalance { wallet: _ } => DEFAULT_KEEP_BALANCE,
            ValidationPrompt::AskType => DEFAULT_CHOICE,
            ValidationPrompt::AskSimpleWallet => DEFAULT_CHOICE,
            ValidationPrompt::AskStakeKind { wallet: _ } => DEFAULT_CHOICE,
            ValidationPrompt::AskDepoolWallet => DEFAULT_CHOICE,
            ValidationPrompt::AskDepool { validator_wallet: _ } => DEFAULT_CHOICE,
            _ => "",
        }
    }

    /// The workchain of the wallet that is to be made.
    pub fn wallet_workchain(&self) -> (r: Option<i8>)
        ensures
            r == match *self {
                ValidationPrompt::MakeSimpleWallet { restore } => Some(MASTERCHAIN),
                ValidationPrompt::MakeDepoolWallet { restore } => Some(BASECHAIN),
                _ => None,
            },
    {
        match self {
            ValidationPrompt::MakeSimpleWallet { restore: _ } => Some(MASTERCHAIN),
            ValidationPrompt::MakeDepoolWallet { restore: _ } => Some(BASECHAIN),
            _ => None,
        }
    }

    /// Whether `next` is what comes after `event`, where the configuration goes to `folder`.
    pub open spec fn leads_to(self, event: SetupEvent, folder: Seq<char>, next: ValidationPrompt)
        -> bool {
        match (self, event) {
            (ValidationPrompt::AskType, SetupEvent::Chosen { choice }) => next == if choice == 1 {
                ValidationPrompt::AskSimpleWallet
            } else if choice == 2 {
                ValidationPrompt::AskDepoolWallet
            } else {
                self
            },
            (ValidationPrompt::AskSimpleWallet, SetupEvent::Chosen { choice }) => if choice == 1 {
                next matches ValidationPrompt::AskStakeKind {
                    wallet: SimpleWalletConfig::ElectionsJson { path: Some(path) },
                } && path@ == joined(folder, "elections.json"@)
            } else if choice == 2 || choice == 3 {
                next == (ValidationPrompt::MakeSimpleWallet { restore: choice == 3 })
            } else {
                next == self
            },
            (ValidationPrompt::MakeSimpleWallet { restore }, SetupEvent::WalletMade { wallet }) =>
                next == (ValidationPrompt::AskStakeKind {
                wallet: SimpleWalletConfig::Stored { wallet },
            }),
            (ValidationPrompt::AskStakeKind { wallet }, SetupEvent::Chosen { choice }) => next
                == if choice == 1 {
                ValidationPrompt::AskFixedStake { wallet }
            } else if choice == 2 {
                ValidationPrompt::AskKeepBalance { wallet }
            } else {
                self
            },
            (ValidationPrompt::AskFixedStake { wallet }, SetupEvent::AmountGiven { amount }) => next
                == match setting_amount(Setting::Stake, amount@) {
                Err(error) => ValidationPrompt::Failed { error },
                Ok(_) => ValidationPrompt::Finished {
                    validation: ValidationConfig::Simple(
                        SimpleValidationConfig { wallet, stake: StakeConfig::Fixed { amount } },
                    ),
                },
            },
            (ValidationPrompt::AskKeepBalance { wallet }, SetupEvent::AmountGiven { amount }) =>
                next == match setting_amount(Setting::KeepWalletBalance, amount@) {
                Err(error) => ValidationPrompt::Failed { error },
                Ok(_) => ValidationPrompt::Finished {
                    validation: ValidationConfig::Simple(
                        SimpleValidationConfig {
                            wallet,
                            stake: StakeConfig::Float { keep_wallet_balance: amount },
                        },
                    ),
                },
            },
            (ValidationPrompt::AskDepoolWallet, SetupEvent::Chosen { choice }) => next == if choice
                == 1 || choice == 2 {
                ValidationPrompt::MakeDepoolWallet { restore: choice == 2 }
            } else {
                self
            },
            (ValidationPrompt::MakeDepoolWallet { restore }, SetupEvent::WalletMade { wallet }) =>
                next == (ValidationPrompt::AskDepool { validator_wallet: wallet }),
            (ValidationPrompt::AskDepool { validator_wallet }, SetupEvent::Chosen { choice }) =>
                next == if choice == 1 {
                ValidationPrompt::MakeNewDepool { validator_wallet }
            } else if choice == 2 {
                ValidationPrompt::RestoreDepool { validator_wallet }
            } else if choice == 3 {
                ValidationPrompt::AskDepoolAddress { validator_wallet }
            } else {
                self
            },
            (
                ValidationPrompt::MakeNewDepool { validator_wallet },
                SetupEvent::NewDepoolMade { depool },
            ) => next == (ValidationPrompt::Finished {
                validation: ValidationConfig::Depool(
                    DepoolValidationConfig { validator_wallet, depool: DepoolConfig::New(depool) },
                ),
            }),
            (
                ValidationPrompt::RestoreDepool { validator_wallet },
                SetupEvent::DepoolRestored { existing },
            ) => next == (ValidationPrompt::Finished {
                validation: ValidationConfig::Depool(
                    DepoolValidationConfig {
                        validator_wallet,
                        depool: DepoolConfig::Existing(existing),
                    },
                ),
            }),
            (
                ValidationPrompt::AskDepoolAddress { validator_wallet },
                SetupEvent::AddressGiven { address, parsed },
            ) => next == match in_workchain(parsed, BASECHAIN) {
                Err(error) => ValidationPrompt::Failed { error },
                Ok(_) => ValidationPrompt::Finished {
                    validation: ValidationConfig::Depool(
                        DepoolValidationConfig {
                            validator_wallet,
                            depool: DepoolConfig::Existing(
                                ExistingDepoolConfig { address, public: None },
                            ),
                        },
                    ),
                },
            },
            _ => next == self,
        }
    }

    /// Begins with the questions.
    pub fn prompt_validation() -> (r: ValidationPrompt)
        ensures
            r == ValidationPrompt::AskType,
    {
        ValidationPrompt::AskType
    }

    /// Goes on after an answer. An answer to another question changes nothing.
    pub fn next(self, event: SetupEvent, config_folder: &str) -> (r: ValidationPrompt)
        ensures
            self.leads_to(event, config_folder@, r),
    {
        match (self, event) {
            (ValidationPrompt::AskType, SetupEvent::Chosen { choice }) => {
                if choice == 1 {
                    ValidationPrompt::AskSimpleWallet
                } else if choice == 2 {
                    ValidationPrompt::AskDepoolWallet
                } else {
                    ValidationPrompt::AskType
                }
            },
            (ValidationPrompt::AskSimpleWallet, SetupEvent::Chosen { choice }) => {
                if choice == 1 {
                    ValidationPrompt::AskStakeKind {
                        wallet: SimpleWalletConfig::ElectionsJson {
                            path: Some(join_user_path(config_folder, "elections.json")),
                        },
                    }
                } else if choice == 2 || choice == 3 {
                    ValidationPrompt::MakeSimpleWallet { restore: choice == 3 }
                } else {
                    ValidationPrompt::AskSimpleWallet
                }
            },
            (ValidationPrompt::MakeSimpleWallet { restore: _ }, SetupEvent::WalletMade {
                wallet,
            }) => ValidationPrompt::AskStakeKind { wallet: SimpleWalletConfig::Stored { wallet } },
            (ValidationPrompt::AskStakeKind { wallet }, SetupEvent::Chosen { choice }) => {
                if choice == 1 {
                    ValidationPrompt::AskFixedStake { wallet }
                } else if choice == 2 {
                    ValidationPrompt::AskKeepBalance { wallet }
                } else {
                    ValidationPrompt::AskStakeKind { wallet }
                }
            },
            (ValidationPrompt::AskFixedStake { wallet }, SetupEvent::AmountGiven { amount }) => {
                match prompt_token_amount(amount, Setting::Stake) {
                    Err(error) => ValidationPrompt::Failed { error },
                    Ok(amount) => ValidationPrompt::Finished {
                        validation: ValidationConfig::Simple(
                            SimpleValidationConfig { wallet, stake: StakeConfig::Fixed { amount } },
                        ),
                    },
                }
            },
            (ValidationPrompt::AskKeepBalance { wallet }, SetupEvent::AmountGiven { amount }) => {
                match prompt_token_amount(amount, Setting::KeepWalletBalance) {
                    Err(error) => ValidationPrompt::Failed { error },
                    Ok(keep_wallet_balance) => ValidationPrompt::Finished {
                        validation: ValidationConfig::Simple(
                            SimpleValidationConfig {
                                wallet,
                                stake: StakeConfig::Float { keep_wallet_balance },
                            },
                        ),
                    },
                }
            },
            (ValidationPrompt::AskDepoolWallet, SetupEvent::Chosen { choice }) => {
                if choice == 1 || choice == 2 {
                    ValidationPrompt::MakeDepoolWallet { restore: choice == 2 }
                } else {
                    ValidationPrompt::AskDepoolWallet
                }
            },
            (ValidationPrompt::MakeDepoolWallet { restore: _ }, SetupEvent::WalletMade {
                wallet,
            }) => ValidationPrompt::AskDepool { validator_wallet: wallet },
            (ValidationPrompt::AskDepool { validator_wallet }, SetupEvent::Chosen { choice }) => {
                if choice == 1 {
                    ValidationPrompt::MakeNewDepool { validator_wallet }
                } else if choice == 2 {
                    ValidationPrompt::RestoreDepool { validator_wallet }
                } else if choice == 3 {
                    ValidationPrompt::AskDepoolAddress { validator_wallet }
                } else {
                    ValidationPrompt::AskDepool { validator_wallet }
                }
            },
            (
                ValidationPrompt::MakeNewDepool { validator_wallet },
                SetupEvent::NewDepoolMade { depool },
            ) => ValidationPrompt::Finished {
                validation: ValidationConfig::Depool(
                    DepoolValidationConfig { validator_wallet, depool: DepoolConfig::New(depool) },
                ),
            },
            (
                ValidationPrompt::RestoreDepool { validator_wallet },
                SetupEvent::DepoolRestored { existing },
            ) => ValidationPrompt::Finished {
                validation: ValidationConfig::Depool(
                    DepoolValidationConfig {
                        validator_wallet,
                        depool: DepoolConfig::Existing(existing),
                    },
                ),
            },
            (
                ValidationPrompt::AskDepoolAddress { validator_wallet },
                SetupEvent::AddressGiven { address, parsed },
            ) => {
                match ensure_workchain(parsed, BASECHAIN) {
                    Err(error) => ValidationPrompt::Failed { error },
                    Ok(_) => ValidationPrompt::Finished {
                        validation: ValidationConfig::Depool(
                            DepoolValidationConfig {
                                validator_wallet,
                                depool: DepoolConfig::Existing(
                                    ExistingDepoolConfig::address(address),
                                ),
                            },
                        ),
                    },
                }
            },
            (state, _) => state,
        }
    }
}

/// Every option that is offered leads on to another question.
pub proof fn law_every_option_leads_on(
    state: ValidationPrompt,
    choice: usize,
    folder: Seq<char>,
    next: ValidationPrompt,
)
    requires
        1 <= choice <= state.options_text().len(),
        state.leads_to(SetupEvent::Chosen { choice }, folder, next),
    ensures
        next != state,
{
}

/// Whether a stake was asked for and can be read.
pub open spec fn is_readable_stake(stake: StakeConfig) -> bool {
    match stake {
        StakeConfig::FromElectionsJson => false,
        StakeConfig::Fixed { amount } => setting_amount(Setting::Stake, amount@) is Ok,
        StakeConfig::Float { keep_wallet_balance } => setting_amount(
            Setting::KeepWalletBalance,
            keep_wallet_balance@,
        ) is Ok,
    }
}

/// A simple validation that the questions end with has a stake that can be read: no later
/// iteration fails on its text.
pub proof fn law_asked_stake_is_readable(
    state: ValidationPrompt,
    event: SetupEvent,
    folder: Seq<char>,
    next: ValidationPrompt,
)
    requires
        !(state is Finished),
        state.leads_to(event, folder, next),
    ensures
        next matches ValidationPrompt::Finished { validation: ValidationConfig::Simple(simple) }
            ==> is_readable_stake(simple.stake),
{
}

/// Whether the questions went through these states: each comes after the one before by some
/// answer.
pub open spec fn is_questioning(
    states: Seq<ValidationPrompt>,
    events: Seq<SetupEvent>,
    folder: Seq<char>,
) -> bool {
    &&& states.len() == events.len() + 1
    &&& states[0] == ValidationPrompt::AskType
    &&& forall|i: int|
        0 <= i < events.len() ==> (#[trigger] states[i]).leads_to(events[i], folder, states[i + 1])
}

/// Whether what was made, restored or given in one step is what its facts say: a wallet belongs to
/// the workchain that it was made for, and a DePool lies in the basechain. `wallet_facts` and
/// `depool_facts` are what the texts of a wallet and of a DePool yield.
pub open spec fn is_made_as_asked(
    state: ValidationPrompt,
    event: SetupEvent,
    wallet_facts: spec_fn(StoredWalletConfig, i8) -> KeyFacts,
    depool_facts: spec_fn(DepoolConfig) -> KeyFacts,
) -> bool {
    match (state, event) {
        (ValidationPrompt::MakeSimpleWallet { restore }, SetupEvent::WalletMade { wallet }) =>
            wallet_refusal(wallet, MASTERCHAIN, wallet_facts(wallet, MASTERCHAIN)) is None,
        (ValidationPrompt::MakeDepoolWallet { restore }, SetupEvent::WalletMade { wallet }) =>
            wallet_refusal(wallet, BASECHAIN, wallet_facts(wallet, BASECHAIN)) is None,
        (ValidationPrompt::MakeNewDepool { validator_wallet }, SetupEvent::NewDepoolMade { depool })
            => depool_refusal(depool, depool_facts(DepoolConfig::New(depool))) is None,
        (
            ValidationPrompt::RestoreDepool { validator_wallet },
            SetupEvent::DepoolRestored { existing },
        ) => in_workchain(
            depool_facts(DepoolConfig::Existing(existing)).address,
            BASECHAIN,
        ) is Ok,
        (
            ValidationPrompt::AskDepoolAddress { validator_wallet },
            SetupEvent::AddressGiven { address, parsed },
        ) => depool_facts(
            DepoolConfig::Existing(ExistingDepoolConfig { address, public: None }),
        ).address == parsed,
        _ => true,
    }
}

/// Whether `wallet` is the one that was made in step `i`, for simple validation or for a DePool.
pub open spec fn wallet_made_at(
    states: Seq<ValidationPrompt>,
    events: Seq<SetupEvent>,
    i: int,
    wallet: StoredWalletConfig,
    simple: bool,
) -> bool {
    &&& 0 <= i < events.len()
    &&& events[i] == (SetupEvent::WalletMade { wallet })
    &&& if simple {
        states[i] is MakeSimpleWallet
    } else {
        states[i] is MakeDepoolWallet
    }
}

/// Whether `wallet` was made on the way, for simple validation or for a DePool.
pub open spec fn was_made(
    states: Seq<ValidationPrompt>,
    events: Seq<SetupEvent>,
    wallet: StoredWalletConfig,
    simple: bool,
) -> bool {
    exists|i: int| wallet_made_at(states, events, i, wallet, simple)
}

/// Whether the wallet of a simple validation is the elections file's, or the one that was made and
/// is accepted.
pub open spec fn is_asked_simple_wallet(
    wallet: SimpleWalletConfig,
    states: Seq<ValidationPrompt>,
    events: Seq<SetupEvent>,
    folder: Seq<char>,
    wallet_facts: spec_fn(StoredWalletConfig, i8) -> KeyFacts,
) -> bool {
    match wallet {
        SimpleWalletConfig::ElectionsJson { path } => path matches Some(p) && p@ == joined(
            folder,
            "elections.json"@,
        ),
        SimpleWalletConfig::Stored { wallet: stored } => {
            &&& wallet_refusal(stored, MASTERCHAIN, wallet_facts(stored, MASTERCHAIN)) is None
            &&& was_made(states, events, stored, true)
        },
    }
}

/// Whether the wallet of a DePool validator is the one that was made, and is accepted.
pub open spec fn is_asked_depool_wallet(
    wallet: StoredWalletConfig,
    states: Seq<ValidationPrompt>,
    events: Seq<SetupEvent>,
    wallet_facts: spec_fn(StoredWalletConfig, i8) -> KeyFacts,
) -> bool {
    &&& wallet_refusal(wallet, BASECHAIN, wallet_facts(wallet, BASECHAIN)) is None
    &&& was_made(states, events, wallet, false)
}

/// What is known of what a state holds, once it is reached.
pub open spec fn holds_what_was_asked(
    state: ValidationPrompt,
    states: Seq<ValidationPrompt>,
    events: Seq<SetupEvent>,
    folder: Seq<char>,
    wallet_facts: spec_fn(StoredWalletConfig, i8) -> KeyFacts,
    depool_facts: spec_fn(DepoolConfig) -> KeyFacts,
) -> bool {
    match state {
        ValidationPrompt::AskStakeKind { wallet } => is_asked_simple_wallet(
            wallet,
            states,
            events,
            folder,
            wallet_facts,
        ),
        ValidationPrompt::AskFixedStake { wallet } => is_asked_simple_wallet(
            wallet,
            states,
            events,
            folder,
            wallet_facts,
        ),
        ValidationPrompt::AskKeepBalance { wallet } => is_asked_simple_wallet(
            wallet,
            states,
            events,
            folder,
            wallet_facts,
        ),
        ValidationPrompt::AskDepool { validator_wallet } => is_asked_depool_wallet(
            validator_wallet,
            states,
            events,
            wallet_facts,
        ),
        ValidationPrompt::MakeNewDepool { validator_wallet } => is_asked_depool_wallet(
            validator_wallet,
            states,
            events,
            wallet_facts,
        ),
        ValidationPrompt::RestoreDepool { validator_wallet } => is_asked_depool_wallet(
            validator_wallet,
            states,
            events,
            wallet_facts,
        ),
        ValidationPrompt::AskDepoolAddress { validator_wallet } => is_asked_depool_wallet(
            validator_wallet,
            states,
            events,
            wallet_facts,
        ),
        ValidationPrompt::Finished { validation: ValidationConfig::Simple(simple) } => {
            &&& is_asked_simple_wallet(simple.wallet, states, events, folder, wallet_facts)
            &&& is_readable_stake(simple.stake)
        },
        ValidationPrompt::Finished { validation: ValidationConfig::Depool(depool) } => {
            &&& is_asked_depool_wallet(depool.validator_wallet, states, events, wallet_facts)
            &&& depool_config_refusal(depool.depool, depool_facts(depool.depool)) is None
        },
        _ => true,
    }
}

proof fn lemma_wallet_stays_made(
    states: Seq<ValidationPrompt>,
    events: Seq<SetupEvent>,
    wallet: StoredWalletConfig,
    simple: bool,
)
    requires
        states.len() == events.len() + 1,
        events.len() > 0,
        was_made(states.drop_last(), events.drop_last(), wallet, simple),
    ensures
        was_made(states, events, wallet, simple),
{
    let i = choose|i: int|
        wallet_made_at(states.drop_last(), events.drop_last(), i, wallet, simple);
    assert(wallet_made_at(states, events, i, wallet, simple));
}

/// What a state of the questions holds is what was asked for, all through a run.
proof fn lemma_questions_hold_what_was_asked(
    states: Seq<ValidationPrompt>,
    events: Seq<SetupEvent>,
    folder: Seq<char>,
    wallet_facts: spec_fn(StoredWalletConfig, i8) -> KeyFacts,
    depool_facts: spec_fn(DepoolConfig) -> KeyFacts,
)
    requires
        is_questioning(states, events, folder),
        forall|i: int|
            0 <= i < events.len() ==> is_made_as_asked(
                #[trigger] states[i],
                events[i],
                wallet_facts,
                depool_facts,
            ),
    ensures
        holds_what_was_asked(
            states.last(),
            states,
            events,
            folder,
            wallet_facts,
            depool_facts,
        ),
    decreases events.len(),
{
    if events.len() > 0 {
        let fewer = states.drop_last();
        let init = events.drop_last();
        let last = events.len() - 1;
        assert forall|i: int| 0 <= i < init.len() implies (#[trigger] fewer[i]).leads_to(
            init[i],
            folder,
            fewer[i + 1],
        ) && is_made_as_asked(fewer[i], init[i], wallet_facts, depool_facts) by {
            assert(states[i].leads_to(events[i], folder, states[i + 1]));
        }
        lemma_questions_hold_what_was_asked(fewer, init, folder, wallet_facts, depool_facts);
        let before = states[last];
        assert(fewer.last() == before);
        assert(before.leads_to(events[last], folder, states[last + 1]));
        assert(is_made_as_asked(before, events[last], wallet_facts, depool_facts));
        assert forall|wallet: StoredWalletConfig, simple: bool|
            was_made(fewer, init, wallet, simple) implies #[trigger] was_made(
            states,
            events,
            wallet,
            simple,
        ) by {
            lemma_wallet_stays_made(states, events, wallet, simple);
        }
        match (before, events[last]) {
            (ValidationPrompt::MakeSimpleWallet { restore }, SetupEvent::WalletMade { wallet }) => {
                assert(wallet_made_at(states, events, last, wallet, true));
            },
            (ValidationPrompt::MakeDepoolWallet { restore }, SetupEvent::WalletMade { wallet }) => {
                assert(wallet_made_at(states, events, last, wallet, false));
            },
            _ => {},
        }
    }
}

/// A validation that the questions end with is one that a run accepts, where everything that was
/// made or restored on the way is what its facts say. A simple validation has a stake that can be
/// read, and the wallet that was made for the masterchain, or the elections file of the folder. A
/// validation through a DePool has the wallet that was made for the basechain, and a DePool that
/// is accepted, which lies in the basechain.
pub proof fn law_asked_validation_is_accepted(
    states: Seq<ValidationPrompt>,
    events: Seq<SetupEvent>,
    folder: Seq<char>,
    wallet_facts: spec_fn(StoredWalletConfig, i8) -> KeyFacts,
    depool_facts: spec_fn(DepoolConfig) -> KeyFacts,
)
    requires
        is_questioning(states, events, folder),
        forall|i: int|
            0 <= i < events.len() ==> is_made_as_asked(
                #[trigger] states[i],
                events[i],
                wallet_facts,
                depool_facts,
            ),
        states.last() is Finished,
    ensures
        match states.last()->validation {
            ValidationConfig::Simple(simple) => {
                &&& is_readable_stake(simple.stake)
                &&& match simple.wallet {
                    SimpleWalletConfig::ElectionsJson { path } => path matches Some(p) && p@
                        == joined(folder, "elections.json"@),
                    SimpleWalletConfig::Stored { wallet } => {
                        &&& wallet_refusal(
                            wallet,
                            MASTERCHAIN,
                            wallet_facts(wallet, MASTERCHAIN),
                        ) is None
                        &&& was_made(states, events, wallet, true)
                    },
                }
            },
            ValidationConfig::Depool(depool) => {
                let wallet = depool.validator_wallet;
                &&& wallet_refusal(wallet, BASECHAIN, wallet_facts(wallet, BASECHAIN)) is None
                &&& was_made(states, events, wallet, false)
                &&& depool_config_refusal(depool.depool, depool_facts(depool.depool)) is None
                &&& in_workchain(depool_facts(depool.depool).address, BASECHAIN) is Ok
            },
        },
{
    lemma_questions_hold_what_was_asked(states, events, folder, wallet_facts, depool_facts);
}

/// What a new DePool is to be like.
#[derive(Debug)]
pub struct DepoolTerms {
    pub min_stake: String,
    pub validator_assurance: String,
    pub participant_reward_fraction: u8,
}

/// The questions about a new DePool. The value says what is to be asked.
#[derive(Debug)]
pub enum DepoolPrompt {
    AskMinStake,
    AskAssurance { min_stake: String },
    AskRewardFraction { min_stake: String, validator_assurance: String },
    Finished { terms: DepoolTerms },
    Failed { error: Error },
}

impl DepoolPrompt {
    /// What is asked.
    pub open spec fn label_text(self) -> Seq<char> {
        match self {
            DepoolPrompt::AskMinStake => "DePool min stake"@,
            DepoolPrompt::AskAssurance { min_stake } => "Validator assurance"@,
            DepoolPrompt::AskRewardFraction { min_stake, validator_assurance } =>
                "Participant reward fraction"@,
            _ => ""@,
        }
    }

    /// What is asked.
    pub fn label(&self) -> (r: &'static str)
        ensures
            r@ == self.label_text(),
    {
        match self {
            DepoolPrompt::AskMinStake => "DePool min stake",
            DepoolPrompt::AskAssurance { min_stake: _ } => "Validator assurance",
            DepoolPrompt::AskRewardFraction { min_stake: _, validator_assurance: _ } =>
                "Participant reward fraction",
            _ => "",
        }
    }

    /// What an empty answer stands for.
    pub open spec fn default_text(self) -> Seq<char> {
        match self {
            DepoolPrompt::AskMinStake => DEFAULT_DEPOOL_MIN_STAKE@,
            DepoolPrompt::AskAssurance { min_stake } => DEFAULT_DEPOOL_ASSURANCE@,
            DepoolPrompt::AskRewardFraction { min_stake, validator_assurance } =>
                DEFAULT_REWARD_FRACTION@,
            _ => ""@,
        }
    }

    /// What an empty answer stands for.
    pub fn default_answer(&self) -> (r: &'static str)
        ensures
            r@ == self.default_text(),
    {
        match self {
            DepoolPrompt::AskMinStake => DEFAULT_DEPOOL_MIN_STAKE,
            DepoolPrompt::AskAssurance { min_stake: _ } => DEFAULT_DEPOOL_ASSURANCE,
            DepoolPrompt::AskRewardFraction { min_stake: _, validator_assurance: _ } =>
                DEFAULT_REWARD_FRACTION,
            _ => "",
        }
    }

    /// What comes after an answer.
    pub open spec fn after(self, answer: String) -> DepoolPrompt {
        match self {
            DepoolPrompt::AskMinStake => match setting_amount(Setting::MinStake, answer@) {
                Err(error) => DepoolPrompt::Failed { error },
                Ok(_) => DepoolPrompt::AskAssurance { min_stake: answer },
            },
            DepoolPrompt::AskAssurance { min_stake } => match setting_amount(
                Setting::ValidatorAssurance,
                answer@,
            ) {
                Err(error) => DepoolPrompt::Failed { error },
                Ok(_) => DepoolPrompt::AskRewardFraction { min_stake, validator_assurance: answer },
            },
            DepoolPrompt::AskRewardFraction { min_stake, validator_assurance } =>
                match small_number(answer@) {
                Err(error) => DepoolPrompt::Failed { error },
                Ok(participant_reward_fraction) => DepoolPrompt::Finished {
                    terms: DepoolTerms {
                        min_stake,
                        validator_assurance,
                        participant_reward_fraction,
                    },
                },
            },
            _ => self,
        }
    }

    /// Begins with the questions.
    pub fn prompt_new_depool_config() -> (r: DepoolPrompt)
        ensures
            r == DepoolPrompt::AskMinStake,
    {
        DepoolPrompt::AskMinStake
    }

    /// Goes on after an answer.
    pub fn next(self, answer: String) -> (r: DepoolPrompt)
        ensures
            r == self.after(answer),
    {
        match self {
            DepoolPrompt::AskMinStake => match prompt_token_amount(answer, Setting::MinStake) {
                Err(error) => DepoolPrompt::Failed { error },
                Ok(min_stake) => DepoolPrompt::AskAssurance { min_stake },
            },
            DepoolPrompt::AskAssurance { min_stake } => match prompt_token_amount(
                answer,
                Setting::ValidatorAssurance,
            ) {
                Err(error) => DepoolPrompt::Failed { error },
                Ok(validator_assurance) => DepoolPrompt::AskRewardFraction {
                    min_stake,
                    validator_assurance,
                },
            },
            DepoolPrompt::AskRewardFraction { min_stake, validator_assurance } => match prompt_u8(
                answer.as_str(),
            ) {
                Err(error) => DepoolPrompt::Failed { error },
                Ok(participant_reward_fraction) => DepoolPrompt::Finished {
                    terms: DepoolTerms {
                        min_stake,
                        validator_assurance,
                        participant_reward_fraction,
                    },
                },
            },
            other => other,
        }
    }
}

impl NewDepoolConfig {
    /// The DePool with these terms and this seed phrase, whose keys and address are given.
    pub fn from_terms(
        terms: DepoolTerms,
        address: String,
        seed: Option<String>,
        public: String,
        secret: String,
    ) -> (r: NewDepoolConfig)
        ensures
            r == (NewDepoolConfig {
                address,
                seed,
                public,
                secret,
                min_stake: terms.min_stake,
                validator_assurance: terms.validator_assurance,
                participant_reward_fraction: terms.participant_reward_fraction,
            }),
    {
        NewDepoolConfig {
            address,
            seed,
            public,
            secret,
            min_stake: terms.min_stake,
            validator_assurance: terms.validator_assurance,
            participant_reward_fraction: terms.participant_reward_fraction,
        }
    }
}

/// A new DePool that the questions end with has amounts that can be read: its deployment does not
/// fail on their texts.
pub proof fn law_asked_depool_is_deployable(
    first: String,
    second: String,
    third: String,
    address: String,
    seed: Option<String>,
    public: String,
    secret: String,
)
    requires
        DepoolPrompt::AskMinStake.after(first).after(second).after(third) is Finished,
    ensures
        ({
            let terms = DepoolPrompt::AskMinStake.after(first).after(second).after(third)->terms;
            deployment(
                DepoolRuntimeConfig {
                    address,
                    new: Some(
                        NewDepoolConfig {
                            address,
                            seed,
                            public,
                            secret,
                            min_stake: terms.min_stake,
                            validator_assurance: terms.validator_assurance,
                            participant_reward_fraction: terms.participant_reward_fraction,
                        },
                    ),
                },
            ) is Ok
        }),
{
}

/// The configuration folder that is offered.
pub open spec fn offered_folder(explicit_path: bool, config_path: Seq<char>) -> Seq<char> {
    match parent_of(config_path) {
        Some(folder) if explicit_path => folder,
        _ => DEFAULT_CONFIG_FOLDER@,
    }
}

/// What is offered when the user is asked for the configuration folder: the one of the file that
/// they named, else the usual one.
pub fn default_folder(explicit_path: bool, config_path: &str) -> (r: String)
    ensures
        r@ == offered_folder(explicit_path, config_path@),
{
    match parent_folder(config_path) {
        Some(folder) if explicit_path => folder,
        _ => DEFAULT_CONFIG_FOLDER.to_owned(),
    }
}

/// Where the node keys are expected.
pub fn node_keys_path(config_folder: &str) -> (r: String)
    ensures
        r@ == joined(config_folder@, "node_keys.json"@),
{
    join_user_path(config_folder, "node_keys.json")
}

/// Goes on only where the node keys exist.
pub fn check_node_keys(found: bool) -> (r: Result<(), Error>)
    ensures
        r == if found {
            Ok::<(), Error>(())
        } else {
            Err(Error::NodeKeysNotFound)
        },
{
    if found {
        Ok(())
    } else {
        Err(Error::NodeKeysNotFound)
    }
}

/// Whether `config` is what a user with these answers gets: dry, with the default for everything
/// else.
pub open spec fn is_fresh_config(
    config: AppConfig,
    endpoint: String,
    node_keys_path: String,
    validation: ValidationConfig,
) -> bool {
    &&& config.endpoint == endpoint
    &&& config.node_keys_path == node_keys_path
    &&& config.elections_path is None
    &&& config.validation == validation
    &&& !config.send
    &&& !config.once
    &&& config.retry == 3
    &&& config.stake_factor is None
    &&& config.depool_participate_value@ == DEFAULT_DEPOOL_PARTICIPATE_VALUE@
    &&& config.depool_wallet_reserve@ == DEFAULT_DEPOOL_WALLET_RESERVE@
    &&& config.confirmation_attempts == 20
    &&& config.confirmation_interval_secs == 3
    &&& config.poll_interval_secs == 60
    &&& config.error_retry_interval_secs == 30
}

/// The configuration that the user set up.
pub fn new_config(
    endpoint: String,
    node_keys_path: String,
    validation: ValidationConfig,
    home: Option<&str>,
) -> (r: AppConfig)
    ensures
        is_fresh_config(r, endpoint, node_keys_path, validation),
{
    let mut config: AppConfig = AppConfig::default(home);
    config.endpoint = endpoint;
    config.node_keys_path = node_keys_path;
    config.elections_path = None;
    config.validation = validation;
    config
}

/// Where the configuration is written.
pub open spec fn written_path(
    explicit_path: bool,
    config_path: Seq<char>,
    folder_typed: bool,
    folder: Seq<char>,
    current: Seq<char>,
    home: Option<&str>,
) -> Seq<char> {
    if explicit_path {
        config_path
    } else if folder_typed {
        expanded(joined(folder, CONFIG_FILE_NAME@), home)
    } else {
        joined(current, CONFIG_FILE_NAME@)
    }
}

/// Where the configuration is written: to the file that the user named, else into the folder that
/// they typed, else into the current folder.
pub fn write_path(
    explicit_path: bool,
    config_path: &str,
    folder_typed: bool,
    folder: &str,
    current: &str,
    home: Option<&str>,
) -> (r: String)
    ensures
        r@ == written_path(explicit_path, config_path@, folder_typed, folder@, current@, home),
{
    if explicit_path {
        config_path.to_owned()
    } else if folder_typed {
        expand_home(join_user_path(folder, CONFIG_FILE_NAME).as_str(), home)
    } else {
        join_user_path(current, CONFIG_FILE_NAME)
    }
}

/// An answer is what stands in the line between white space, and the default where nothing does.
pub proof fn law_answer_is_typed_or_default(
    before: Seq<char>,
    typed: Seq<char>,
    behind: Seq<char>,
    default: Seq<char>,
)
    requires
        all_white_space(before),
        all_white_space(behind),
        typed.len() > 0,
        !white_space(typed[0]),
        !white_space(typed.last()),
    ensures
        answer_of(before + typed + behind, default) == typed,
        answer_of(before, default) == default,
{
    law_white_space_is_trimmed(before, typed, behind);
}

/// Only letters of the ASCII alphabet are made small, one by one.
pub proof fn law_only_large_letters_are_lowered(s: Seq<char>, i: int)
    requires
        0 <= i < s.len(),
    ensures
        lowered(s).len() == s.len(),
        65 <= s[i] as int <= 90 ==> lowered(s)[i] as int == s[i] as int + 32,
        !(65 <= s[i] as int <= 90) ==> lowered(s)[i] == s[i],
{
}

/// A yes is a yes and a no is a no, whatever their letters and whatever the default. Nothing at all
/// and the hint are the default, and anything else is neither.
pub proof fn law_yes_is_yes_and_no_is_no(answer: Seq<char>, default: bool)
    ensures
        lowered(answer) == "y"@ || lowered(answer) == "yes"@ ==> confirmation(answer, default)
            == Some(true),
        lowered(answer) == "n"@ || lowered(answer) == "no"@ ==> confirmation(answer, default)
            == Some(false),
        answer.len() == 0 ==> confirmation(answer, default) == Some(default),
        confirmation("Y/n"@, true) == Some(true),
        confirmation("y/N"@, false) == Some(false),
        lowered(answer) != "y"@ && lowered(answer) != "yes"@ && lowered(answer) != "n"@ && lowered(
            answer,
        ) != "no"@ && lowered(answer) != "y/n"@ && lowered(answer) != "n/y"@ && answer.len() > 0
            ==> confirmation(answer, default) is None,
        lowered(answer) == "n/y"@ ==> confirmation(answer, default) == Some(false),
        lowered(answer) == "y/n"@ && answer != "y/N"@ ==> confirmation(answer, default)
            == Some(true),
{
    reveal_strlit("y");
    reveal_strlit("yes");
    reveal_strlit("n");
    reveal_strlit("no");
    reveal_strlit("y/n");
    reveal_strlit("n/y");
    reveal_strlit("Y/n");
    reveal_strlit("y/N");
    assert(lowered("Y/n"@) =~= "y/n"@);
    assert(lowered("y/N"@) =~= "y/n"@);
    assert(lowered(answer).len() == answer.len());
    assert("n/y"@[0] != "y/n"@[0]);
    assert("yes"@[1] != "y/n"@[1]);
    assert("y"@[0] != "n"@[0]);
}

/// The hint shows the default as the large letter.
pub proof fn law_hint_shows_the_default(default: bool)
    ensures
        confirm_hint(default) == if default {
            seq!['Y', '/', 'n']
        } else {
            seq!['y', '/', 'N']
        },
{
    reveal_strlit("Y/n");
    reveal_strlit("y/N");
}

/// An answer chooses an option exactly where it is the number of one. Another number is asked for
/// again, and what is no number is refused.
pub proof fn law_options_are_chosen_by_number(
    answer: &str,
    options: usize,
    r: Result<ChoiceAnswer, Error>,
    choice: usize,
)
    requires
        call_ensures(prompt_choice, (answer, options), r),
    ensures
        r == Ok::<ChoiceAnswer, Error>(ChoiceAnswer::Chosen { choice }) <==> unsigned_value(answer@)
            == Some(choice as int) && 1 <= choice <= options,
        unsigned_value(answer@) is None ==> r == Err::<ChoiceAnswer, Error>(Error::InvalidChoice),
        unsigned_value(answer@) == Some(0int) ==> r == Ok::<ChoiceAnswer, Error>(
            ChoiceAnswer::AskAgain,
        ),
        unsigned_value(answer@) matches Some(n) ==> (options < n <= usize::MAX ==> r == Ok::<
            ChoiceAnswer,
            Error,
        >(ChoiceAnswer::AskAgain)),
{
}

/// A small number is what the answer says, where that is a number below 256.
pub proof fn law_small_numbers_are_below_256(answer: Seq<char>, n: u8)
    ensures
        small_number(answer) == Ok::<u8, Error>(n) <==> unsigned_value(answer) == Some(n as int),
        unsigned_value(answer) is None || unsigned_value(answer)->Some_0 >= 256 ==> small_number(
            answer,
        ) == Err::<u8, Error>(Error::InvalidSmallNumber),
{
    if unsigned_value(answer) is Some {
        law_numbers_are_not_negative(answer);
    }
}

/// A question that offers nothing is its label with a colon behind it, and no brackets.
pub proof fn law_no_offer_is_not_shown(label: Seq<char>)
    ensures
        prompt_line_text(label, Seq::empty()) == label + seq![':', ' '],
{
    reveal_strlit(": ");
    assert(prompt_line_text(label, Seq::empty()) =~= label + seq![':', ' ']);
}

/// Two questions with the same label differ where what they offer differs.
pub proof fn law_offer_is_shown(label: Seq<char>, a: Seq<char>, b: Seq<char>)
    requires
        prompt_line_text(label, a) == prompt_line_text(label, b),
    ensures
        a == b,
{
    reveal_strlit(": ");
    reveal_strlit(" [");
    reveal_strlit("]: ");
    let line = prompt_line_text(label, a);
    if a.len() > 0 && b.len() > 0 {
        let from = label.len() + 2;
        assert(line.subrange(from as int, line.len() - 3) =~= a);
        assert(line.subrange(from as int, line.len() - 3) =~= b);
    } else if a.len() > 0 {
        assert(line.len() == label.len() + 2);
    } else if b.len() > 0 {
        assert(line.len() == label.len() + 2);
    } else {
        assert(a =~= b);
    }
}

/// The first question decides between simple validation and validation through a DePool. Then the
/// wallet is asked for: the elections file of the folder, a new wallet, or one that is restored.
pub proof fn law_wallet_is_asked_for(
    folder: Seq<char>,
    choice: usize,
    first: ValidationPrompt,
    simple: ValidationPrompt,
    depool: ValidationPrompt,
)
    requires
        ValidationPrompt::AskType.leads_to(SetupEvent::Chosen { choice }, folder, first),
        ValidationPrompt::AskSimpleWallet.leads_to(SetupEvent::Chosen { choice }, folder, simple),
        ValidationPrompt::AskDepoolWallet.leads_to(SetupEvent::Chosen { choice }, folder, depool),
    ensures
        choice == 1 <==> first is AskSimpleWallet,
        choice == 2 <==> first is AskDepoolWallet,
        choice != 1 && choice != 2 <==> first is AskType,
        choice == 1 <==> simple is AskStakeKind,
        choice == 1 ==> (simple->AskStakeKind_wallet matches SimpleWalletConfig::ElectionsJson {
            path: Some(path),
        } && path@ == joined(folder, "elections.json"@)),
        choice == 2 <==> simple == (ValidationPrompt::MakeSimpleWallet { restore: false }),
        choice == 3 <==> simple == (ValidationPrompt::MakeSimpleWallet { restore: true }),
        choice == 0 || choice > 3 <==> simple is AskSimpleWallet,
        choice == 1 <==> depool == (ValidationPrompt::MakeDepoolWallet { restore: false }),
        choice == 2 <==> depool == (ValidationPrompt::MakeDepoolWallet { restore: true }),
        choice == 0 || choice > 2 <==> depool is AskDepoolWallet,
{
}

/// A wallet that was made or restored is the one that is used from then on.
pub proof fn law_made_wallet_is_used(
    folder: Seq<char>,
    restore: bool,
    wallet: StoredWalletConfig,
    simple: ValidationPrompt,
    depool: ValidationPrompt,
)
    requires
        (ValidationPrompt::MakeSimpleWallet { restore }).leads_to(
            SetupEvent::WalletMade { wallet },
            folder,
            simple,
        ),
        (ValidationPrompt::MakeDepoolWallet { restore }).leads_to(
            SetupEvent::WalletMade { wallet },
            folder,
            depool,
        ),
    ensures
        simple == (ValidationPrompt::AskStakeKind { wallet: SimpleWalletConfig::Stored { wallet } }),
        depool == (ValidationPrompt::AskDepool { validator_wallet: wallet }),
{
}

/// The stake is fixed or floating as chosen, and the amount is taken over as it was given, with the
/// wallet; one that cannot be read is refused.
pub proof fn law_stake_is_as_answered(
    folder: Seq<char>,
    wallet: SimpleWalletConfig,
    choice: usize,
    amount: String,
    kind: ValidationPrompt,
    fixed: ValidationPrompt,
    floating: ValidationPrompt,
)
    requires
        (ValidationPrompt::AskStakeKind { wallet }).leads_to(
            SetupEvent::Chosen { choice },
            folder,
            kind,
        ),
        (ValidationPrompt::AskFixedStake { wallet }).leads_to(
            SetupEvent::AmountGiven { amount },
            folder,
            fixed,
        ),
        (ValidationPrompt::AskKeepBalance { wallet }).leads_to(
            SetupEvent::AmountGiven { amount },
            folder,
            floating,
        ),
    ensures
        choice == 1 <==> kind == (ValidationPrompt::AskFixedStake { wallet }),
        choice == 2 <==> kind == (ValidationPrompt::AskKeepBalance { wallet }),
        choice == 0 || choice > 2 <==> kind == (ValidationPrompt::AskStakeKind { wallet }),
        nano_amount(amount@) is Ok ==> {
            &&& fixed matches ValidationPrompt::Finished {
                validation: ValidationConfig::Simple(simple),
            }
            &&& simple.wallet == wallet
            &&& simple.stake == (StakeConfig::Fixed { amount })
        },
        nano_amount(amount@) is Ok ==> {
            &&& floating matches ValidationPrompt::Finished {
                validation: ValidationConfig::Simple(simple),
            }
            &&& simple.wallet == wallet
            &&& simple.stake == (StakeConfig::Float { keep_wallet_balance: amount })
        },
        nano_amount(amount@) matches Err(reason) ==> fixed == (ValidationPrompt::Failed {
            error: Error::Amount { setting: Setting::Stake, reason },
        }),
        nano_amount(amount@) matches Err(reason) ==> floating == (ValidationPrompt::Failed {
            error: Error::Amount { setting: Setting::KeepWalletBalance, reason },
        }),
{
}

/// The DePool is made, restored or named as chosen, and is taken over as it then is, with the wallet;
/// a named one that is not in the basechain is refused.
pub proof fn law_depool_is_as_answered(
    folder: Seq<char>,
    validator_wallet: StoredWalletConfig,
    choice: usize,
    depool: NewDepoolConfig,
    existing: ExistingDepoolConfig,
    address: String,
    parsed: Option<StdAddr>,
    kind: ValidationPrompt,
    made: ValidationPrompt,
    restored: ValidationPrompt,
    named: ValidationPrompt,
)
    requires
        (ValidationPrompt::AskDepool { validator_wallet }).leads_to(
            SetupEvent::Chosen { choice },
            folder,
            kind,
        ),
        (ValidationPrompt::MakeNewDepool { validator_wallet }).leads_to(
            SetupEvent::NewDepoolMade { depool },
            folder,
            made,
        ),
        (ValidationPrompt::RestoreDepool { validator_wallet }).leads_to(
            SetupEvent::DepoolRestored { existing },
            folder,
            restored,
        ),
        (ValidationPrompt::AskDepoolAddress { validator_wallet }).leads_to(
            SetupEvent::AddressGiven { address, parsed },
            folder,
            named,
        ),
    ensures
        choice == 1 <==> kind == (ValidationPrompt::MakeNewDepool { validator_wallet }),
        choice == 2 <==> kind == (ValidationPrompt::RestoreDepool { validator_wallet }),
        choice == 3 <==> kind == (ValidationPrompt::AskDepoolAddress { validator_wallet }),
        choice == 0 || choice > 3 <==> kind == (ValidationPrompt::AskDepool { validator_wallet }),
        made matches ValidationPrompt::Finished { validation: ValidationConfig::Depool(v) }
            && v.validator_wallet == validator_wallet && v.depool == DepoolConfig::New(depool),
        restored matches ValidationPrompt::Finished { validation: ValidationConfig::Depool(v) }
            && v.validator_wallet == validator_wallet && v.depool == DepoolConfig::Existing(
            existing,
        ),
        (parsed matches Some(a) && a.workchain == 0) ==> (named matches ValidationPrompt::Finished {
            validation: ValidationConfig::Depool(v),
        } && v.validator_wallet == validator_wallet && (v.depool matches DepoolConfig::Existing(e)
            && e.address == address && e.public is None)),
        parsed is None ==> named == (ValidationPrompt::Failed { error: Error::InvalidAddress }),
        parsed matches Some(a) ==> (a.workchain != 0 ==> named == (ValidationPrompt::Failed {
            error: Error::WrongWorkchain { expected: 0, found: a.workchain },
        })),
{
}

/// The questions wait for the answer to what is asked, and keep their end.
pub proof fn law_questions_wait(
    state: ValidationPrompt,
    event: SetupEvent,
    folder: Seq<char>,
    next: ValidationPrompt,
)
    requires
        state.leads_to(event, folder, next),
        state.options_text().len() > 0 && !(event is Chosen) || (state is MakeSimpleWallet
            || state is MakeDepoolWallet) && !(event is WalletMade) || (state is AskFixedStake
            || state is AskKeepBalance) && !(event is AmountGiven) || state is MakeNewDepool && !(
        event is NewDepoolMade) || state is RestoreDepool && !(event is DepoolRestored)
            || state is AskDepoolAddress && !(event is AddressGiven) || state is Finished
            || state is Failed,
    ensures
        next == state,
{
}

/// What is offered for an amount can be read, and what is offered for a list of options is one of
/// them. Nothing is offered for anything else.
pub proof fn law_offers_are_good_answers(state: ValidationPrompt)
    ensures
        state is AskFixedStake ==> nano_amount(state.default_text()) == Ok::<u128, AmountError>(
            500_000_000_000_000,
        ),
        state is AskKeepBalance ==> nano_amount(state.default_text()) == Ok::<u128, AmountError>(
            100_000_000_000,
        ),
        state.options_text().len() > 0 ==> unsigned_value(state.default_text()) == Some(1int),
        state.options_text().len() > 0 <==> state is AskType || state is AskSimpleWallet
            || state is AskStakeKind || state is AskDepoolWallet || state is AskDepool,
        state.options_text().len() == 0 && !(state is AskFixedStake) && !(state is AskKeepBalance)
            ==> state.default_text().len() == 0,
{
    reveal_strlit("");
    reveal_strlit("500000");
    reveal_strlit("100");
    reveal_strlit("1");
    reveal_with_fuel(digits_value, 7);
    law_whole_amount_is_in_tokens("500000"@);
    law_whole_amount_is_in_tokens("100"@);
    let a = "500000"@;
    assert(a.drop_last().drop_last().drop_last().drop_last().drop_last().drop_last().len() == 0);
    assert(digits_value(a) == 500000);
    let b = "100"@;
    assert(b.drop_last().drop_last().drop_last().len() == 0);
    assert(digits_value(b) == 100);
    let c = "1"@;
    assert(c.drop_last().len() == 0);
    assert(digits_value(c) == 1);
    assert(unsigned_digits(c) == c);
}

/// A simple validator's wallet is made for the masterchain, and that of a DePool validator for the
/// basechain.
pub proof fn law_wallets_are_made_for_their_workchain(
    state: ValidationPrompt,
    workchain: Option<i8>,
)
    requires
        call_ensures(ValidationPrompt::wallet_workchain, (&state,), workchain),
    ensures
        state is MakeSimpleWallet <==> workchain == Some(-1i8),
        state is MakeDepoolWallet <==> workchain == Some(0i8),
        !(state is MakeSimpleWallet) && !(state is MakeDepoolWallet) <==> workchain is None,
{
}

/// A new DePool gets the smallest stake, the assurance and the reward fraction that were given, in
/// this order and as they were given. An answer that cannot be read ends the questions.
pub proof fn law_depool_terms_are_as_answered(first: String, second: String, third: String)
    ensures
        ({
            let asked = DepoolPrompt::AskMinStake.after(first);
            let assured = asked.after(second);
            let end = assured.after(third);
            match (nano_amount(first@), nano_amount(second@)) {
                (Ok(_), Ok(_)) => {
                    &&& unsigned_value(third@) matches Some(n) ==> (n < 256 ==> (
                    end matches DepoolPrompt::Finished { terms } && terms.min_stake == first
                        && terms.validator_assurance == second && terms.participant_reward_fraction
                        == n))
                    &&& unsigned_value(third@) is None || unsigned_value(third@)->Some_0 >= 256
                        ==> end == (DepoolPrompt::Failed { error: Error::InvalidSmallNumber })
                },
                (Err(reason), _) => end == (DepoolPrompt::Failed {
                    error: Error::Amount { setting: Setting::MinStake, reason },
                }),
                (_, Err(reason)) => end == (DepoolPrompt::Failed {
                    error: Error::Amount { setting: Setting::ValidatorAssurance, reason },
                }),
            }
        }),
{
    if unsigned_value(third@) is Some {
        law_numbers_are_not_negative(third@);
    }
}

/// The questions about a new DePool keep their end, and what they offer can be read: a hundred tokens
/// as the smallest stake, five hundred as the assurance, and 95 as the reward fraction.
pub proof fn law_depool_questions_end(
    state: DepoolPrompt,
    answer: String,
    terms: DepoolTerms,
    error: Error,
)
    ensures
        (DepoolPrompt::Finished { terms }).after(answer) == (DepoolPrompt::Finished { terms }),
        (DepoolPrompt::Failed { error }).after(answer) == (DepoolPrompt::Failed { error }),
        state is AskMinStake ==> nano_amount(state.default_text()) == Ok::<u128, AmountError>(
            100_000_000_000,
        ),
        state is AskAssurance ==> nano_amount(state.default_text()) == Ok::<u128, AmountError>(
            500_000_000_000,
        ),
        state is AskRewardFraction ==> small_number(state.default_text()) == Ok::<u8, Error>(95),
        state is Finished || state is Failed ==> state.default_text().len() == 0,
{
    reveal_strlit("");
    reveal_strlit("100");
    reveal_strlit("500");
    reveal_strlit("95");
    reveal_with_fuel(digits_value, 4);
    law_whole_amount_is_in_tokens("100"@);
    law_whole_amount_is_in_tokens("500"@);
    assert("100"@.drop_last().drop_last().drop_last().len() == 0);
    assert("500"@.drop_last().drop_last().drop_last().len() == 0);
    assert("95"@.drop_last().drop_last().len() == 0);
    assert(digits_value("100"@) == 100);
    assert(digits_value("500"@) == 500);
    assert(digits_value("95"@) == 95);
    assert(unsigned_digits("95"@) == "95"@);
}

/// The folder that is offered is the one of the file that the user named, where that has one, and
/// the usual one where they named none.
pub proof fn law_offered_folder_is_the_named_one(folder: Seq<char>, config_path: Seq<char>)
    ensures
        offered_folder(false, config_path) == "~/.tycho"@,
        parent_of(config_path) is None ==> offered_folder(true, config_path) == "~/.tycho"@,
        parent_of(config_path) == Some(folder) ==> offered_folder(true, config_path) == folder,
{
}

/// The configuration goes to the named file, whatever folder was typed; else into the typed folder,
/// with the home folder for its sign; else into the current folder.
pub proof fn law_config_goes_where_it_is_wanted(
    config_path: Seq<char>,
    folder_typed: bool,
    folder: Seq<char>,
    current: Seq<char>,
    home: Option<&str>,
)
    ensures
        written_path(true, config_path, folder_typed, folder, current, home) == config_path,
        written_path(false, config_path, true, folder, current, home) == expanded(
            joined(folder, "ever-elect.json"@),
            home,
        ),
        written_path(false, config_path, false, folder, current, home) == joined(
            current,
            "ever-elect.json"@,
        ),
{
}

/// A fresh configuration is a dry one that goes on until it is stopped. Five tokens go with a
/// request, and twenty stay on the wallet.
pub proof fn law_fresh_config_can_be_run(
    config: AppConfig,
    endpoint: String,
    node_keys_path: String,
    validation: ValidationConfig,
)
    requires
        is_fresh_config(config, endpoint, node_keys_path, validation),
    ensures
        !config.send,
        !config.once,
        config.endpoint == endpoint,
        config.node_keys_path == node_keys_path,
        config.validation == validation,
        config.elections_path is None,
        config.stake_factor is None,
        config.retry == 3,
        config.confirmation_attempts == 20,
        config.confirmation_interval_secs == 3,
        config.poll_interval_secs == 60,
        config.error_retry_interval_secs == 30,
        config.participate_value() == Ok::<u128, Error>(5_000_000_000),
        config.wallet_reserve() == Ok::<u128, Error>(20_000_000_000),
{
    reveal_strlit("5");
    reveal_strlit("20");
    reveal_with_fuel(digits_value, 3);
    law_whole_amount_is_in_tokens("5"@);
    law_whole_amount_is_in_tokens("20"@);
    assert("5"@.drop_last().len() == 0);
    assert("20"@.drop_last().drop_last().len() == 0);
    assert(digits_value("5"@) == 5);
    assert(digits_value("20"@) == 20);
}

/// Every option leads where it says.
pub proof fn law_options_lead_where_they_say(
    state: ValidationPrompt,
    choice: usize,
    folder: Seq<char>,
    next: ValidationPrompt,
)
    requires
        1 <= choice <= state.options_text().len(),
        state.leads_to(SetupEvent::Chosen { choice }, folder, next),
    ensures
        ({
            let option = state.options_text()[choice - 1];
            &&& state is AskType ==> (option == "Simple"@ <==> next is AskSimpleWallet) && (option
                == "Depool"@ <==> next is AskDepoolWallet)
            &&& state is AskSimpleWallet ==> (option == "Use from elections.json"@ <==> next
                is AskStakeKind) && (option == "Create new"@ <==> next == (
            ValidationPrompt::MakeSimpleWallet { restore: false })) && (option
                == "Restore from seed"@ <==> next == (ValidationPrompt::MakeSimpleWallet {
                restore: true,
            }))
            &&& state is AskStakeKind ==> (option == "Fixed amount"@ <==> next is AskFixedStake)
                && (option == "Float: use wallet balance except reserved amount"@ <==> next
                is AskKeepBalance)
            &&& state is AskDepoolWallet ==> (option == "Create new"@ <==> next == (
            ValidationPrompt::MakeDepoolWallet { restore: false })) && (option
                == "Restore from seed"@ <==> next == (ValidationPrompt::MakeDepoolWallet {
                restore: true,
            }))
            &&& state is AskDepool ==> (option == "Create new"@ <==> next is MakeNewDepool) && (
            option == "Restore from seed"@ <==> next is RestoreDepool) && (option
                == "Use existing by address"@ <==> next is AskDepoolAddress)
        }),
{
    reveal_strlit("Simple");
    reveal_strlit("Depool");
    reveal_strlit("Use from elections.json");
    reveal_strlit("Create new");
    reveal_strlit("Restore from seed");
    reveal_strlit("Fixed amount");
    reveal_strlit("Float: use wallet balance except reserved amount");
    reveal_strlit("Use existing by address");
    assert("Simple"@[0] != "Depool"@[0]);
    assert("Simple"@ != "Depool"@);
    assert("Use from elections.json"@.len() == 23);
    assert("Create new"@.len() == 10);
    assert("Restore from seed"@.len() == 17);
    assert("Fixed amount"@.len() == 12);
    assert("Float: use wallet balance except reserved amount"@.len() == 48);
    assert("Use existing by address"@.len() == 23);
}

/// A DePool that is made or restored has the keys, the address and the terms that were given for it.
pub proof fn law_depool_is_put_together_as_given(
    terms: DepoolTerms,
    address: String,
    seed: Option<String>,
    public: String,
    secret: String,
    made: NewDepoolConfig,
    restored: ExistingDepoolConfig,
    named: ExistingDepoolConfig,
)
    requires
        call_ensures(NewDepoolConfig::from_terms, (terms, address, seed, public, secret), made),
        call_ensures(ExistingDepoolConfig::from_seed, (address, public), restored),
        call_ensures(ExistingDepoolConfig::address, (address,), named),
    ensures
        made.address == address,
        made.seed == seed,
        made.public == public,
        made.secret == secret,
        made.min_stake == terms.min_stake,
        made.validator_assurance == terms.validator_assurance,
        made.participant_reward_fraction == terms.participant_reward_fraction,
        restored.address == address,
        restored.public == Some(public),
        named.address == address,
        named.public is None,
{
}

} // verus!
