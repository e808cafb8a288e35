//! What can go wrong, and what the user is told of it.

use crate::amount::AmountError;
use crate::text::{decimal, decimal_text, law_decimal_reads_back, unsigned_value};
use vstd::prelude::*;

verus! {

/// The amounts that a configuration gives as text.
#[derive(Clone, Copy, Debug, PartialEq, Eq, Structural)]
pub enum Setting {
    ParticipateValue,
    WalletReserve,
    Stake,
    KeepWalletBalance,
    MinStake,
    ValidatorAssurance,
}

/// Every refusal of this library.
#[derive(Clone, Copy, Debug, PartialEq, Eq, Structural)]
pub enum Error {
    /// The command line names no command.
    InvalidArguments,
    /// An amount in the configuration cannot be read.
    Amount { setting: Setting, reason: AmountError },
    /// `depool_participate_value` is zero.
    ZeroParticipateValue,
    /// `depool_wallet_reserve` is zero.
    ZeroWalletReserve,
    /// The stake is to come from an elections file, and there is none.
    StakeUnavailable,
    /// Nothing is left for a floating stake.
    FloatingStakeTooLow,
    /// The validator assurance of a new DePool does not fit 64 bits.
    AssuranceTooLarge,
    /// A text is no address.
    InvalidAddress,
    /// An address lies in another workchain.
    WrongWorkchain { expected: i8, found: i8 },
    /// A wallet secret is no key.
    InvalidWalletSecret,
    /// A wallet's public key does not belong to its secret.
    WalletKeyMismatch,
    /// No address can be computed for a wallet key.
    UnknownWalletAddress,
    /// A wallet's address does not belong to its key.
    WalletAddressMismatch,
    /// The validator wallet's address does not belong to its key.
    ValidatorAddressMismatch,
    /// A DePool secret is no key.
    InvalidDepoolSecret,
    /// A DePool's public key does not belong to its secret.
    DepoolKeyMismatch,
    /// No address can be computed for a DePool key.
    UnknownDepoolAddress,
    /// A DePool's address does not belong to its key.
    DepoolAddressMismatch,
    /// The elections file is not of the simple kind.
    UnsupportedElections,
    /// The node secret is no key.
    InvalidNodeSecret,
    /// The node's public key does not belong to its secret.
    NodeKeyMismatch,
    /// The configured DePool is not deployed, and there is nothing to deploy it with.
    DepoolNotActive,
    /// The DePool belongs to another validator wallet.
    ValidatorWalletMismatch,
    /// The amount that a DePool's own balance lacks is out of range.
    TopupOutOfRange,
    /// The DePool has no proxies.
    NoProxies,
    /// The validator key is registered from an address that is not the wallet's.
    ForeignWalletSource,
    /// The validator key did not get registered in time.
    NotRegistered,
    /// The validator key is registered from an address that is not a proxy's.
    ForeignProxySource,
    /// The validator key did not get registered in time through the DePool.
    NotRegisteredByDepool,
    /// `HOME` is not set.
    HomeNotSet,
    /// There is no current directory.
    NoCurrentDirectory,
    /// The node keys file does not exist.
    NodeKeysNotFound,
    /// The configuration file does not exist.
    ConfigNotFound,
    /// An answer is no number.
    InvalidChoice,
    /// An answer is no number below 256.
    InvalidSmallNumber,
}

/// The decimal digits of `n`, with a sign where it is negative.
pub open spec fn signed_text(n: int) -> Seq<char> {
    if n < 0 {
        "-"@ + decimal_text(-n)
    } else {
        decimal_text(n)
    }
}

fn signed(n: i8) -> (r: String)
    ensures
        r@ == signed_text(n as int),
{
    if n < 0 {
        let magnitude: u128 = (-(n as i16)) as u128;
        "-".to_owned().concat(decimal(magnitude).as_str())
    } else {
        decimal(n as u128)
    }
}

impl Error {
    /// What the user is told.
    ///
    /// `subject` is what the error is about (an amount, an address, a path, an answer), `other`
    /// is what it was held against.
    pub open spec fn text(self, subject: Seq<char>, other: Seq<char>) -> Seq<char> {
        match self {
            Error::InvalidArguments => "invalid arguments; use `ever-elect help`"@,
            Error::Amount { setting, reason } => reason.text(subject),
            Error::ZeroParticipateValue => "depool_participate_value must be greater than zero"@,
            Error::ZeroWalletReserve => "depool_wallet_reserve must be greater than zero"@,
            Error::StakeUnavailable => "stake is not available from elections.json"@,
            Error::FloatingStakeTooLow => "wallet balance is too low for floating stake"@,
            Error::AssuranceTooLarge => "validator assurance does not fit uint64"@,
            Error::InvalidAddress => "invalid address "@ + subject,
            Error::WrongWorkchain { expected, found } => "address "@ + subject
                + " must be in workchain "@ + signed_text(expected as int) + ", got "@
                + signed_text(found as int),
            Error::InvalidWalletSecret => "invalid wallet secret"@,
            Error::WalletKeyMismatch => "wallet public key does not match wallet secret"@,
            Error::UnknownWalletAddress => "wallet address cannot be computed"@,
            Error::WalletAddressMismatch => "wallet address mismatch: config has "@ + subject
                + ", derived "@ + other,
            Error::ValidatorAddressMismatch => "validator wallet address mismatch: config has "@
                + subject + ", derived "@ + other,
            Error::InvalidDepoolSecret => "invalid DePool deployment secret"@,
            Error::DepoolKeyMismatch => "DePool public key does not match secret"@,
            Error::UnknownDepoolAddress => "DePool address cannot be computed"@,
            Error::DepoolAddressMismatch => "DePool address mismatch: config has "@ + subject
                + ", derived "@ + other,
            Error::UnsupportedElections => "only Simple elections config is supported"@,
            Error::InvalidNodeSecret => "invalid node secret"@,
            Error::NodeKeyMismatch => "node public key does not match node secret"@,
            Error::DepoolNotActive => "configured DePool "@ + subject + " is not active"@,
            Error::ValidatorWalletMismatch => "DePool validator wallet mismatch: depool has "@
                + subject + ", configured wallet is "@ + other,
            Error::TopupOutOfRange => "DePool own balance topup does not fit uint128"@,
            Error::NoProxies => "DePool has no proxies"@,
            Error::ForeignWalletSource =>
                "registered election source address does not match wallet"@,
            Error::NotRegistered =>
                "validator key is not registered after participation confirmation timeout"@,
            Error::ForeignProxySource =>
                "registered election source address does not match a DePool proxy"@,
            Error::NotRegisteredByDepool =>
                "validator key is not registered after DePool confirmation timeout"@,
            Error::HomeNotSet => "HOME is not set"@,
            Error::NoCurrentDirectory => "failed to get current directory"@,
            Error::NodeKeysNotFound => "node keys not found at "@ + subject
                + "; initialize the node first with `tycho node init`"@,
            Error::ConfigNotFound => "config "@ + subject
                + " does not exist; run `ever-elect init` first"@,
            Error::InvalidChoice => "invalid choice `"@ + subject + "`"@,
            Error::InvalidSmallNumber => "invalid u8 value `"@ + subject + "`"@,
        }
    }

    /// Tells the user what went wrong with `subject`, held against `other`.
    pub fn message(self, subject: &str, other: &str) -> (r: String)
        ensures
            r@ == self.text(subject@, other@),
    {
        match self {
            Error::InvalidArguments => "invalid arguments; use `ever-elect help`".to_owned(),
            Error::Amount { setting: _, reason } => reason.message(subject),
            Error::ZeroParticipateValue =>
                "depool_participate_value must be greater than zero".to_owned(),
            Error::ZeroWalletReserve =>
                "depool_wallet_reserve must be greater than zero".to_owned(),
            Error::StakeUnavailable => "stake is not available from elections.json".to_owned(),
            Error::FloatingStakeTooLow => "wallet balance is too low for floating stake".to_owned(),
            Error::AssuranceTooLarge => "validator assurance does not fit uint64".to_owned(),
            Error::InvalidAddress => "invalid address ".to_owned().concat(subject),
            Error::WrongWorkchain { expected, found } => "address ".to_owned().concat(
                subject,
            ).concat(" must be in workchain ").concat(signed(expected).as_str()).concat(
                ", got ",
            ).concat(signed(found).as_str()),
            Error::InvalidWalletSecret => "invalid wallet secret".to_owned(),
            Error::WalletKeyMismatch =>
                "wallet public key does not match wallet secret".to_owned(),
            Error::UnknownWalletAddress => "wallet address cannot be computed".to_owned(),
            Error::WalletAddressMismatch => "wallet address mismatch: config has ".to_owned().concat(
                subject,
            ).concat(", derived ").concat(other),
            Error::ValidatorAddressMismatch =>
                "validator wallet address mismatch: config has ".to_owned().concat(subject).concat(
                ", derived ",
            ).concat(other),
            Error::InvalidDepoolSecret => "invalid DePool deployment secret".to_owned(),
            Error::DepoolKeyMismatch => "DePool public key does not match secret".to_owned(),
            Error::UnknownDepoolAddress => "DePool address cannot be computed".to_owned(),
            Error::DepoolAddressMismatch => "DePool address mismatch: config has ".to_owned().concat(
                subject,
            ).concat(", derived ").concat(other),
            Error::UnsupportedElections => "only Simple elections config is supported".to_owned(),
            Error::InvalidNodeSecret => "invalid node secret".to_owned(),
            Error::NodeKeyMismatch => "node public key does not match node secret".to_owned(),
            Error::DepoolNotActive => "configured DePool ".to_owned().concat(subject).concat(
                " is not active",
            ),
            Error::ValidatorWalletMismatch =>
                "DePool validator wallet mismatch: depool has ".to_owned().concat(subject).concat(
                ", configured wallet is ",
            ).concat(other),
            Error::TopupOutOfRange => "DePool own balance topup does not fit uint128".to_owned(),
            Error::NoProxies => "DePool has no proxies".to_owned(),
            Error::ForeignWalletSource =>
                "registered election source address does not match wallet".to_owned(),
            Error::NotRegistered =>
                "validator key is not registered after participation confirmation timeout".to_owned(),
            Error::ForeignProxySource =>
                "registered election source address does not match a DePool proxy".to_owned(),
            Error::NotRegisteredByDepool =>
                "validator key is not registered after DePool confirmation timeout".to_owned(),
            Error::HomeNotSet => "HOME is not set".to_owned(),
            Error::NoCurrentDirectory => "failed to get current directory".to_owned(),
            Error::NodeKeysNotFound => "node keys not found at ".to_owned().concat(subject).concat(
                "; initialize the node first with `tycho node init`",
            ),
            Error::ConfigNotFound => "config ".to_owned().concat(subject).concat(
                " does not exist; run `ever-elect init` first",
            ),
            Error::InvalidChoice => "invalid choice `".to_owned().concat(subject).concat("`"),
            Error::InvalidSmallNumber => "invalid u8 value `".to_owned().concat(subject).concat("`"),
        }
    }
}

/// A number in a message reads back, with its sign.
pub proof fn law_signed_number_reads_back(n: int)
    ensures
        n >= 0 ==> unsigned_value(signed_text(n)) == Some(n),
        n < 0 ==> signed_text(n)[0] == '-' && unsigned_value(signed_text(n).drop_first()) == Some(
            -n,
        ),
{
    reveal_strlit("-");
    if n < 0 {
        law_decimal_reads_back(-n);
        assert(signed_text(n).drop_first() =~= decimal_text(-n));
    } else {
        law_decimal_reads_back(n);
    }
}

/// A message that is about something shows it, whatever it is: with another address, path or answer
/// it is another message.
pub proof fn law_message_shows_its_subject(
    error: Error,
    subject: Seq<char>,
    another: Seq<char>,
    other: Seq<char>,
)
    requires
        error is InvalidAddress || error is WrongWorkchain || error is DepoolNotActive
            || error is NodeKeysNotFound || error is ConfigNotFound || error is InvalidChoice
            || error is InvalidSmallNumber,
        error.text(subject, other) == error.text(another, other),
    ensures
        subject == another,
{
    let a = error.text(subject, other);
    let b = error.text(another, other);
    reveal_strlit("invalid address ");
    reveal_strlit("address ");
    reveal_strlit("configured DePool ");
    reveal_strlit("node keys not found at ");
    reveal_strlit("config ");
    reveal_strlit("invalid choice `");
    reveal_strlit("invalid u8 value `");
    let from: int = match error {
        Error::InvalidAddress => 16,
        Error::WrongWorkchain { expected, found } => 8,
        Error::DepoolNotActive => 18,
        Error::NodeKeysNotFound => 23,
        Error::ConfigNotFound => 7,
        Error::InvalidChoice => 16,
        _ => 18,
    };
    assert(a.len() - subject.len() == b.len() - another.len()) by {
        match error {
            Error::WrongWorkchain { expected, found } => {
                let rest = " must be in workchain "@.len() + signed_text(expected as int).len()
                    + ", got "@.len() + signed_text(found as int).len();
                assert(a.len() == 8 + subject.len() + rest);
                assert(b.len() == 8 + another.len() + rest);
            },
            _ => {},
        }
    }
    assert(subject.len() == another.len());
    assert(a.subrange(from, from + subject.len()) =~= subject);
    assert(b.subrange(from, from + another.len()) =~= another);
}

} // verus!
