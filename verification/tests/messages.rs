use ever_elect::amount::AmountError;
use ever_elect::error::{Error, Setting};

#[test]
fn tells_what_went_wrong() {
    let cases = [
        (Error::InvalidArguments, "invalid arguments; use `ever-elect help`"),
        (
            Error::Amount {
                setting: Setting::Stake,
                reason: AmountError::InvalidWhole,
            },
            "invalid whole token amount `S`",
        ),
        (Error::ZeroParticipateValue, "depool_participate_value must be greater than zero"),
        (Error::ZeroWalletReserve, "depool_wallet_reserve must be greater than zero"),
        (Error::StakeUnavailable, "stake is not available from elections.json"),
        (Error::FloatingStakeTooLow, "wallet balance is too low for floating stake"),
        (Error::AssuranceTooLarge, "validator assurance does not fit uint64"),
        (Error::InvalidAddress, "invalid address S"),
        (
            Error::WrongWorkchain {
                expected: -1,
                found: 0,
            },
            "address S must be in workchain -1, got 0",
        ),
        (
            Error::WrongWorkchain {
                expected: 0,
                found: -128,
            },
            "address S must be in workchain 0, got -128",
        ),
        (Error::InvalidWalletSecret, "invalid wallet secret"),
        (Error::WalletKeyMismatch, "wallet public key does not match wallet secret"),
        (Error::UnknownWalletAddress, "wallet address cannot be computed"),
        (Error::WalletAddressMismatch, "wallet address mismatch: config has S, derived O"),
        (
            Error::ValidatorAddressMismatch,
            "validator wallet address mismatch: config has S, derived O",
        ),
        (Error::InvalidDepoolSecret, "invalid DePool deployment secret"),
        (Error::DepoolKeyMismatch, "DePool public key does not match secret"),
        (Error::UnknownDepoolAddress, "DePool address cannot be computed"),
        (Error::DepoolAddressMismatch, "DePool address mismatch: config has S, derived O"),
        (Error::UnsupportedElections, "only Simple elections config is supported"),
        (Error::InvalidNodeSecret, "invalid node secret"),
        (Error::NodeKeyMismatch, "node public key does not match node secret"),
        (Error::DepoolNotActive, "configured DePool S is not active"),
        (
            Error::ValidatorWalletMismatch,
            "DePool validator wallet mismatch: depool has S, configured wallet is O",
        ),
        (Error::TopupOutOfRange, "DePool own balance topup does not fit uint128"),
        (Error::NoProxies, "DePool has no proxies"),
        (
            Error::ForeignWalletSource,
            "registered election source address does not match wallet",
        ),
        (
            Error::NotRegistered,
            "validator key is not registered after participation confirmation timeout",
        ),
        (
            Error::ForeignProxySource,
            "registered election source address does not match a DePool proxy",
        ),
        (
            Error::NotRegisteredByDepool,
            "validator key is not registered after DePool confirmation timeout",
        ),
        (Error::HomeNotSet, "HOME is not set"),
        (Error::NoCurrentDirectory, "failed to get current directory"),
        (
            Error::NodeKeysNotFound,
            "node keys not found at S; initialize the node first with `tycho node init`",
        ),
        (Error::ConfigNotFound, "config S does not exist; run `ever-elect init` first"),
        (Error::InvalidChoice, "invalid choice `S`"),
        (Error::InvalidSmallNumber, "invalid u8 value `S`"),
    ];
    for (error, text) in cases {
        assert_eq!(error.message("S", "O"), text);
    }
}
