use ever_elect::address::{ensure_workchain, HashBytes, StdAddr, BASECHAIN, MASTERCHAIN};
use ever_elect::amount::AmountError;
use ever_elect::config::{
    AppConfig, DepoolConfig, DepoolRuntimeConfig, DepoolValidationConfig, ElectionsFile,
    ExistingDepoolConfig, KeyFacts, LoadedWallet, NewDepoolConfig, NodeKeysFile,
    SimpleValidationConfig, SimpleWalletConfig, StakeConfig, StoredWalletConfig, ValidationConfig,
};
use ever_elect::error::{Error, Setting};
use ever_elect::iteration::RuntimeValidation;

fn addr(workchain: i8, byte: u8) -> StdAddr {
    StdAddr {
        workchain,
        address: HashBytes([byte; 32]),
    }
}

fn app() -> AppConfig {
    AppConfig::default(Some("/home/u"))
}

fn stored() -> StoredWalletConfig {
    StoredWalletConfig::from_seed(
        "some words",
        "0:aa".to_string(),
        "pub".to_string(),
        "sec".to_string(),
    )
}

fn facts(workchain: i8) -> KeyFacts {
    KeyFacts {
        address: Some(addr(workchain, 0xaa)),
        public: Some("pub".to_string()),
        derived_address: Some("0:aa".to_string()),
    }
}

fn new_depool() -> NewDepoolConfig {
    NewDepoolConfig {
        address: "0:aa".to_string(),
        seed: None,
        public: "pub".to_string(),
        secret: "sec".to_string(),
        min_stake: "100".to_string(),
        validator_assurance: "500".to_string(),
        participant_reward_fraction: 95,
    }
}

fn elections() -> ElectionsFile {
    ElectionsFile {
        ty: "Simple".to_string(),
        wallet_secret: "sec".to_string(),
        wallet_public: "pub".to_string(),
        wallet_address: "-1:aa".to_string(),
        stake: " 1000\n".to_string(),
    }
}

#[test]
fn defaults_are_a_dry_run() {
    let config = app();
    assert_eq!(config.endpoint, "https://rpc-testnet.tychoprotocol.com");
    assert_eq!(config.node_keys_path, "/home/u/.tycho/node_keys.json");
    assert_eq!(config.elections_path, None);
    assert!(!config.send);
    assert!(!config.once);
    assert_eq!(config.retry, 3);
    assert_eq!(config.stake_factor, None);
    assert_eq!(config.confirmation_attempts, 20);
    assert_eq!(config.confirmation_interval(), 3);
    assert_eq!(config.poll_interval(), 60);
    assert_eq!(config.error_retry_interval(), 30);
    assert_eq!(config.depool_participate_value_nano(), Ok(5_000_000_000));
    assert_eq!(config.depool_wallet_reserve_nano(), Ok(20_000_000_000));
    assert!(matches!(
        config.validation,
        ValidationConfig::Simple(SimpleValidationConfig {
            wallet: SimpleWalletConfig::ElectionsJson { path: None },
            stake: StakeConfig::FromElectionsJson,
        })
    ));
    assert_eq!(AppConfig::default(None).node_keys_path, "./.tycho/node_keys.json");
}

#[test]
fn reserves_must_be_positive_amounts() {
    let mut config = app();
    config.depool_participate_value = "0.0".to_string();
    config.depool_wallet_reserve = "0".to_string();
    assert_eq!(config.depool_participate_value_nano(), Err(Error::ZeroParticipateValue));
    assert_eq!(config.depool_wallet_reserve_nano(), Err(Error::ZeroWalletReserve));
    config.depool_participate_value = "x".to_string();
    config.depool_wallet_reserve = "".to_string();
    assert_eq!(
        config.depool_participate_value_nano(),
        Err(Error::Amount {
            setting: Setting::ParticipateValue,
            reason: AmountError::InvalidWhole
        })
    );
    assert_eq!(
        config.depool_wallet_reserve_nano(),
        Err(Error::Amount {
            setting: Setting::WalletReserve,
            reason: AmountError::Empty
        })
    );
}

#[test]
fn fixed_stakes_ignore_the_balance() {
    let fixed = StakeConfig::Fixed {
        amount: "500000".to_string(),
    };
    assert_eq!(fixed.stake_nano(0, 0, None), Ok(500_000_000_000_000));
    assert_eq!(fixed.stake_nano(u128::MAX, 7, Some("1")), Ok(500_000_000_000_000));
    let from_file = StakeConfig::FromElectionsJson;
    assert_eq!(from_file.stake_nano(0, 0, Some("12.5")), Ok(12_500_000_000));
    assert_eq!(from_file.stake_nano(0, 0, None), Err(Error::StakeUnavailable));
    assert_eq!(
        from_file.stake_nano(0, 0, Some("")),
        Err(Error::Amount {
            setting: Setting::Stake,
            reason: AmountError::Empty
        })
    );
}

#[test]
fn floating_stakes_keep_the_reserve() {
    let float = StakeConfig::Float {
        keep_wallet_balance: "100".to_string(),
    };
    assert_eq!(float.stake_nano(150_000_000_000, 1_500_000_000, None), Ok(48_500_000_000));
    assert_eq!(float.stake_nano(101_500_000_000, 1_500_000_000, None), Ok(0));
    assert_eq!(
        float.stake_nano(101_499_999_999, 1_500_000_000, None),
        Err(Error::FloatingStakeTooLow)
    );
    assert_eq!(float.stake_nano(u128::MAX, u128::MAX, None), Ok(0));
    let bad = StakeConfig::Float {
        keep_wallet_balance: "1.2.3".to_string(),
    };
    assert_eq!(
        bad.clone().stake_nano(1, 1, None),
        Err(Error::Amount {
            setting: Setting::KeepWalletBalance,
            reason: AmountError::InvalidFraction
        })
    );
}

#[test]
fn addresses_are_held_to_a_workchain() {
    assert_eq!(ensure_workchain(Some(addr(0, 1)), BASECHAIN), Ok(addr(0, 1)));
    assert_eq!(ensure_workchain(None, BASECHAIN), Err(Error::InvalidAddress));
    assert_eq!(
        ensure_workchain(Some(addr(0, 1)), MASTERCHAIN),
        Err(Error::WrongWorkchain {
            expected: -1,
            found: 0
        })
    );
    assert!(addr(0, 1).same(&addr(0, 1)));
    assert!(!addr(0, 1).same(&addr(-1, 1)));
    assert!(!addr(0, 1).same(&addr(0, 2)));
}

#[test]
fn seed_is_kept_with_the_wallet() {
    let wallet = stored();
    assert_eq!(wallet.seed.as_deref(), Some("some words"));
    assert_eq!(wallet.address, "0:aa");
    assert_eq!(wallet.public, "pub");
    assert_eq!(wallet.secret, "sec");
}

#[test]
fn stored_wallets_are_checked() {
    let wallet = stored();
    assert_eq!(wallet.load(0, &facts(0)).expect("accepted").address, "0:aa");
    assert_eq!(
        wallet.load(-1, &facts(0)).unwrap_err(),
        Error::WrongWorkchain {
            expected: -1,
            found: 0
        }
    );
    let mut f = facts(0);
    f.derived_address = Some("0:bb".to_string());
    assert_eq!(wallet.load(0, &f).unwrap_err(), Error::WalletAddressMismatch);
    f.derived_address = None;
    assert_eq!(wallet.load(0, &f).unwrap_err(), Error::UnknownWalletAddress);
    f.public = Some("other".to_string());
    assert_eq!(wallet.load(0, &f).unwrap_err(), Error::WalletKeyMismatch);
    f.public = None;
    assert_eq!(wallet.load(0, &f).unwrap_err(), Error::InvalidWalletSecret);
    f.address = None;
    assert_eq!(wallet.load(0, &f).unwrap_err(), Error::InvalidAddress);
}

#[test]
fn elections_files_are_checked() {
    let file = elections().load().expect("accepted");
    assert_eq!(file.stake, "1000");
    assert_eq!(file.wallet_address, "-1:aa");
    let mut other = elections();
    other.ty = "DePool".to_string();
    assert_eq!(other.load().unwrap_err(), Error::UnsupportedElections);
}

#[test]
fn elections_path_has_an_order() {
    let own = SimpleWalletConfig::ElectionsJson {
        path: Some("own".to_string()),
    };
    let none = SimpleWalletConfig::default();
    let shared = "shared".to_string();
    assert_eq!(own.elections_path(Some(&shared), "default").as_deref(), Some("own"));
    assert_eq!(none.elections_path(Some(&shared), "default").as_deref(), Some("shared"));
    assert_eq!(none.elections_path(None, "default").as_deref(), Some("default"));
    let stored = SimpleWalletConfig::Stored { wallet: stored() };
    assert_eq!(stored.elections_path(Some(&shared), "default"), None);
}

#[test]
fn simple_wallets_lie_in_the_masterchain() {
    let file = elections().load().expect("accepted");
    let from_file = SimpleWalletConfig::default();
    let loaded = from_file.load(Some(&file), &facts(-1)).expect("accepted");
    assert_eq!(loaded.address, "-1:aa");
    assert_eq!(loaded.elections_stake.as_deref(), Some("1000"));
    assert_eq!(
        from_file.load(Some(&file), &facts(0)).unwrap_err(),
        Error::WrongWorkchain {
            expected: -1,
            found: 0
        }
    );
    let mut f = facts(-1);
    f.public = Some("other".to_string());
    assert_eq!(from_file.load(Some(&file), &f).unwrap_err(), Error::WalletKeyMismatch);
    f.public = None;
    assert_eq!(from_file.load(Some(&file), &f).unwrap_err(), Error::InvalidWalletSecret);

    let stored = SimpleWalletConfig::Stored { wallet: stored() };
    let loaded = stored.load(None, &facts(-1)).expect("accepted");
    assert_eq!(loaded.address, "0:aa");
    assert_eq!(loaded.elections_stake, None);
    assert!(stored.load(None, &facts(0)).is_err());
}

#[test]
fn new_depools_are_checked() {
    let config = DepoolConfig::New(new_depool());
    let accepted = DepoolRuntimeConfig::from_config(&config, &facts(0)).expect("accepted");
    assert_eq!(accepted.address, "0:aa");
    assert_eq!(accepted.new.as_ref().expect("new").validator_assurance, "500");
    assert_eq!(accepted.new_validator_assurance_nano(), Ok(500_000_000_000));
    let mut f = facts(0);
    f.derived_address = Some("0:bb".to_string());
    let refused = |f: &KeyFacts| DepoolRuntimeConfig::from_config(&config, f).unwrap_err();
    assert_eq!(refused(&f), Error::DepoolAddressMismatch);
    f.derived_address = None;
    assert_eq!(refused(&f), Error::UnknownDepoolAddress);
    f.public = Some("other".to_string());
    assert_eq!(refused(&f), Error::DepoolKeyMismatch);
    f.public = None;
    assert_eq!(refused(&f), Error::InvalidDepoolSecret);
    assert_eq!(
        refused(&facts(-1)),
        Error::WrongWorkchain {
            expected: 0,
            found: -1
        }
    );
}

#[test]
fn existing_depools_need_an_address_only() {
    let config = DepoolConfig::Existing(ExistingDepoolConfig::address("0:aa".to_string()));
    let f = KeyFacts {
        address: Some(addr(0, 0xaa)),
        public: None,
        derived_address: None,
    };
    let accepted = DepoolRuntimeConfig::from_config(&config, &f).expect("accepted");
    assert!(accepted.new.is_none());
    assert_eq!(accepted.new_validator_assurance_nano(), Ok(0));
    assert!(DepoolRuntimeConfig::from_config(&config, &facts(-1)).is_err());
}

#[test]
fn assurance_must_fit() {
    let mut new = new_depool();
    assert_eq!(new.min_stake_nano(), Ok(100_000_000_000));
    assert_eq!(new.validator_assurance_nano(), Ok(500_000_000_000));
    new.validator_assurance = "18446744073.709551616".to_string();
    let config = DepoolRuntimeConfig {
        address: "0:aa".to_string(),
        new: Some(new.clone()),
    };
    assert_eq!(config.new_validator_assurance_nano(), Err(Error::AssuranceTooLarge));
    new.validator_assurance = "18446744073.709551615".to_string();
    let config = DepoolRuntimeConfig {
        address: "0:aa".to_string(),
        new: Some(new),
    };
    assert_eq!(config.new_validator_assurance_nano(), Ok(u64::MAX));
}

#[test]
fn node_keys_are_checked() {
    let keys = NodeKeysFile {
        secret: "sec".to_string(),
        public: "pub".to_string(),
    };
    assert_eq!(keys.check(Some("pub")), Ok(()));
    assert_eq!(keys.check(Some("other")), Err(Error::NodeKeyMismatch));
    assert_eq!(keys.check(None), Err(Error::InvalidNodeSecret));
}

#[test]
fn runtime_starts_with_the_derived_wallet() {
    let config = SimpleValidationConfig {
        wallet: SimpleWalletConfig::default(),
        stake: StakeConfig::Fixed {
            amount: "7".to_string(),
        },
    };
    let loaded = LoadedWallet {
        address: "-1:aa".to_string(),
        elections_stake: Some("5".to_string()),
    };
    let runtime = RuntimeValidation::new_simple(&config, loaded.clone(), "-1:aa").expect("accepted");
    assert_eq!(runtime.name(), "simple");
    assert!(matches!(
        runtime,
        RuntimeValidation::Simple { stake: StakeConfig::Fixed { amount }, elections_stake: Some(stake) }
            if amount == "7" && stake == "5"
    ));
    assert_eq!(
        RuntimeValidation::new_simple(&config, loaded, "-1:bb").unwrap_err(),
        Error::WalletAddressMismatch
    );
}

#[test]
fn runtime_starts_with_an_accepted_depool() {
    let config = DepoolValidationConfig {
        validator_wallet: stored(),
        depool: DepoolConfig::New(new_depool()),
    };
    let runtime = RuntimeValidation::new_depool(&config, &facts(0), "0:aa", &facts(0))
        .expect("accepted");
    assert_eq!(runtime.name(), "depool");
    assert!(matches!(
        runtime,
        RuntimeValidation::Depool { config, missed_election_id: None } if config.new.is_some()
    ));
    assert_eq!(
        RuntimeValidation::new_depool(&config, &facts(0), "0:bb", &facts(0)).unwrap_err(),
        Error::ValidatorAddressMismatch
    );
    assert!(RuntimeValidation::new_depool(&config, &facts(-1), "0:aa", &facts(0)).is_err());
    assert!(RuntimeValidation::new_depool(&config, &facts(0), "0:aa", &facts(-1)).is_err());
}
