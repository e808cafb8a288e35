use ever_elect::address::{HashBytes, StdAddr, BASECHAIN, MASTERCHAIN};
use ever_elect::amount::AmountError;
use ever_elect::config::{
    DepoolConfig, DepoolRuntimeConfig, ExistingDepoolConfig, KeyFacts, NewDepoolConfig,
    SimpleWalletConfig, StakeConfig, StoredWalletConfig, ValidationConfig,
};
use ever_elect::error::{Error, Setting};
use ever_elect::setup::{
    check_node_keys, confirm_default_text, default_folder, new_config, node_keys_path,
    prompt_choice, prompt_confirm, prompt_line, prompt_text, prompt_token_amount, prompt_u8,
    write_path, ChoiceAnswer, DepoolPrompt, SetupEvent, ValidationPrompt,
};
use ever_elect::upkeep::deployment_amounts;

fn wallet() -> StoredWalletConfig {
    StoredWalletConfig::from_seed(
        "seed",
        "0:aa".to_string(),
        "pub".to_string(),
        "sec".to_string(),
    )
}

fn choice(n: usize) -> SetupEvent {
    SetupEvent::Chosen { choice: n }
}

fn ask(events: Vec<SetupEvent>) -> ValidationPrompt {
    let mut state = ValidationPrompt::prompt_validation();
    for event in events {
        state = state.next(event, "~/.tycho");
    }
    state
}

#[test]
fn prompts_show_the_default() {
    assert_eq!(prompt_line("Endpoint", "https://x"), "Endpoint [https://x]: ");
    assert_eq!(prompt_line("Seed phrase", ""), "Seed phrase: ");
}

#[test]
fn empty_answers_are_the_default() {
    assert_eq!(prompt_text("\n", "dflt"), "dflt");
    assert_eq!(prompt_text(" a b \r\n", "dflt"), "a b");
}

#[test]
fn choices_are_numbers_of_options() {
    assert_eq!(prompt_choice("1", 3), Ok(ChoiceAnswer::Chosen { choice: 1 }));
    assert_eq!(prompt_choice("3", 3), Ok(ChoiceAnswer::Chosen { choice: 3 }));
    assert_eq!(prompt_choice("0", 3), Ok(ChoiceAnswer::AskAgain));
    assert_eq!(prompt_choice("4", 3), Ok(ChoiceAnswer::AskAgain));
    assert_eq!(prompt_choice("one", 3), Err(Error::InvalidChoice));
    assert_eq!(prompt_choice("-1", 3), Err(Error::InvalidChoice));
}

#[test]
fn confirmations_take_any_case() {
    for answer in ["y", "Y", "yes", "YES", "y/n", "Y/n"] {
        assert_eq!(prompt_confirm(answer, false), Some(true));
    }
    for answer in ["n", "N", "no", "No", "n/y", "N/Y"] {
        assert_eq!(prompt_confirm(answer, true), Some(false));
    }
    assert_eq!(prompt_confirm("maybe", true), None);
    assert_eq!(prompt_confirm("\u{212a}", true), None);
    assert_eq!(prompt_confirm("", true), Some(true));
    assert_eq!(prompt_confirm("", false), Some(false));
    assert_eq!(prompt_confirm("y/N", false), Some(false));
    assert_eq!(prompt_confirm("Y/n", true), Some(true));
}

#[test]
fn empty_lines_are_the_default() {
    assert_eq!(confirm_default_text(true), "Y/n");
    assert_eq!(confirm_default_text(false), "y/N");
    assert_eq!(prompt_line("Overwrite?", confirm_default_text(false)), "Overwrite? [y/N]: ");
    for default in [true, false] {
        for line in ["", "\n", " \t\r\n"] {
            let answer = prompt_text(line, confirm_default_text(default));
            assert_eq!(prompt_confirm(&answer, default), Some(default));
        }
    }
}

#[test]
fn amounts_are_kept_as_given() {
    assert_eq!(prompt_token_amount("1.50".to_string(), Setting::Stake), Ok("1.50".to_string()));
    assert_eq!(
        prompt_token_amount("x".to_string(), Setting::MinStake),
        Err(Error::Amount {
            setting: Setting::MinStake,
            reason: AmountError::InvalidWhole
        })
    );
}

#[test]
fn small_numbers_fit_a_byte() {
    assert_eq!(prompt_u8("95"), Ok(95));
    assert_eq!(prompt_u8("255"), Ok(255));
    assert_eq!(prompt_u8("256"), Err(Error::InvalidSmallNumber));
    assert_eq!(prompt_u8(""), Err(Error::InvalidSmallNumber));
}

#[test]
fn sets_up_simple_validation_from_the_elections_file() {
    let state = ask(vec![
        choice(1),
        choice(1),
        choice(1),
        SetupEvent::AmountGiven {
            amount: "500000".to_string(),
        },
    ]);
    match state {
        ValidationPrompt::Finished {
            validation: ValidationConfig::Simple(simple),
        } => {
            assert!(matches!(
                simple.wallet,
                SimpleWalletConfig::ElectionsJson { path: Some(path) }
                    if path == "~/.tycho/elections.json"
            ));
            assert!(matches!(simple.stake, StakeConfig::Fixed { amount } if amount == "500000"));
        }
        other => panic!("{:?}", other),
    }
}

#[test]
fn sets_up_simple_validation_with_a_new_wallet() {
    let state = ask(vec![choice(1), choice(3)]);
    assert!(matches!(state, ValidationPrompt::MakeSimpleWallet { restore: true }));
    assert_eq!(state.wallet_workchain(), Some(MASTERCHAIN));
    let state = ask(vec![choice(1), choice(2)]);
    assert!(matches!(state, ValidationPrompt::MakeSimpleWallet { restore: false }));
    let state = state
        .next(SetupEvent::WalletMade { wallet: wallet() }, "")
        .next(choice(2), "");
    assert_eq!(state.label(), "Keep on wallet before staking");
    assert_eq!(state.default_answer(), "100");
    let state = state.next(
        SetupEvent::AmountGiven {
            amount: "100".to_string(),
        },
        "",
    );
    assert!(matches!(
        state,
        ValidationPrompt::Finished { validation: ValidationConfig::Simple(simple) }
            if matches!(&simple.wallet, SimpleWalletConfig::Stored { wallet } if wallet.address == "0:aa")
                && matches!(&simple.stake, StakeConfig::Float { keep_wallet_balance } if keep_wallet_balance == "100")
    ));
}

#[test]
fn unreadable_stakes_end_the_setup() {
    let state = ask(vec![
        choice(1),
        choice(1),
        choice(1),
        SetupEvent::AmountGiven {
            amount: "much".to_string(),
        },
    ]);
    assert!(matches!(
        state,
        ValidationPrompt::Failed {
            error: Error::Amount {
                setting: Setting::Stake,
                reason: AmountError::InvalidWhole
            }
        }
    ));
}

#[test]
fn sets_up_existing_depools() {
    let before = || {
        ask(vec![
            choice(2),
            choice(1),
            SetupEvent::WalletMade { wallet: wallet() },
            choice(3),
        ])
    };
    assert_eq!(before().label(), "Existing DePool address (workchain 0)");
    let parsed = |workchain: i8| SetupEvent::AddressGiven {
        address: "0:bb".to_string(),
        parsed: Some(StdAddr {
            workchain,
            address: HashBytes([0xbb; 32]),
        }),
    };
    assert!(matches!(
        before().next(parsed(0), ""),
        ValidationPrompt::Finished { validation: ValidationConfig::Depool(depool) }
            if matches!(&depool.depool, DepoolConfig::Existing(e) if e.address == "0:bb" && e.public.is_none())
    ));
    assert!(matches!(
        before().next(parsed(-1), ""),
        ValidationPrompt::Failed {
            error: Error::WrongWorkchain {
                expected: 0,
                found: -1
            }
        }
    ));
    assert!(matches!(
        before().next(
            SetupEvent::AddressGiven {
                address: "x".to_string(),
                parsed: None
            },
            ""
        ),
        ValidationPrompt::Failed {
            error: Error::InvalidAddress
        }
    ));
}

#[test]
fn sets_up_restored_depools() {
    let state = ask(vec![choice(2), choice(2)]);
    assert!(matches!(state, ValidationPrompt::MakeDepoolWallet { restore: true }));
    assert_eq!(state.wallet_workchain(), Some(BASECHAIN));
    let state = state
        .next(SetupEvent::WalletMade { wallet: wallet() }, "")
        .next(choice(2), "")
        .next(
            SetupEvent::DepoolRestored {
                existing: ExistingDepoolConfig::from_seed("0:bb".to_string(), "pub".to_string()),
            },
            "",
        );
    assert!(matches!(
        state,
        ValidationPrompt::Finished { validation: ValidationConfig::Depool(depool) }
            if matches!(&depool.depool, DepoolConfig::Existing(e) if e.public.as_deref() == Some("pub"))
    ));
}

#[test]
fn sets_up_new_depools() {
    let questions = DepoolPrompt::prompt_new_depool_config();
    assert_eq!(questions.label(), "DePool min stake");
    assert_eq!(questions.default_answer(), "100");
    let questions = questions.next("100".to_string());
    assert_eq!(questions.label(), "Validator assurance");
    assert_eq!(questions.default_answer(), "500");
    let questions = questions.next("500".to_string());
    assert_eq!(questions.label(), "Participant reward fraction");
    assert_eq!(questions.default_answer(), "95");
    let terms = match questions.next("95".to_string()) {
        DepoolPrompt::Finished { terms } => terms,
        other => panic!("{:?}", other),
    };
    let depool = NewDepoolConfig::from_terms(
        terms,
        "0:bb".to_string(),
        Some("seed".to_string()),
        "pub".to_string(),
        "sec".to_string(),
    );
    assert_eq!(depool.participant_reward_fraction, 95);
    assert_eq!(depool.min_stake, "100");
    let config = DepoolRuntimeConfig {
        address: depool.address.clone(),
        new: Some(depool.clone()),
    };
    assert_eq!(deployment_amounts(&config), Ok((100_000_000_000, 500_000_000_000)));
    let state = ask(vec![
        choice(2),
        choice(1),
        SetupEvent::WalletMade { wallet: wallet() },
        choice(1),
        SetupEvent::NewDepoolMade { depool },
    ]);
    assert!(matches!(
        state,
        ValidationPrompt::Finished { validation: ValidationConfig::Depool(depool) }
            if matches!(&depool.depool, DepoolConfig::New(new) if new.validator_assurance == "500")
    ));
}

#[test]
fn unreadable_depool_terms_end_the_questions() {
    let first = DepoolPrompt::prompt_new_depool_config().next("x".to_string());
    assert!(matches!(
        first,
        DepoolPrompt::Failed {
            error: Error::Amount {
                setting: Setting::MinStake,
                ..
            }
        }
    ));
    let last = DepoolPrompt::prompt_new_depool_config()
        .next("1".to_string())
        .next("2".to_string())
        .next("300".to_string());
    assert!(matches!(
        last,
        DepoolPrompt::Failed {
            error: Error::InvalidSmallNumber
        }
    ));
}

#[test]
fn every_option_leads_on() {
    let paths = vec![
        vec![],
        vec![choice(1)],
        vec![choice(1), choice(1)],
        vec![choice(2)],
        vec![choice(2), choice(1), SetupEvent::WalletMade { wallet: wallet() }],
    ];
    for path in paths {
        let state = ask(path);
        let label = state.label();
        let options = state.options();
        assert!(!options.is_empty());
        assert_eq!(state.default_answer(), "1");
        assert_eq!(state.next(choice(options.len() + 1), "").label(), label);
    }
    let state = ask(vec![]);
    assert_eq!(state.label(), "Type of validation");
    assert_eq!(state.options(), vec!["Simple", "Depool"]);
    assert_eq!(state.next(choice(2), "").options(), vec!["Create new", "Restore from seed"]);
}

#[test]
fn answers_to_other_questions_change_nothing() {
    let state = ask(vec![SetupEvent::AmountGiven {
        amount: "1".to_string(),
    }]);
    assert!(matches!(state, ValidationPrompt::AskType));
    assert!(state.wallet_workchain().is_none());
}

#[test]
fn folder_comes_from_a_named_file() {
    assert_eq!(default_folder(true, "/etc/elect/x.json"), "/etc/elect");
    assert_eq!(default_folder(true, "/"), "~/.tycho");
    assert_eq!(default_folder(false, "/etc/elect/x.json"), "~/.tycho");
    assert_eq!(node_keys_path("~/.tycho"), "~/.tycho/node_keys.json");
}

#[test]
fn setup_needs_node_keys() {
    assert_eq!(check_node_keys(true), Ok(()));
    assert_eq!(check_node_keys(false), Err(Error::NodeKeysNotFound));
}

#[test]
fn new_configurations_are_dry() {
    let config = new_config(
        "https://x".to_string(),
        "/k.json".to_string(),
        ValidationConfig::default(),
        Some("/home/u"),
    );
    assert_eq!(config.endpoint, "https://x");
    assert_eq!(config.node_keys_path, "/k.json");
    assert!(!config.send);
    assert_eq!(config.retry, 3);
    assert_eq!(config.poll_interval(), 60);
}

#[test]
fn configuration_goes_to_the_named_file_the_typed_or_the_current_folder() {
    let home = Some("/home/u");
    for typed in [true, false] {
        assert_eq!(write_path(true, "/x.json", typed, "~/.tycho", "/w", home), "/x.json");
    }
    assert_eq!(
        write_path(false, "/x.json", true, "~/.tycho", "/w", home),
        "/home/u/.tycho/ever-elect.json"
    );
    assert_eq!(write_path(false, "/x.json", true, "sub", "/w", home), "sub/ever-elect.json");
    assert_eq!(
        write_path(false, "/x.json", false, "~/.tycho", "/w", home),
        "/w/ever-elect.json"
    );
}

#[test]
fn asked_wallets_are_accepted() {
    let known = |workchain: i8, address: &str| KeyFacts {
        address: Some(StdAddr {
            workchain,
            address: HashBytes([0xaa; 32]),
        }),
        public: Some("pub".to_string()),
        derived_address: Some(address.to_string()),
    };
    let made = StoredWalletConfig::from_seed(
        "seed",
        "-1:aa".to_string(),
        "pub".to_string(),
        "sec".to_string(),
    );
    let state = ask(vec![
        choice(1),
        choice(2),
        SetupEvent::WalletMade { wallet: made },
        choice(1),
        SetupEvent::AmountGiven {
            amount: "7".to_string(),
        },
    ]);
    match state {
        ValidationPrompt::Finished {
            validation: ValidationConfig::Simple(simple),
        } => {
            let loaded = simple.wallet.load(None, &known(-1, "-1:aa")).expect("accepted");
            assert_eq!(loaded.address, "-1:aa");
            assert_eq!(simple.stake.stake_nano(0, 0, None), Ok(7_000_000_000));
        }
        other => panic!("{:?}", other),
    }
    let state = ask(vec![
        choice(2),
        choice(2),
        SetupEvent::WalletMade { wallet: wallet() },
        choice(2),
        SetupEvent::DepoolRestored {
            existing: ExistingDepoolConfig::from_seed("0:bb".to_string(), "pub".to_string()),
        },
    ]);
    match state {
        ValidationPrompt::Finished {
            validation: ValidationConfig::Depool(depool),
        } => {
            let facts = known(0, "0:aa");
            assert_eq!(
                depool.validator_wallet.load(BASECHAIN, &facts).expect("accepted").address,
                "0:aa"
            );
            let accepted =
                DepoolRuntimeConfig::from_config(&depool.depool, &facts).expect("accepted");
            assert_eq!(accepted.address, "0:bb");
        }
        other => panic!("{:?}", other),
    }
}
