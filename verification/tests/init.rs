use ever_elect::config::ValidationConfig;
use ever_elect::error::Error;
use ever_elect::init::{Init, InitEvent, InitTerms};

const TERMS: InitTerms<'static> = InitTerms {
    explicit_path: false,
    config_path: "/home/u/.tycho/ever-elect.json",
    current: "/w",
    home: Some("/home/u"),
};

fn with_keys(terms: &InitTerms<'_>, found: bool) -> Init {
    Init::init()
        .next(InitEvent::Line { line: "\n" }, terms)
        .next(InitEvent::Line { line: "/node\n" }, terms)
        .next(InitEvent::Looked { found }, terms)
}

fn with_validation(terms: &InitTerms<'_>) -> Init {
    with_keys(terms, true).next(
        InitEvent::Validation {
            validation: ValidationConfig::default(),
        },
        terms,
    )
}

#[test]
fn setup_begins_with_endpoint_and_folder() {
    let state = Init::init().next(InitEvent::Line { line: " https://x \n" }, &TERMS);
    assert!(matches!(&state, Init::AskFolder { endpoint } if endpoint == "https://x"));
    let state = state.next(InitEvent::Line { line: "\n" }, &TERMS);
    assert!(matches!(
        &state,
        Init::LookForNodeKeys { endpoint, folder, folder_typed: false, node_keys_path }
            if endpoint == "https://x"
                && folder == "~/.tycho"
                && node_keys_path == "~/.tycho/node_keys.json"
    ));
}

#[test]
fn setup_offers_the_folder_of_a_named_file() {
    let terms = InitTerms {
        explicit_path: true,
        config_path: "/etc/elect/x.json",
        current: "/w",
        home: None,
    };
    let state = Init::init()
        .next(InitEvent::Line { line: "" }, &terms)
        .next(InitEvent::Line { line: "" }, &terms);
    assert!(matches!(
        &state,
        Init::LookForNodeKeys { endpoint, folder, .. }
            if endpoint == "https://rpc-testnet.tychoprotocol.com" && folder == "/etc/elect"
    ));
    assert!(matches!(
        with_validation(&terms),
        Init::LookForConfig { path, .. } if path == "/etc/elect/x.json"
    ));
}

#[test]
fn setup_writes_to_the_current_folder_by_default() {
    let state = Init::init()
        .next(InitEvent::Line { line: "\n" }, &TERMS)
        .next(InitEvent::Line { line: "\n" }, &TERMS)
        .next(InitEvent::Looked { found: true }, &TERMS)
        .next(
            InitEvent::Validation {
                validation: ValidationConfig::default(),
            },
            &TERMS,
        )
        .next(InitEvent::Looked { found: false }, &TERMS);
    assert!(matches!(
        &state,
        Init::WriteConfig { config, path }
            if path == "/w/ever-elect.json" && config.node_keys_path == "~/.tycho/node_keys.json"
    ));
    assert!(matches!(
        state.next(InitEvent::Written, &TERMS),
        Init::WriteService { path } if path == "/w/ever-elect.json"
    ));
}

#[test]
fn setup_writes_to_a_typed_folder() {
    let state = Init::init()
        .next(InitEvent::Line { line: "\n" }, &TERMS)
        .next(InitEvent::Line { line: " ~/.tycho \n" }, &TERMS)
        .next(InitEvent::Looked { found: true }, &TERMS)
        .next(
            InitEvent::Validation {
                validation: ValidationConfig::default(),
            },
            &TERMS,
        );
    assert!(matches!(
        state,
        Init::LookForConfig { path, .. } if path == "/home/u/.tycho/ever-elect.json"
    ));
}

#[test]
fn setup_stops_without_node_keys() {
    assert!(matches!(
        with_keys(&TERMS, false),
        Init::Failed { error: Error::NodeKeysNotFound, node_keys_path }
            if node_keys_path == "/node/node_keys.json"
    ));
}

#[test]
fn setup_writes_a_dry_configuration() {
    match with_validation(&TERMS).next(InitEvent::Looked { found: false }, &TERMS) {
        Init::WriteConfig { config, path } => {
            assert_eq!(path, "/node/ever-elect.json");
            assert_eq!(config.node_keys_path, "/node/node_keys.json");
            assert_eq!(config.elections_path, None);
            assert!(!config.send);
        }
        other => panic!("{:?}", other),
    }
}

#[test]
fn setup_overwrites_only_where_agreed() {
    let asked = || with_validation(&TERMS).next(InitEvent::Looked { found: true }, &TERMS);
    assert!(matches!(asked(), Init::AskOverwrite { .. }));
    for line in ["y\n", " YES \n"] {
        assert!(matches!(
            asked().next(InitEvent::Line { line }, &TERMS),
            Init::WriteConfig { .. }
        ));
    }
    for line in ["n\n", "No\n", "y/N\n"] {
        assert!(matches!(
            asked().next(InitEvent::Line { line }, &TERMS),
            Init::WriteService { path } if path == "/node/ever-elect.json"
        ));
    }
    assert!(matches!(
        asked().next(InitEvent::Line { line: "perhaps\n" }, &TERMS),
        Init::AskOverwrite { .. }
    ));
}

#[test]
fn setup_keeps_the_configuration_at_an_empty_line() {
    for line in ["", "\n", "  \r\n"] {
        let state = with_validation(&TERMS)
            .next(InitEvent::Looked { found: true }, &TERMS)
            .next(InitEvent::Line { line }, &TERMS);
        assert!(matches!(state, Init::WriteService { path } if path == "/node/ever-elect.json"));
    }
}

#[test]
fn setup_ends_with_the_service() {
    let state = with_validation(&TERMS)
        .next(InitEvent::Looked { found: false }, &TERMS)
        .next(InitEvent::Written, &TERMS);
    assert!(matches!(&state, Init::WriteService { path } if path == "/node/ever-elect.json"));
    assert!(matches!(state.next(InitEvent::Written, &TERMS), Init::Finished));
}

#[test]
fn setup_ignores_other_events() {
    assert!(matches!(
        Init::init().next(InitEvent::Looked { found: true }, &TERMS),
        Init::AskEndpoint
    ));
}
