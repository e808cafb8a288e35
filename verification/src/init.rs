//! The setup as a whole: from the first question to the files that are written.
//!
//! The setup is a value that says what is due. Whoever runs it does that, hands back an event, and
//! gets the next value. An event that does not answer what is due changes nothing.

use crate::config::{AppConfig, ValidationConfig, DEFAULT_ENDPOINT};
use crate::error::Error;
use crate::paths::{expanded, joined, CONFIG_FILE_NAME};
use crate::setup::{
    answer_of, check_node_keys, confirm_default_text, confirm_hint, confirmation, default_folder,
    is_fresh_config, law_empty_line_is_the_default, law_yes_is_yes_and_no_is_no, lowered,
    new_config, node_keys_path, offered_folder, prompt_confirm, prompt_text, write_path,
    written_path,
};
use crate::text::{trim, trimmed};
use vstd::prelude::*;

verus! {

/// What an empty answer stands for when the user is asked to overwrite a configuration: a no.
pub const OVERWRITE_DEFAULT: bool = false;

/// Whether a line agrees to overwrite a configuration.
pub open spec fn overwrite_answer(line: Seq<char>) -> Option<bool> {
    confirmation(answer_of(line, confirm_hint(OVERWRITE_DEFAULT)), OVERWRITE_DEFAULT)
}

/// What a setup goes by.
pub struct InitTerms<'a> {
    /// Whether the user named the file to write.
    pub explicit_path: bool,
    /// That file, or the default one, as an absolute path.
    pub config_path: &'a str,
    /// The current folder.
    pub current: &'a str,
    /// The home folder.
    pub home: Option<&'a str>,
}

/// A setup.
#[derive(Debug)]
pub enum Init {
    AskEndpoint,
    AskFolder { endpoint: String },
    /// Look whether the node keys exist.
    LookForNodeKeys {
        endpoint: String,
        folder: String,
        /// Whether the user typed the folder.
        folder_typed: bool,
        node_keys_path: String,
    },
    /// Ask how the node validates.
    AskValidation {
        endpoint: String,
        folder: String,
        /// Whether the user typed the folder.
        folder_typed: bool,
        node_keys_path: String,
    },
    /// Look whether there is a configuration already.
    LookForConfig { config: AppConfig, path: String },
    /// Ask whether the configuration that is there may be overwritten, until it is clear.
    AskOverwrite { config: AppConfig, path: String },
    WriteConfig { config: AppConfig, path: String },
    /// Write the unit file of a service that runs with the configuration at `path`.
    WriteService { path: String },
    Finished,
    /// Something is wrong with the node keys.
    Failed { error: Error, node_keys_path: String },
}

/// What comes back during a setup.
#[derive(Debug)]
pub enum InitEvent<'a> {
    /// A line that the user typed.
    Line { line: &'a str },
    /// Whether the file exists.
    Looked { found: bool },
    Validation { validation: ValidationConfig },
    Written,
}

impl Init {
    /// Whether `next` is what comes after `event`.
    pub open spec fn leads_to(self, event: InitEvent<'_>, terms: InitTerms<'_>, next: Init) -> bool {
        match (self, event) {
            (Init::AskEndpoint, InitEvent::Line { line }) => next matches Init::AskFolder {
                endpoint,
            } && endpoint@ == answer_of(line@, DEFAULT_ENDPOINT@),
            (Init::AskFolder { endpoint }, InitEvent::Line { line }) =>
                next matches Init::LookForNodeKeys {
                endpoint: same_endpoint,
                folder,
                folder_typed,
                node_keys_path,
            } && same_endpoint == endpoint && folder@ == answer_of(
                line@,
                offered_folder(terms.explicit_path, terms.config_path@),
            ) && folder_typed == (trimmed(line@).len() > 0) && node_keys_path@ == joined(folder@, "node_keys.json"@),
            (
                Init::LookForNodeKeys { endpoint, folder, folder_typed, node_keys_path },
                InitEvent::Looked { found },
            ) => next == if found {
                Init::AskValidation { endpoint, folder, folder_typed, node_keys_path }
            } else {
                Init::Failed { error: Error::NodeKeysNotFound, node_keys_path }
            },
            (
                Init::AskValidation { endpoint, folder, folder_typed, node_keys_path },
                InitEvent::Validation { validation },
            ) => next matches Init::LookForConfig { config, path } && is_fresh_config(
                config,
                endpoint,
                node_keys_path,
                validation,
            ) && path@ == written_path(
                terms.explicit_path,
                terms.config_path@,
                folder_typed,
                folder@,
                terms.current@,
                terms.home,
            ),
            (Init::LookForConfig { config, path }, InitEvent::Looked { found }) => next
                == if found {
                Init::AskOverwrite { config, path }
            } else {
                Init::WriteConfig { config, path }
            },
            (Init::AskOverwrite { config, path }, InitEvent::Line { line }) => next
                == match overwrite_answer(line@) {
                Some(true) => Init::WriteConfig { config, path },
                Some(false) => Init::WriteService { path },
                None => self,
            },
            (Init::WriteConfig { config, path }, InitEvent::Written) => next
                == (Init::WriteService { path }),
            (Init::WriteService { path }, InitEvent::Written) => next == Init::Finished,
            _ => next == self,
        }
    }

    /// Begins a setup.
    pub fn init() -> (r: Init)
        ensures
            r == Init::AskEndpoint,
    {
        Init::AskEndpoint
    }

    /// Goes on after an event.
    pub fn next(self, event: InitEvent<'_>, terms: &InitTerms<'_>) -> (r: Init)
        ensures
            self.leads_to(event, *terms, r),
    {
        match (self, event) {
            (Init::AskEndpoint, InitEvent::Line { line }) => Init::AskFolder {
                endpoint: prompt_text(line, DEFAULT_ENDPOINT),
            },
            (Init::AskFolder { endpoint }, InitEvent::Line { line }) => {
                let offered: String = default_folder(terms.explicit_path, terms.config_path);
                let folder: String = prompt_text(line, offered.as_str());
                let folder_typed: bool = trim(line).unicode_len() > 0;
                let keys: String = node_keys_path(folder.as_str());
                Init::LookForNodeKeys { endpoint, folder, folder_typed, node_keys_path: keys }
            },
            (
                Init::LookForNodeKeys { endpoint, folder, folder_typed, node_keys_path },
                InitEvent::Looked { found },
            ) => match check_node_keys(found) {
                Ok(_) => Init::AskValidation { endpoint, folder, folder_typed, node_keys_path },
                Err(error) => Init::Failed { error, node_keys_path },
            },
            (
                Init::AskValidation { endpoint, folder, folder_typed, node_keys_path },
                InitEvent::Validation { validation },
            ) => {
                let path: String = write_path(
                    terms.explicit_path,
                    terms.config_path,
                    folder_typed,
                    folder.as_str(),
                    terms.current,
                    terms.home,
                );
                let config: AppConfig = new_config(
                    endpoint,
                    node_keys_path,
                    validation,
                    terms.home,
                );
                Init::LookForConfig { config, path }
            },
            (Init::LookForConfig { config, path }, InitEvent::Looked { found }) => {
                if found {
                    Init::AskOverwrite { config, path }
                } else {
                    Init::WriteConfig { config, path }
                }
            },
            (Init::AskOverwrite { config, path }, InitEvent::Line { line }) => {
                let answer: String = prompt_text(line, confirm_default_text(OVERWRITE_DEFAULT));
                match prompt_confirm(answer.as_str(), OVERWRITE_DEFAULT) {
                    Some(agreed) => {
                        if agreed {
                            Init::WriteConfig { config, path }
                        } else {
                            Init::WriteService { path }
                        }
                    },
                    None => Init::AskOverwrite { config, path },
                }
            },
            (Init::WriteConfig { config: _, path }, InitEvent::Written) => Init::WriteService {
                path,
            },
            (Init::WriteService { path: _ }, InitEvent::Written) => Init::Finished,
            (state, _) => state,
        }
    }
}

/// A configuration is written only where there is none, or where the user said yes to overwriting
/// the one that is there. An empty line does not say so.
pub proof fn law_existing_config_needs_agreement(
    state: Init,
    event: InitEvent<'_>,
    terms: InitTerms<'_>,
    next: Init,
)
    requires
        state.leads_to(event, terms, next),
        !(state is WriteConfig),
        next is WriteConfig,
    ensures
        (state is LookForConfig && event == (InitEvent::Looked { found: false })) || (
        state is AskOverwrite && (event matches InitEvent::Line { line } && overwrite_answer(line@)
            == Some(true) && trimmed(line@).len() > 0)),
{
}

/// An empty line leaves the configuration that is there as it is.
pub proof fn law_empty_line_keeps_config(
    state: Init,
    line: &str,
    terms: InitTerms<'_>,
    next: Init,
)
    requires
        state is AskOverwrite,
        trimmed(line@).len() == 0,
        state.leads_to(InitEvent::Line { line }, terms, next),
    ensures
        next == (Init::WriteService { path: state->AskOverwrite_path }),
{
    law_empty_line_is_the_default(line@, OVERWRITE_DEFAULT);
}

/// The file that is to be written, or may be, and that the service runs with.
pub open spec fn pending_path(state: Init) -> Option<Seq<char>> {
    match state {
        Init::LookForConfig { config, path } => Some(path@),
        Init::AskOverwrite { config, path } => Some(path@),
        Init::WriteConfig { config, path } => Some(path@),
        Init::WriteService { path } => Some(path@),
        _ => None,
    }
}

/// Whether the question for the folder was answered in step `i`.
pub open spec fn folder_answered_at(states: Seq<Init>, events: Seq<InitEvent<'_>>, i: int) -> bool {
    0 <= i < events.len() && states[i] is AskFolder && events[i] is Line
}

/// The folder that a line stands for.
pub open spec fn folder_from(line: Seq<char>, terms: InitTerms<'_>) -> Seq<char> {
    answer_of(line, offered_folder(terms.explicit_path, terms.config_path@))
}

/// Where the configuration goes after this answer to the question for the folder.
pub open spec fn place_after(line: Seq<char>, terms: InitTerms<'_>) -> Seq<char> {
    written_path(
        terms.explicit_path,
        terms.config_path@,
        trimmed(line).len() > 0,
        folder_from(line, terms),
        terms.current@,
        terms.home,
    )
}

/// What a state holds of the answer to the question for the folder.
pub open spec fn keeps_folder_answer(
    state: Init,
    states: Seq<Init>,
    events: Seq<InitEvent<'_>>,
    terms: InitTerms<'_>,
) -> bool {
    match state {
        Init::LookForNodeKeys { endpoint, folder, folder_typed, node_keys_path } => exists|i: int|
            #[trigger] folder_answered_at(states, events, i) && folder@ == folder_from(
                events[i]->line@,
                terms,
            ) && folder_typed == (trimmed(events[i]->line@).len() > 0),
        Init::AskValidation { endpoint, folder, folder_typed, node_keys_path } => exists|i: int|
            #[trigger] folder_answered_at(states, events, i) && folder@ == folder_from(
                events[i]->line@,
                terms,
            ) && folder_typed == (trimmed(events[i]->line@).len() > 0),
        _ => pending_path(state) matches Some(path) ==> exists|i: int|
            #[trigger] folder_answered_at(states, events, i) && path == place_after(
                events[i]->line@,
                terms,
            ),
    }
}

proof fn lemma_folder_answer_is_kept(
    states: Seq<Init>,
    events: Seq<InitEvent<'_>>,
    terms: InitTerms<'_>,
)
    requires
        is_run(states, events, terms),
    ensures
        keeps_folder_answer(states.last(), states, events, terms),
    decreases events.len(),
{
    if events.len() > 0 {
        let fewer = states.drop_last();
        let init = events.drop_last();
        let last = events.len() - 1;
        assert forall|i: int| 0 <= i < init.len() implies (#[trigger] fewer[i]).leads_to(
            init[i],
            terms,
            fewer[i + 1],
        ) by {
            assert(states[i].leads_to(events[i], terms, states[i + 1]));
        }
        lemma_folder_answer_is_kept(fewer, init, terms);
        let before = states[last];
        assert(before.leads_to(events[last], terms, states[last + 1]));
        assert(fewer.last() == before);
        assert forall|i: int| folder_answered_at(fewer, init, i) implies #[trigger] folder_answered_at(
            states,
            events,
            i,
        ) && events[i] == init[i] by {}
        if before is AskFolder && events[last] is Line {
            assert(folder_answered_at(states, events, last));
        } else if before is LookForNodeKeys || before is AskValidation || pending_path(
            before,
        ) is Some {
            let i = choose|i: int| #[trigger]
                folder_answered_at(fewer, init, i) && match before {
                    Init::LookForNodeKeys { endpoint, folder, folder_typed, node_keys_path } => folder@
                        == folder_from(init[i]->line@, terms) && folder_typed == (trimmed(
                        init[i]->line@,
                    ).len() > 0),
                    Init::AskValidation { endpoint, folder, folder_typed, node_keys_path } => folder@
                        == folder_from(init[i]->line@, terms) && folder_typed == (trimmed(
                        init[i]->line@,
                    ).len() > 0),
                    _ => pending_path(before) == Some(place_after(init[i]->line@, terms)),
                };
            assert(folder_answered_at(states, events, i));
        }
    }
}

/// A setup writes to the file that the user named. Where they named none, it writes into the folder
/// that they typed, and where they typed none either, into the current folder.
pub proof fn law_config_is_written_where_asked(
    states: Seq<Init>,
    events: Seq<InitEvent<'_>>,
    terms: InitTerms<'_>,
)
    requires
        is_run(states, events, terms),
        pending_path(states.last()) is Some,
    ensures
        terms.explicit_path ==> pending_path(states.last()) == Some(terms.config_path@),
        !terms.explicit_path ==> exists|i: int| #[trigger]
            folder_answered_at(states, events, i) && pending_path(states.last()) == Some(
                if trimmed(events[i]->line@).len() > 0 {
                    expanded(joined(trimmed(events[i]->line@), CONFIG_FILE_NAME@), terms.home)
                } else {
                    joined(terms.current@, CONFIG_FILE_NAME@)
                },
            ),
{
    lemma_folder_answer_is_kept(states, events, terms);
    let i = choose|i: int| #[trigger]
        folder_answered_at(states, events, i) && pending_path(states.last()) == Some(
            place_after(events[i]->line@, terms),
        );
    assert(folder_answered_at(states, events, i));
}

/// A setup that names no file, with the question for the folder left at its default, gives the
/// configuration to the folder that it is run from.
pub proof fn law_current_folder_owns_config(
    states: Seq<Init>,
    events: Seq<InitEvent<'_>>,
    terms: InitTerms<'_>,
)
    requires
        is_run(states, events, terms),
        !terms.explicit_path,
        forall|i: int| #[trigger]
            folder_answered_at(states, events, i) ==> trimmed(events[i]->line@).len() == 0,
    ensures
        pending_path(states.last()) matches Some(path) ==> path == joined(
            terms.current@,
            CONFIG_FILE_NAME@,
        ),
{
    if pending_path(states.last()) is Some {
        law_config_is_written_where_asked(states, events, terms);
    }
}

/// Whether a run of a setup went through these states: each comes after the one before by some
/// event.
pub open spec fn is_run(states: Seq<Init>, events: Seq<InitEvent<'_>>, terms: InitTerms<'_>) -> bool {
    &&& states.len() == events.len() + 1
    &&& states[0] == Init::AskEndpoint
    &&& forall|i: int|
        0 <= i < events.len() ==> (#[trigger] states[i]).leads_to(
            events[i],
            terms,
            states[i + 1],
        )
}

/// Whether the node keys were found in step `i`.
pub open spec fn keys_found_at(states: Seq<Init>, events: Seq<InitEvent<'_>>, i: int) -> bool {
    0 <= i < events.len() && states[i] is LookForNodeKeys && events[i] == (InitEvent::Looked {
        found: true,
    })
}

/// Whether a state comes after the look for the node keys.
pub open spec fn is_past_keys(state: Init) -> bool {
    state is AskValidation || state is LookForConfig || state is AskOverwrite
        || state is WriteConfig || state is WriteService || state is Finished
}

/// The configuration that is to be written, or may be.
pub open spec fn pending_config(state: Init) -> Option<AppConfig> {
    match state {
        Init::LookForConfig { config, path } => Some(config),
        Init::AskOverwrite { config, path } => Some(config),
        Init::WriteConfig { config, path } => Some(config),
        _ => None,
    }
}

/// Nothing is written before the node keys were found, and what is written is a dry run.
pub proof fn law_setup_is_safe(states: Seq<Init>, events: Seq<InitEvent<'_>>, terms: InitTerms<'_>)
    requires
        is_run(states, events, terms),
    ensures
        is_past_keys(states.last()) ==> exists|i: int| keys_found_at(states, events, i),
        pending_config(states.last()) matches Some(config) ==> !config.send,
    decreases events.len(),
{
    if events.len() > 0 {
        let fewer = states.drop_last();
        let init = events.drop_last();
        let last = events.len() - 1;
        assert forall|i: int| 0 <= i < init.len() implies (#[trigger] fewer[i]).leads_to(
            init[i],
            terms,
            fewer[i + 1],
        ) by {
            assert(states[i].leads_to(events[i], terms, states[i + 1]));
        }
        law_setup_is_safe(fewer, init, terms);
        assert(states[last].leads_to(events[last], terms, states[last + 1]));
        assert(fewer.last() == states[last]);
        if is_past_keys(states[last]) {
            let i = choose|i: int| keys_found_at(fewer, init, i);
            assert(keys_found_at(states, events, i));
        } else if is_past_keys(states.last()) {
            assert(keys_found_at(states, events, last));
        }
    }
}

/// The endpoint is the one that was typed, and the usual one where none was.
pub proof fn law_endpoint_is_typed_or_usual(line: &str, terms: InitTerms<'_>, next: Init)
    requires
        Init::AskEndpoint.leads_to(InitEvent::Line { line }, terms, next),
    ensures
        next matches Init::AskFolder { endpoint } && endpoint@ == if trimmed(line@).len() > 0 {
            trimmed(line@)
        } else {
            "https://rpc-testnet.tychoprotocol.com"@
        },
{
}

/// The node keys are looked for in the folder that was typed, and in the offered one where none was.
/// The endpoint stays.
pub proof fn law_node_keys_are_in_the_folder(
    endpoint: String,
    line: &str,
    terms: InitTerms<'_>,
    next: Init,
)
    requires
        (Init::AskFolder { endpoint }).leads_to(InitEvent::Line { line }, terms, next),
    ensures
        ({
            let typed = trimmed(line@);
            let in_folder = if typed.len() > 0 {
                typed
            } else {
                offered_folder(terms.explicit_path, terms.config_path@)
            };
            &&& next matches Init::LookForNodeKeys {
                endpoint: same_endpoint,
                folder,
                folder_typed,
                node_keys_path,
            }
            &&& same_endpoint == endpoint
            &&& folder@ == in_folder
            &&& folder_typed <==> typed.len() > 0
            &&& node_keys_path@ == joined(in_folder, "node_keys.json"@)
        }),
{
}

/// With the node keys there, the setup goes on with all answers; without them it ends.
pub proof fn law_setup_needs_node_keys(
    endpoint: String,
    folder: String,
    folder_typed: bool,
    node_keys_path: String,
    found: bool,
    terms: InitTerms<'_>,
    next: Init,
)
    requires
        (Init::LookForNodeKeys { endpoint, folder, folder_typed, node_keys_path }).leads_to(
            InitEvent::Looked { found },
            terms,
            next,
        ),
    ensures
        found <==> next == (Init::AskValidation { endpoint, folder, folder_typed, node_keys_path }),
        !found <==> next == (Init::Failed { error: Error::NodeKeysNotFound, node_keys_path }),
{
}

/// The configuration that is set up has the endpoint, the node keys and the validation that were
/// answered, is a dry one, and goes where it is wanted.
pub proof fn law_config_is_as_answered(
    endpoint: String,
    folder: String,
    folder_typed: bool,
    node_keys_path: String,
    validation: ValidationConfig,
    terms: InitTerms<'_>,
    next: Init,
)
    requires
        (Init::AskValidation { endpoint, folder, folder_typed, node_keys_path }).leads_to(
            InitEvent::Validation { validation },
            terms,
            next,
        ),
    ensures
        ({
            &&& next matches Init::LookForConfig { config, path }
            &&& config.endpoint == endpoint
            &&& config.node_keys_path == node_keys_path
            &&& config.validation == validation
            &&& !config.send
            &&& terms.explicit_path ==> path@ == terms.config_path@
            &&& !terms.explicit_path && folder_typed ==> path@ == expanded(
                joined(folder@, "ever-elect.json"@),
                terms.home,
            )
            &&& !terms.explicit_path && !folder_typed ==> path@ == joined(
                terms.current@,
                "ever-elect.json"@,
            )
        }),
{
}

/// A configuration that is not there is written as it was set up. One that is there is overwritten
/// only after a yes; after a no it stays, and the service is written. Until it is clear, the question
/// is asked again.
pub proof fn law_config_is_written_as_agreed(
    config: AppConfig,
    path: String,
    found: bool,
    line: &str,
    terms: InitTerms<'_>,
    looked: Init,
    asked: Init,
)
    requires
        (Init::LookForConfig { config, path }).leads_to(InitEvent::Looked { found }, terms, looked),
        (Init::AskOverwrite { config, path }).leads_to(InitEvent::Line { line }, terms, asked),
    ensures
        found <==> looked == (Init::AskOverwrite { config, path }),
        !found <==> looked == (Init::WriteConfig { config, path }),
        lowered(trimmed(line@)) == "y"@ || lowered(trimmed(line@)) == "yes"@ ==> asked == (
        Init::WriteConfig { config, path }),
        lowered(trimmed(line@)) == "n"@ || lowered(trimmed(line@)) == "no"@ || trimmed(line@).len()
            == 0 ==> asked == (Init::WriteService { path }),
        asked == (Init::AskOverwrite { config, path }) <==> overwrite_answer(line@) is None,
{
    reveal_strlit("y");
    reveal_strlit("yes");
    reveal_strlit("n");
    reveal_strlit("no");
    law_yes_is_yes_and_no_is_no(trimmed(line@), false);
    if trimmed(line@).len() == 0 {
        law_empty_line_is_the_default(line@, false);
    }
}

/// After the configuration comes the service, for the same file, and then the setup is done.
pub proof fn law_service_comes_last(
    config: AppConfig,
    path: String,
    terms: InitTerms<'_>,
    written: Init,
    served: Init,
)
    requires
        (Init::WriteConfig { config, path }).leads_to(InitEvent::Written, terms, written),
        (Init::WriteService { path }).leads_to(InitEvent::Written, terms, served),
    ensures
        written == (Init::WriteService { path }),
        served is Finished,
{
}

/// A setup waits for the answer to what is due, and keeps its end.
pub proof fn law_setup_waits(
    state: Init,
    event: InitEvent<'_>,
    terms: InitTerms<'_>,
    next: Init,
)
    requires
        state.leads_to(event, terms, next),
        (state is AskEndpoint || state is AskFolder || state is AskOverwrite) && !(event is Line)
            || (state is LookForNodeKeys || state is LookForConfig) && !(event is Looked)
            || state is AskValidation && !(event is Validation) || (state is WriteConfig
            || state is WriteService) && !(event is Written) || state is Finished
            || state is Failed,
    ensures
        next == state,
{
}

} // verus!
