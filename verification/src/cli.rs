//! The command line.

use crate::error::Error;
use crate::paths::{default_config_path, default_config_place};
use crate::text::same_text;
use vstd::prelude::*;

verus! {

/// What the user asked for. No path means the default one.
#[derive(Clone, Debug, PartialEq, Eq)]
pub enum CliCommand {
    Run { config_path: Option<String> },
    Init { config_path: Option<String> },
    Help,
}

/// A command, with its path as characters.
pub enum CommandView {
    Run(Option<Seq<char>>),
    Init(Option<Seq<char>>),
    Help,
}

/// The characters of an optional text.
pub open spec fn text_of(s: Option<String>) -> Option<Seq<char>> {
    match s {
        Some(t) => Some(t@),
        None => None,
    }
}

impl View for CliCommand {
    type V = CommandView;

    open spec fn view(&self) -> CommandView {
        match *self {
            CliCommand::Run { config_path } => CommandView::Run(text_of(config_path)),
            CliCommand::Init { config_path } => CommandView::Init(text_of(config_path)),
            CliCommand::Help => CommandView::Help,
        }
    }
}

/// The command that the arguments behind the program's name stand for.
pub open spec fn command_of(args: Seq<Seq<char>>) -> Result<CommandView, Error> {
    if args.len() == 0 {
        Ok(CommandView::Run(None))
    } else if args.len() == 1 {
        if args[0] == "run"@ {
            Ok(CommandView::Run(None))
        } else if args[0] == "init"@ {
            Ok(CommandView::Init(None))
        } else if args[0] == "help"@ || args[0] == "--help"@ || args[0] == "-h"@ {
            Ok(CommandView::Help)
        } else {
            Ok(CommandView::Run(Some(args[0])))
        }
    } else if args.len() == 2 && args[0] == "run"@ {
        Ok(CommandView::Run(Some(args[1])))
    } else if args.len() == 2 && args[0] == "init"@ {
        Ok(CommandView::Init(Some(args[1])))
    } else {
        Err(Error::InvalidArguments)
    }
}

/// The arguments as characters.
pub open spec fn args_view(args: Seq<String>) -> Seq<Seq<char>> {
    args.map_values(|a: String| a@)
}

/// The configuration file that a command is about: the one that the user named, else the default
/// one. Help is about none.
pub open spec fn file_of(command: CommandView, home: Option<&str>) -> Option<Seq<char>> {
    match command {
        CommandView::Run(Some(path)) => Some(path),
        CommandView::Init(Some(path)) => Some(path),
        CommandView::Run(None) => Some(default_config_place(home)),
        CommandView::Init(None) => Some(default_config_place(home)),
        CommandView::Help => None,
    }
}

fn path_or_default(path: &Option<String>, home: Option<&str>) -> (r: String)
    ensures
        r@ == match *path {
            Some(p) => p@,
            None => default_config_place(home),
        },
{
    match path {
        Some(p) => p.clone(),
        None => default_config_path(home),
    }
}

impl CliCommand {
    /// Reads the arguments behind the program's name.
    pub fn parse(args: &[String]) -> (r: Result<CliCommand, Error>)
        ensures
            match command_of(args_view(args@)) {
                Ok(c) => r matches Ok(command) && command@ == c,
                Err(e) => r == Err::<CliCommand, Error>(e),
            },
    {
        if args.len() == 0 {
            return Ok(CliCommand::Run { config_path: None });
        }
        let first: &str = args[0].as_str();
        assert(args_view(args@)[0] == args@[0]@);
        if args.len() == 1 {
            if same_text(first, "run") {
                Ok(CliCommand::Run { config_path: None })
            } else if same_text(first, "init") {
                Ok(CliCommand::Init { config_path: None })
            } else if same_text(first, "help") || same_text(first, "--help") || same_text(
                first,
                "-h",
            ) {
                Ok(CliCommand::Help)
            } else {
                Ok(CliCommand::Run { config_path: Some(first.to_owned()) })
            }
        } else if args.len() == 2 && same_text(first, "run") {
            assert(args_view(args@)[1] == args@[1]@);
            Ok(CliCommand::Run { config_path: Some(args[1].clone()) })
        } else if args.len() == 2 && same_text(first, "init") {
            assert(args_view(args@)[1] == args@[1]@);
            Ok(CliCommand::Init { config_path: Some(args[1].clone()) })
        } else {
            Err(Error::InvalidArguments)
        }
    }

    /// The configuration file that the command is about.
    pub fn config_file(&self, home: Option<&str>) -> (r: Option<String>)
        ensures
            text_of(r) == file_of(self@, home),
    {
        match self {
            CliCommand::Run { config_path } => Some(path_or_default(config_path, home)),
            CliCommand::Init { config_path } => Some(path_or_default(config_path, home)),
            CliCommand::Help => None,
        }
    }

    /// Whether the user chose where the new configuration goes.
    pub fn explicit_path(&self) -> (r: bool)
        ensures
            r == (self@ matches CommandView::Init(path) && path is Some),
    {
        match self {
            CliCommand::Init { config_path } => config_path.is_some(),
            _ => false,
        }
    }
}

/// The text of `help`.
pub fn help_text() -> (r: String)
    ensures
        r@ == "Usage:\n  ever-elect run [config]\n  ever-elect init [config]\n  ever-elect help\n\nDefault config: ~/.tycho/ever-elect.json"@,
{
    "Usage:\n  ever-elect run [config]\n  ever-elect init [config]\n  ever-elect help\n\nDefault config: ~/.tycho/ever-elect.json".to_owned()
}

/// Arguments that name no file are about the default one, and a file that is named is the one that
/// the command is about.
pub proof fn law_file_is_named_or_default(path: Seq<char>, home: Option<&str>)
    ensures
        file_of(command_of(Seq::empty())->Ok_0, home) == Some(default_config_place(home)),
        file_of(command_of(seq!["run"@])->Ok_0, home) == Some(default_config_place(home)),
        file_of(command_of(seq!["init"@])->Ok_0, home) == Some(default_config_place(home)),
        file_of(command_of(seq!["run"@, path])->Ok_0, home) == Some(path),
        file_of(command_of(seq!["init"@, path])->Ok_0, home) == Some(path),
{
    reveal_strlit("run");
    reveal_strlit("init");
    assert("run"@.len() != "init"@.len());
}

/// No command is treated as `run`.
pub proof fn law_no_command_is_run()
    ensures
        command_of(Seq::empty()) == command_of(seq!["run"@]),
        command_of(Seq::empty()) == Ok::<CommandView, Error>(CommandView::Run(None)),
{
}

/// A path alone, and one behind `run`, both run with it, unless the path is a command's name.
pub proof fn law_path_alone_is_run(path: Seq<char>)
    requires
        path != "run"@,
        path != "init"@,
        path != "help"@,
        path != "--help"@,
        path != "-h"@,
    ensures
        command_of(seq![path]) == command_of(seq!["run"@, path]),
{
}

/// What each command is called by, and which arguments are refused.
pub proof fn law_commands_are_called_by_name(args: Seq<Seq<char>>, path: Seq<char>)
    ensures
        command_of(seq!["run"@]) == Ok::<CommandView, Error>(CommandView::Run(None)),
        command_of(seq!["init"@]) == Ok::<CommandView, Error>(CommandView::Init(None)),
        command_of(seq!["run"@, path]) == Ok::<CommandView, Error>(CommandView::Run(Some(path))),
        command_of(seq!["init"@, path]) == Ok::<CommandView, Error>(CommandView::Init(Some(path))),
        command_of(seq!["help"@]) == Ok::<CommandView, Error>(CommandView::Help),
        command_of(seq!["--help"@]) == Ok::<CommandView, Error>(CommandView::Help),
        command_of(seq!["-h"@]) == Ok::<CommandView, Error>(CommandView::Help),
        args.len() > 2 ==> command_of(args) == Err::<CommandView, Error>(Error::InvalidArguments),
        args.len() == 2 && args[0] != "run"@ && args[0] != "init"@ ==> command_of(args) == Err::<
            CommandView,
            Error,
        >(Error::InvalidArguments),
        args.len() < 2 ==> command_of(args) is Ok,
{
    reveal_strlit("run");
    reveal_strlit("init");
    reveal_strlit("help");
    reveal_strlit("--help");
    reveal_strlit("-h");
    assert("run"@[0] == 'r');
    assert("init"@[0] == 'i');
    assert("help"@[0] == 'h');
    assert("--help"@[0] == '-');
    assert("-h"@[0] == '-');
}

/// The user chose where a new configuration goes exactly where they asked for one with a path.
pub proof fn law_explicit_path_is_of_init(command: CliCommand, explicit: bool)
    requires
        call_ensures(CliCommand::explicit_path, (&command,), explicit),
    ensures
        explicit <==> (command matches CliCommand::Init { config_path: Some(path) }),
{
}

/// Help is about no file, wherever home is.
pub proof fn law_help_is_about_no_file(home: Option<&str>)
    ensures
        file_of(CommandView::Help, home) is None,
{
}

} // verus!
