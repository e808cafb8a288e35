use ever_elect::cli::{help_text, CliCommand};
use ever_elect::error::Error;
use ever_elect::paths::{
    absolute_path, default_config_path, default_elections_path, expand_home, is_absolute, join,
    join_user_path, parent_folder, user_service_path,
};
use std::path::{Path, PathBuf};

fn args(list: &[&str]) -> Vec<String> {
    list.iter().map(|a| a.to_string()).collect()
}

#[test]
fn joins_as_the_standard_library_does() {
    for base in ["", "/", "a", "a/", "/home/u", "~/.tycho"] {
        for rest in ["", "b", "b/c", "/b", "elections.json"] {
            let expected = PathBuf::from(base).join(rest).display().to_string();
            assert_eq!(join(base, rest), expected);
            assert_eq!(join_user_path(base, rest), expected);
        }
    }
}

#[test]
fn parents_are_those_of_the_standard_library() {
    let mut paths = vec![String::new()];
    let mut from = 0;
    for _ in 0..7 {
        let until = paths.len();
        for i in from..until {
            for c in ['/', '.', 'a', '\u{e9}'] {
                let longer = format!("{}{}", paths[i], c);
                paths.push(longer);
            }
        }
        from = until;
    }
    for path in &paths {
        let expected = Path::new(path).parent().map(|p| p.display().to_string());
        assert_eq!(parent_folder(path), expected, "{:?}", path);
    }
}

#[test]
fn joined_files_are_in_their_folder() {
    for folder in ["", "/", "a", "/etc/elect", "~/.tycho"] {
        assert_eq!(parent_folder(&join(folder, "x.json")).as_deref(), Some(folder));
    }
}

#[test]
fn knows_absolute_paths() {
    for path in ["", "/", "/a", "a", "~/a", "./a"] {
        assert_eq!(is_absolute(path), Path::new(path).is_absolute());
    }
}

#[test]
fn default_places_are_in_the_home_folder() {
    assert_eq!(default_config_path(Some("/home/u")), "/home/u/.tycho/ever-elect.json");
    assert_eq!(default_config_path(None), "./.tycho/ever-elect.json");
    assert_eq!(default_elections_path(Some("/home/u")), "/home/u/.tycho/elections.json");
    assert_eq!(default_elections_path(None), "./.tycho/elections.json");
}

#[test]
fn unit_file_goes_to_the_user_services() {
    assert_eq!(
        user_service_path(Some("/home/u")),
        Ok("/home/u/.config/systemd/user/ever-elect.service".to_string())
    );
    assert_eq!(user_service_path(None), Err(Error::HomeNotSet));
}

#[test]
fn expands_the_home_sign() {
    assert_eq!(expand_home("~/.tycho", Some("/home/u")), "/home/u/.tycho");
    assert_eq!(expand_home("~/", Some("/home/u")), "/home/u/");
    assert_eq!(expand_home("~//etc", Some("/home/u")), "/etc");
    assert_eq!(expand_home("~", Some("/home/u")), "~");
    assert_eq!(expand_home("~u/x", Some("/home/u")), "~u/x");
    assert_eq!(expand_home("~/x", None), "~/x");
    assert_eq!(expand_home("a/~/x", Some("/home/u")), "a/~/x");
}

#[test]
fn expanding_twice_changes_nothing() {
    let once = expand_home("~/a/b", Some("/home/u"));
    assert_eq!(expand_home(&once, Some("/home/u")), once);
}

#[test]
fn makes_paths_absolute() {
    assert_eq!(absolute_path("a.json", Some("/h"), Some("/cwd")), Ok("/cwd/a.json".to_string()));
    assert_eq!(absolute_path("/a.json", Some("/h"), None), Ok("/a.json".to_string()));
    assert_eq!(absolute_path("~/a.json", Some("/h"), None), Ok("/h/a.json".to_string()));
    assert_eq!(absolute_path("~/a.json", None, Some("/cwd")), Ok("/cwd/~/a.json".to_string()));
    assert_eq!(absolute_path("a.json", Some("/h"), None), Err(Error::NoCurrentDirectory));
}

#[test]
fn no_command_is_run() {
    let run = Ok(CliCommand::Run { config_path: None });
    assert_eq!(CliCommand::parse(&args(&[])), run);
    assert_eq!(CliCommand::parse(&args(&["run"])), run);
}

#[test]
fn run_takes_a_path() {
    let run = Ok(CliCommand::Run {
        config_path: Some("/path/to/ever-elect.json".to_string()),
    });
    assert_eq!(CliCommand::parse(&args(&["run", "/path/to/ever-elect.json"])), run);
    assert_eq!(CliCommand::parse(&args(&["/path/to/ever-elect.json"])), run);
}

#[test]
fn init_takes_a_path() {
    let plain = CliCommand::parse(&args(&["init"])).expect("init");
    assert_eq!(plain, CliCommand::Init { config_path: None });
    assert!(!plain.explicit_path());
    let chosen = CliCommand::parse(&args(&["init", "x.json"])).expect("init");
    assert_eq!(
        chosen,
        CliCommand::Init {
            config_path: Some("x.json".to_string())
        }
    );
    assert!(chosen.explicit_path());
    assert!(!CliCommand::Help.explicit_path());
}

#[test]
fn commands_name_their_file() {
    let home = Some("/home/u");
    let file = |list: &[&str]| CliCommand::parse(&args(list)).expect("command").config_file(home);
    let default = Some("/home/u/.tycho/ever-elect.json".to_string());
    for list in [&[][..], &["run"][..], &["init"][..]] {
        assert_eq!(file(list), default);
    }
    for list in [&["run", "x.json"][..], &["init", "x.json"][..], &["x.json"][..]] {
        assert_eq!(file(list), Some("x.json".to_string()));
    }
    assert_eq!(file(&["help"]), None);
    assert_eq!(
        CliCommand::parse(&[]).expect("command").config_file(None),
        Some("./.tycho/ever-elect.json".to_string())
    );
}

#[test]
fn asks_for_help() {
    for word in ["help", "--help", "-h"] {
        assert_eq!(CliCommand::parse(&args(&[word])), Ok(CliCommand::Help));
    }
    assert_eq!(
        help_text(),
        "Usage:\n  ever-elect run [config]\n  ever-elect init [config]\n  ever-elect help\n\nDefault config: ~/.tycho/ever-elect.json"
    );
}

#[test]
fn refuses_other_arguments() {
    for list in [&["help", "x"][..], &["run", "a", "b"][..], &["x", "y"][..]] {
        assert_eq!(CliCommand::parse(&args(list)), Err(Error::InvalidArguments));
    }
}
