//! Paths as text, with `/` between their parts.

use crate::error::Error;
use vstd::prelude::*;

verus! {

pub const CONFIG_FILE_NAME: &'static str = "ever-elect.json";

pub const DEFAULT_CONFIG_FOLDER: &'static str = "~/.tycho";

/// Whether `path` starts at the root.
pub open spec fn is_absolute_path(path: Seq<char>) -> bool {
    path.len() > 0 && path[0] == '/'
}

pub fn is_absolute(path: &str) -> (r: bool)
    ensures
        r == is_absolute_path(path@),
{
    path.unicode_len() > 0 && path.get_char(0) == '/'
}

/// `rest` as seen from `base`: an absolute `rest` stands for itself.
pub open spec fn joined(base: Seq<char>, rest: Seq<char>) -> Seq<char> {
    if is_absolute_path(rest) {
        rest
    } else if base.len() == 0 || base.last() == '/' {
        base + rest
    } else {
        base + "/"@ + rest
    }
}

/// Joins two paths.
pub fn join(base: &str, rest: &str) -> (r: String)
    ensures
        r@ == joined(base@, rest@),
{
    if is_absolute(rest) {
        return rest.to_owned();
    }
    let n: usize = base.unicode_len();
    if n == 0 || base.get_char(n - 1) == '/' {
        base.to_owned().concat(rest)
    } else {
        base.to_owned().concat("/").concat(rest)
    }
}

/// A file in a folder that the user named.
pub fn join_user_path(folder: &str, file_name: &str) -> (r: String)
    ensures
        r@ == joined(folder@, file_name@),
{
    join(folder, file_name)
}

/// The home folder, or the current one where there is none.
pub open spec fn home_or_here(home: Option<&str>) -> Seq<char> {
    match home {
        Some(h) => h@,
        None => "."@,
    }
}

pub(crate) fn home_folder(home: Option<&str>) -> (r: String)
    ensures
        r@ == home_or_here(home),
{
    match home {
        Some(h) => h.to_owned(),
        None => ".".to_owned(),
    }
}

/// Where the configuration is when nobody says otherwise.
pub open spec fn default_config_place(home: Option<&str>) -> Seq<char> {
    joined(joined(home_or_here(home), ".tycho"@), CONFIG_FILE_NAME@)
}

/// Where the configuration is when nobody says otherwise.
pub fn default_config_path(home: Option<&str>) -> (r: String)
    ensures
        r@ == default_config_place(home),
{
    join(join(home_folder(home).as_str(), ".tycho").as_str(), CONFIG_FILE_NAME)
}

/// Where the elections file is when nobody says otherwise.
pub fn default_elections_path(home: Option<&str>) -> (r: String)
    ensures
        r@ == joined(joined(home_or_here(home), ".tycho"@), "elections.json"@),
{
    join(join(home_folder(home).as_str(), ".tycho").as_str(), "elections.json")
}

/// Where the unit file of the user service goes.
pub open spec fn service_path(home: Seq<char>) -> Seq<char> {
    joined(
        joined(joined(joined(home, ".config"@), "systemd"@), "user"@),
        "ever-elect.service"@,
    )
}

/// Where the unit file of the user service goes; there is no such place without a home.
pub fn user_service_path(home: Option<&str>) -> (r: Result<String, Error>)
    ensures
        match home {
            None => r == Err::<String, Error>(Error::HomeNotSet),
            Some(h) => r matches Ok(path) && path@ == service_path(h@),
        },
{
    match home {
        None => Err(Error::HomeNotSet),
        Some(h) => {
            let config: String = join(h, ".config");
            let systemd: String = join(config.as_str(), "systemd");
            let user: String = join(systemd.as_str(), "user");
            Ok(join(user.as_str(), "ever-elect.service"))
        },
    }
}

/// Whether `path` starts with the sign of the home folder.
pub open spec fn starts_at_home(path: Seq<char>) -> bool {
    path.len() >= 2 && path[0] == '~' && path[1] == '/'
}

/// `path` with a leading `~/` replaced by the home folder, where there is one.
pub open spec fn expanded(path: Seq<char>, home: Option<&str>) -> Seq<char> {
    match home {
        Some(h) => if starts_at_home(path) {
            joined(h@, path.skip(2))
        } else {
            path
        },
        None => path,
    }
}

/// Replaces a leading `~/` by the home folder.
pub fn expand_home(path: &str, home: Option<&str>) -> (r: String)
    ensures
        r@ == expanded(path@, home),
{
    let n: usize = path.unicode_len();
    if n >= 2 && path.get_char(0) == '~' && path.get_char(1) == '/' {
        match home {
            Some(h) => {
                assert(path@.subrange(2, n as int) =~= path@.skip(2));
                return join(h, path.substring_char(2, n));
            },
            None => {},
        }
    }
    path.to_owned()
}

/// What `path` means to a program whose current folder is `current`.
pub open spec fn absolute(path: Seq<char>, home: Option<&str>, current: Option<&str>) -> Result<
    Seq<char>,
    Error,
> {
    let full = expanded(path, home);
    if is_absolute_path(full) {
        Ok(full)
    } else {
        match current {
            Some(folder) => Ok(joined(folder@, full)),
            None => Err(Error::NoCurrentDirectory),
        }
    }
}

/// Makes `path` absolute. The current folder is asked for only where it is needed.
pub fn absolute_path(path: &str, home: Option<&str>, current: Option<&str>) -> (r: Result<
    String,
    Error,
>)
    ensures
        match absolute(path@, home, current) {
            Ok(full) => r matches Ok(p) && p@ == full,
            Err(e) => r == Err::<String, Error>(e),
        },
{
    let full: String = expand_home(path, home);
    if is_absolute(full.as_str()) {
        Ok(full)
    } else {
        match current {
            Some(folder) => Ok(join(folder, full.as_str())),
            None => Err(Error::NoCurrentDirectory),
        }
    }
}

/// `path` without what means nothing at its end: slashes, and single dots behind a slash. The root
/// stays.
pub open spec fn without_tail(path: Seq<char>) -> Seq<char>
    decreases path.len(),
{
    if path.len() >= 2 && (path.last() == '/' || (path.last() == '.' && path[path.len() - 2]
        == '/')) {
        without_tail(path.drop_last())
    } else {
        path
    }
}

/// `path` up to its last slash, with it.
pub open spec fn through_last_slash(path: Seq<char>) -> Seq<char>
    decreases path.len(),
{
    if path.len() == 0 || path.last() == '/' {
        path
    } else {
        through_last_slash(path.drop_last())
    }
}

/// The folder of what `path` names. Nothing at all and the root are in none.
pub open spec fn parent_of(path: Seq<char>) -> Option<Seq<char>> {
    let named = without_tail(path);
    if named.len() == 0 || named == seq!['/'] {
        None
    } else {
        Some(without_tail(through_last_slash(named)))
    }
}

/// How much of the first `n` characters is left without their tail.
fn len_without_tail(path: &str, n: usize) -> (r: usize)
    requires
        n <= path@.len(),
    ensures
        r <= n,
        path@.take(r as int) == without_tail(path@.take(n as int)),
{
    let mut len: usize = n;
    while len >= 2 && (path.get_char(len - 1) == '/' || (path.get_char(len - 1) == '.'
        && path.get_char(len - 2) == '/'))
        invariant
            len <= n <= path@.len(),
            without_tail(path@.take(n as int)) == without_tail(path@.take(len as int)),
        decreases len,
    {
        assert(path@.take(len as int).drop_last() =~= path@.take(len - 1));
        len = len - 1;
    }
    len
}

/// The folder of what `path` names.
pub fn parent_folder(path: &str) -> (r: Option<String>)
    ensures
        match parent_of(path@) {
            Some(folder) => r matches Some(f) && f@ == folder,
            None => r is None,
        },
{
    let all: usize = path.unicode_len();
    assert(path@.take(all as int) =~= path@);
    let named: usize = len_without_tail(path, all);
    let ghost name = path@.take(named as int);
    if named == 0 {
        return None;
    }
    if named == 1 && path.get_char(0) == '/' {
        assert(name =~= seq!['/']);
        return None;
    }
    assert(name != seq!['/']) by {
        if name == seq!['/'] {
            assert(name[0] == path@[0]);
            assert(name.len() == 1);
        }
    }
    let mut len: usize = named;
    while len > 0 && path.get_char(len - 1) != '/'
        invariant
            len <= named <= path@.len(),
            through_last_slash(name) == through_last_slash(path@.take(len as int)),
        decreases len,
    {
        assert(path@.take(len as int).drop_last() =~= path@.take(len - 1));
        len = len - 1;
    }
    let folder: usize = len_without_tail(path, len);
    assert(path@.subrange(0, folder as int) =~= path@.take(folder as int));
    Some(path.substring_char(0, folder).to_owned())
}

/// A file that was put into a folder is in that folder, where the folder has no tail of its own and
/// the file's name is a name.
pub proof fn law_parent_of_joined(folder: Seq<char>, name: Seq<char>)
    requires
        without_tail(folder) == folder,
        name.len() > 0,
        !name.contains('/'),
        name != seq!['.'],
    ensures
        parent_of(joined(folder, name)) == Some(folder),
{
    reveal_strlit("/");
    assert("/"@ =~= seq!['/']);
    let path = joined(folder, name);
    let head = if folder.len() == 0 || folder.last() == '/' {
        folder
    } else {
        folder + "/"@
    };
    assert(name[0] != '/') by {
        assert(name.contains(name[0]));
    }
    assert(name.last() != '/') by {
        assert(name.contains(name.last()));
    }
    assert(path =~= head + name);
    assert(path.last() == name.last());
    if path.len() >= 2 && path.last() == '.' && path[path.len() - 2] == '/' {
        if name.len() >= 2 {
            assert(name[name.len() - 2] == path[path.len() - 2]);
            assert(name.contains('/'));
        } else {
            assert(name =~= seq!['.']);
        }
    }
    assert(without_tail(path) == path);
    assert(path != seq!['/']) by {
        if path == seq!['/'] {
            assert(path.last() == '/');
        }
    }
    lemma_through_last_slash(head, name);
    if folder.len() == 0 {
        assert(head =~= folder);
    } else if folder.last() == '/' {
        assert(head =~= folder);
    } else {
        assert(head.last() == '/');
        assert(head.drop_last() =~= folder);
    }
}

proof fn lemma_through_last_slash(head: Seq<char>, name: Seq<char>)
    requires
        head.len() == 0 || head.last() == '/',
        !name.contains('/'),
    ensures
        through_last_slash(head + name) == head,
    decreases name.len(),
{
    let path = head + name;
    if name.len() == 0 {
        assert(path =~= head);
    } else {
        assert(name.contains(name.last()));
        assert(path.last() == name.last());
        assert(path.drop_last() =~= head + name.drop_last());
        assert forall|c: char| name.drop_last().contains(c) implies name.contains(c) by {
            let i = choose|i: int| 0 <= i < name.drop_last().len() && name.drop_last()[i] == c;
            assert(name[i] == c);
        }
        lemma_through_last_slash(head, name.drop_last());
    }
}

/// A path seen from an absolute folder is absolute.
pub proof fn law_join_from_root(base: Seq<char>, rest: Seq<char>)
    requires
        is_absolute_path(base),
    ensures
        is_absolute_path(joined(base, rest)),
{
}

/// Where the current folder is absolute, `absolute_path` gives an absolute path.
pub proof fn law_absolute_path_is_absolute(path: Seq<char>, home: Option<&str>, current: &str)
    requires
        is_absolute_path(current@),
    ensures
        absolute(path, home, Some(current)) matches Ok(full) && is_absolute_path(full),
{
    law_join_from_root(current@, expanded(path, home));
}

/// Expanding a second time changes nothing, where the home folder is absolute.
pub proof fn law_expand_home_once(path: Seq<char>, home: &str)
    requires
        is_absolute_path(home@),
    ensures
        expanded(expanded(path, Some(home)), Some(home)) == expanded(path, Some(home)),
{
    if starts_at_home(path) {
        law_join_from_root(home@, path.skip(2));
    }
}

/// Absolute paths mean what they say.
pub proof fn law_absolute_path_stays(path: Seq<char>, home: Option<&str>, current: Option<&str>)
    requires
        is_absolute_path(path),
    ensures
        absolute(path, home, current) == Ok::<Seq<char>, Error>(path),
{
}

/// A relative path that is joined to a folder stands at the end and the folder at the beginning,
/// with one slash between them where the folder needs one.
pub proof fn law_join_keeps_both(base: Seq<char>, rest: Seq<char>)
    requires
        !(rest.len() > 0 && rest[0] == '/'),
    ensures
        ({
            let both = joined(base, rest);
            let gap = both.len() - base.len() - rest.len();
            &&& gap == 0 || gap == 1
            &&& both.take(base.len() as int) == base
            &&& both.skip(both.len() - rest.len()) == rest
            &&& gap == 1 ==> both[base.len() as int] == '/'
            &&& gap == 1 <==> base.len() > 0 && base[base.len() - 1] != '/'
        }),
{
    reveal_strlit("/");
    let both = joined(base, rest);
    assert(both.take(base.len() as int) =~= base);
    assert(both.skip(both.len() - rest.len()) =~= rest);
}

/// An absolute path that is joined to a folder stands for itself.
pub proof fn law_absolute_rest_stands_alone(base: Seq<char>, rest: Seq<char>)
    requires
        rest.len() > 0,
        rest[0] == '/',
    ensures
        joined(base, rest) == rest,
{
}

/// The configuration and the service's unit file have their places below the home folder.
pub proof fn law_places_below_home(home: &str)
    requires
        home@.len() > 0,
        home@.last() != '/',
    ensures
        default_config_place(Some(home)) == home@ + "/.tycho/ever-elect.json"@,
        service_path(home@) == home@ + "/.config/systemd/user/ever-elect.service"@,
        default_config_place(None) == "./.tycho/ever-elect.json"@,
{
    reveal_strlit("/");
    reveal_strlit(".");
    reveal_strlit(".tycho");
    reveal_strlit("ever-elect.json");
    reveal_strlit("/.tycho/ever-elect.json");
    reveal_strlit("./.tycho/ever-elect.json");
    reveal_strlit(".config");
    reveal_strlit("systemd");
    reveal_strlit("user");
    reveal_strlit("ever-elect.service");
    reveal_strlit("/.config/systemd/user/ever-elect.service");
    assert(default_config_place(Some(home)) =~= home@ + "/.tycho/ever-elect.json"@);
    assert(default_config_place(None) =~= "./.tycho/ever-elect.json"@);
    let config = joined(home@, ".config"@);
    assert(config.last() == 'g');
    let systemd = joined(config, "systemd"@);
    assert(systemd.last() == 'd');
    let user = joined(systemd, "user"@);
    assert(user.last() == 'r');
    assert(service_path(home@) =~= home@ + "/.config/systemd/user/ever-elect.service"@);
}

/// The sign of the home folder is replaced at the beginning of a path, where there is a home, and
/// nowhere else.
pub proof fn law_home_sign_is_replaced(rest: Seq<char>, path: Seq<char>, home: &str)
    ensures
        expanded(seq!['~', '/'] + rest, Some(home)) == joined(home@, rest),
        expanded(path, None) == path,
        path.len() < 2 || path[0] != '~' || path[1] != '/' ==> expanded(path, Some(home)) == path,
{
    assert((seq!['~', '/'] + rest).skip(2) =~= rest);
}

/// A path that is not absolute is seen from the current folder, and refused where there is none.
pub proof fn law_relative_path_is_seen_from_here(path: Seq<char>, current: &str)
    requires
        path.len() == 0 || path[0] != '/',
    ensures
        absolute(path, None, Some(current)) == Ok::<Seq<char>, Error>(joined(current@, path)),
        absolute(path, None, None) == Err::<Seq<char>, Error>(Error::NoCurrentDirectory),
{
}

/// The unit file has a place exactly where there is a home, and the elections file has one below the
/// home folder, or below the current one.
pub proof fn law_service_needs_a_home(
    home: Option<&str>,
    service: Result<String, Error>,
    elections: String,
)
    requires
        call_ensures(user_service_path, (home,), service),
        call_ensures(default_elections_path, (home,), elections),
    ensures
        home is None <==> service is Err,
        service matches Err(e) ==> e == Error::HomeNotSet,
        home matches Some(h) ==> (service matches Ok(path) && path@ == service_path(h@)),
        home is None ==> elections@ == "./.tycho/elections.json"@,
        home matches Some(h) ==> (h@.len() > 0 && h@.last() != '/' ==> elections@ == h@
            + "/.tycho/elections.json"@),
{
    reveal_strlit("/");
    reveal_strlit(".");
    reveal_strlit(".tycho");
    reveal_strlit("elections.json");
    reveal_strlit("/.tycho/elections.json");
    reveal_strlit("./.tycho/elections.json");
    if let Some(h) = home {
        if h@.len() > 0 && h@.last() != '/' {
            assert(elections@ =~= h@ + "/.tycho/elections.json"@);
        }
    } else {
        assert(elections@ =~= "./.tycho/elections.json"@);
    }
}

/// A path below the home folder is seen from there, wherever the program runs, where the home folder
/// is absolute.
pub proof fn law_home_path_is_seen_from_home(rest: Seq<char>, home: &str, current: Option<&str>)
    requires
        is_absolute_path(home@),
    ensures
        absolute(seq!['~', '/'] + rest, Some(home), current) == Ok::<Seq<char>, Error>(
            joined(home@, rest),
        ),
{
    law_home_sign_is_replaced(rest, rest, home);
    law_join_from_root(home@, rest);
}

/// The root and nothing at all are in no folder. Slashes at the end mean nothing, nor does a single
/// dot behind one. What ends in a name is in a folder.
pub proof fn law_only_the_root_has_no_folder(path: Seq<char>)
    ensures
        parent_of(Seq::empty()) is None,
        parent_of(seq!['/']) is None,
        path.len() > 0 ==> parent_of(path.push('/')) == parent_of(path),
        path.len() > 0 ==> parent_of(path.push('/').push('.')) == parent_of(path),
        path.len() > 0 && path.last() != '/' && path.last() != '.' ==> parent_of(path) is Some,
{
    if path.len() > 0 {
        assert(path.push('/').drop_last() =~= path);
        assert(path.push('/').push('.').drop_last() =~= path.push('/'));
        if path.last() != '/' {
            assert(path != seq!['/']);
        }
    }
}

} // verus!
