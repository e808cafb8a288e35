//! The unit file of the user service.

use vstd::prelude::*;

verus! {

/// Whether `path` has to be quoted in a unit file.
pub open spec fn needs_quotes(path: Seq<char>) -> bool {
    path.contains(' ') || path.contains('\t') || path.contains('"') || path.contains('\\')
}

/// A character between quotes.
pub open spec fn escaped_char(c: char) -> Seq<char> {
    if c == '\\' {
        seq!['\\', '\\']
    } else if c == '"' {
        seq!['\\', '"']
    } else {
        seq![c]
    }
}

/// A text between quotes.
pub open spec fn escaped(path: Seq<char>) -> Seq<char>
    decreases path.len(),
{
    if path.len() == 0 {
        Seq::empty()
    } else {
        escaped(path.drop_last()) + escaped_char(path.last())
    }
}

/// A path as it stands in a unit file.
pub open spec fn quoted(path: Seq<char>) -> Seq<char> {
    if needs_quotes(path) {
        seq!['"'] + escaped(path) + seq!['"']
    } else {
        path
    }
}

fn has_special_char(path: &str) -> (r: bool)
    ensures
        r == needs_quotes(path@),
{
    let n: usize = path.unicode_len();
    let mut i: usize = 0;
    while i < n
        invariant
            i <= n,
            n == path@.len(),
            forall|j: int|
                0 <= j < i ==> {
                    let c = #[trigger] path@[j];
                    c != ' ' && c != '\t' && c != '"' && c != '\\'
                },
        decreases n - i,
    {
        let c: char = path.get_char(i);
        if c == ' ' || c == '\t' || c == '"' || c == '\\' {
            assert(path@[i as int] == c);
            return true;
        }
        i = i + 1;
    }
    false
}

/// Writes a path as it stands in a unit file: quoted where a space, a tab, a quote or a backslash
/// asks for it.
pub fn systemd_quote(path: &str) -> (r: String)
    ensures
        r@ == quoted(path@),
{
    if !has_special_char(path) {
        return path.to_owned();
    }
    let n: usize = path.unicode_len();
    let mut text: String = "\"".to_owned();
    let mut i: usize = 0;
    proof {
        reveal_strlit("\"");
        reveal_strlit("\\\\");
        reveal_strlit("\\\"");
    }
    assert("\""@ =~= seq!['"']);
    assert("\\\\"@ =~= seq!['\\', '\\']);
    assert("\\\""@ =~= seq!['\\', '"']);
    assert(text@ =~= seq!['"'] + escaped(path@.take(0)));
    while i < n
        invariant
            i <= n,
            n == path@.len(),
            "\\\\"@ == seq!['\\', '\\'],
            "\\\""@ == seq!['\\', '"'],
            text@ == seq!['"'] + escaped(path@.take(i as int)),
        decreases n - i,
    {
        let c: char = path.get_char(i);
        let ghost longer = path@.take(i + 1);
        assert(longer.drop_last() =~= path@.take(i as int));
        if c == '\\' {
            text.append("\\\\");
        } else if c == '"' {
            text.append("\\\"");
        } else {
            assert(path@.subrange(i as int, i + 1) =~= seq![c]);
            text.append(path.substring_char(i, i + 1));
        }
        assert(text@ =~= seq!['"'] + escaped(longer));
        i = i + 1;
    }
    assert(path@.take(n as int) =~= path@);
    text.append("\"");
    text
}

/// The unit file that runs `exe` with the configuration at `config_path`.
pub open spec fn unit_text(exe: Seq<char>, config_path: Seq<char>, working_dir: Seq<char>) -> Seq<
    char,
> {
    "[Unit]\nDescription=Ever Elect validator elections\n\n[Service]\nType=simple\nWorkingDirectory="@
        + quoted(working_dir) + "\nExecStart="@ + quoted(exe) + " run "@ + quoted(config_path)
        + "\nRestart=always\nRestartSec=10\nKillSignal=SIGTERM\nTimeoutStopSec=30\n\n[Install]\nWantedBy=default.target\n"@
}

/// Writes the unit file.
pub fn service_unit(exe: &str, config_path: &str, working_dir: &str) -> (r: String)
    ensures
        r@ == unit_text(exe@, config_path@, working_dir@),
{
    "[Unit]\nDescription=Ever Elect validator elections\n\n[Service]\nType=simple\nWorkingDirectory=".to_owned().concat(
        systemd_quote(working_dir).as_str(),
    ).concat("\nExecStart=").concat(systemd_quote(exe).as_str()).concat(" run ").concat(
        systemd_quote(config_path).as_str(),
    ).concat(
        "\nRestart=always\nRestartSec=10\nKillSignal=SIGTERM\nTimeoutStopSec=30\n\n[Install]\nWantedBy=default.target\n",
    )
}

proof fn lemma_escaped_is_unique(a: Seq<char>, b: Seq<char>)
    requires
        escaped(a) == escaped(b),
    ensures
        a == b,
    decreases a.len(),
{
    let text = escaped(a);
    if a.len() == 0 {
        if b.len() > 0 {
            assert(text.len() >= escaped_char(b.last()).len());
        }
        assert(a =~= b);
    } else if b.len() == 0 {
        assert(text.len() >= escaped_char(a.last()).len());
    } else {
        let x = escaped_char(a.last());
        let y = escaped_char(b.last());
        assert(text.last() == x.last());
        assert(text.last() == y.last());
        assert(a.last() == b.last());
        let n = text.len() - x.len();
        assert(text.take(n) =~= escaped(a.drop_last()));
        assert(text.take(n) =~= escaped(b.drop_last()));
        lemma_escaped_is_unique(a.drop_last(), b.drop_last());
        assert(a =~= a.drop_last().push(a.last()));
        assert(b =~= b.drop_last().push(b.last()));
    }
}

/// Two paths that look the same in a unit file are the same: quoting loses nothing.
pub proof fn law_quoting_loses_nothing(a: Seq<char>, b: Seq<char>)
    requires
        quoted(a) == quoted(b),
    ensures
        a == b,
{
    if needs_quotes(a) && needs_quotes(b) {
        let x = quoted(a);
        assert(x.subrange(1, x.len() - 1) =~= escaped(a));
        assert(x.subrange(1, x.len() - 1) =~= escaped(b));
        lemma_escaped_is_unique(a, b);
    } else if needs_quotes(a) {
        assert(quoted(a)[0] == '"');
        assert(b.contains('"'));
    } else if needs_quotes(b) {
        assert(quoted(b)[0] == '"');
        assert(a.contains('"'));
    }
}

/// A path stands in a unit file as it is exactly where it has no space, no tab, no quote and no
/// backslash.
pub proof fn law_plain_path_is_not_quoted(path: Seq<char>)
    ensures
        quoted(path) == path <==> forall|i: int|
            0 <= i < path.len() ==> {
                let c = #[trigger] path[i];
                c != ' ' && c != '\t' && c != '"' && c != '\\'
            },
{
    lemma_escaped_is_longer(path);
    if needs_quotes(path) {
        assert(quoted(path).len() > path.len());
        let c = if path.contains(' ') {
            ' '
        } else if path.contains('\t') {
            '\t'
        } else if path.contains('"') {
            '"'
        } else {
            '\\'
        };
        let i = choose|i: int| 0 <= i < path.len() && path[i] == c;
        assert(path[i] == c);
    }
}

proof fn lemma_escaped_is_longer(path: Seq<char>)
    ensures
        escaped(path).len() >= path.len(),
    decreases path.len(),
{
    if path.len() > 0 {
        lemma_escaped_is_longer(path.drop_last());
    }
}

/// A quoted path stands between quotes, and each of its characters stands for itself, but for a
/// backslash before every quote and every backslash.
pub proof fn law_quoted_path_is_escaped(path: Seq<char>, head: Seq<char>, tail: Seq<char>, c: char)
    ensures
        quoted(path) != path ==> quoted(path) == seq!['"'] + escaped(path) + seq!['"'],
        escaped(Seq::empty()) == Seq::<char>::empty(),
        escaped(seq![c]) == if c == '"' || c == '\\' {
            seq!['\\', c]
        } else {
            seq![c]
        },
        escaped(head + tail) == escaped(head) + escaped(tail),
{
    assert(seq![c].drop_last() =~= Seq::<char>::empty());
    reveal_with_fuel(escaped, 2);
    assert(escaped(seq![c]) =~= escaped_char(c));
    lemma_escaped_parts(head, tail);
}

proof fn lemma_escaped_parts(head: Seq<char>, tail: Seq<char>)
    ensures
        escaped(head + tail) == escaped(head) + escaped(tail),
    decreases tail.len(),
{
    if tail.len() == 0 {
        assert(head + tail =~= head);
        assert(escaped(head) + escaped(tail) =~= escaped(head));
    } else {
        assert((head + tail).drop_last() =~= head + tail.drop_last());
        assert((head + tail).last() == tail.last());
        lemma_escaped_parts(head, tail.drop_last());
        assert(escaped(head + tail) =~= escaped(head) + escaped(tail));
    }
}

/// Whether `part` stands in `text`.
pub open spec fn has_part(text: Seq<char>, part: Seq<char>) -> bool {
    exists|k: int|
        0 <= k <= text.len() - part.len() && #[trigger] text.subrange(k, k + part.len()) == part
}

/// The unit file runs the program with the configuration, in the working folder, whatever their
/// paths are. Each stands there as a path does in a unit file.
pub proof fn law_unit_runs_the_program(
    exe: Seq<char>,
    config_path: Seq<char>,
    working_dir: Seq<char>,
)
    ensures
        has_part(
            unit_text(exe, config_path, working_dir),
            "\nExecStart="@ + quoted(exe) + " run "@ + quoted(config_path) + "\n"@,
        ),
        has_part(
            unit_text(exe, config_path, working_dir),
            "\nWorkingDirectory="@ + quoted(working_dir) + "\n"@,
        ),
{
    let text = unit_text(exe, config_path, working_dir);
    reveal_strlit("\nExecStart=");
    reveal_strlit("\nWorkingDirectory=");
    reveal_strlit("\n");
    reveal_strlit(
        "[Unit]\nDescription=Ever Elect validator elections\n\n[Service]\nType=simple\nWorkingDirectory=",
    );
    reveal_strlit(
        "\nRestart=always\nRestartSec=10\nKillSignal=SIGTERM\nTimeoutStopSec=30\n\n[Install]\nWantedBy=default.target\n",
    );
    let head =
        "[Unit]\nDescription=Ever Elect validator elections\n\n[Service]\nType=simple\nWorkingDirectory="@;
    let run = "\nExecStart="@ + quoted(exe) + " run "@ + quoted(config_path) + "\n"@;
    let from = (head + quoted(working_dir)).len() as int;
    assert(text.subrange(from, from + run.len()) =~= run);
    let place = "\nWorkingDirectory="@ + quoted(working_dir) + "\n"@;
    let at = (head.len() - "\nWorkingDirectory="@.len()) as int;
    assert(text.subrange(at, at + place.len()) =~= place);
}

} // verus!
