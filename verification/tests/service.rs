use ever_elect::service::{service_unit, systemd_quote};

#[test]
fn plain_paths_stay() {
    assert_eq!(systemd_quote("/usr/bin/ever-elect"), "/usr/bin/ever-elect");
    assert_eq!(systemd_quote(""), "");
}

#[test]
fn special_paths_are_quoted() {
    assert_eq!(systemd_quote("/my dir/x"), "\"/my dir/x\"");
    assert_eq!(systemd_quote("a\tb"), "\"a\tb\"");
    assert_eq!(systemd_quote("a\"b"), "\"a\\\"b\"");
    assert_eq!(systemd_quote("a\\b"), "\"a\\\\b\"");
    assert_eq!(systemd_quote("\\\" "), "\"\\\\\\\" \"");
}

#[test]
fn different_paths_stay_different() {
    let paths = ["a b", "a\\ b", "\"a b\"", "a\\\" b", "a b\"", "ab"];
    for x in paths {
        for y in paths {
            assert_eq!(systemd_quote(x) == systemd_quote(y), x == y);
        }
    }
}

#[test]
fn unit_runs_the_configuration() {
    let expected = "[Unit]\n\
        Description=Ever Elect validator elections\n\
        \n\
        [Service]\n\
        Type=simple\n\
        WorkingDirectory=/srv\n\
        ExecStart=\"/opt/my bin/ever-elect\" run /etc/ever-elect.json\n\
        Restart=always\n\
        RestartSec=10\n\
        KillSignal=SIGTERM\n\
        TimeoutStopSec=30\n\
        \n\
        [Install]\n\
        WantedBy=default.target\n";
    assert_eq!(
        service_unit("/opt/my bin/ever-elect", "/etc/ever-elect.json", "/srv"),
        expected
    );
}
