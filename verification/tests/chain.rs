use repakstrap::{get_error_chain, join_error_chain};

#[test]
fn a_single_error_is_its_own_chain() {
    let err = anyhow::Error::msg("could not find download url");
    assert_eq!(get_error_chain(&err), "could not find download url");
}

#[test]
fn the_root_cause_comes_first() {
    let err = anyhow::Error::msg("connection refused")
        .context("tried to reach the release host")
        .context("update check");
    assert_eq!(
        get_error_chain(&err),
        "connection refused => tried to reach the release host => update check"
    );
}

#[test]
fn joining_reverses_the_messages() {
    let messages = vec![
        String::from("outer"),
        String::from("middle"),
        String::from("inner"),
    ];
    assert_eq!(join_error_chain(&messages), "inner => middle => outer");
}

#[test]
fn joining_nothing_gives_nothing() {
    assert_eq!(join_error_chain(&Vec::new()), "");
    assert_eq!(join_error_chain(&vec![String::from("only")]), "only");
}

#[test]
fn empty_messages_keep_their_place() {
    let messages = vec![String::new(), String::from("cause")];
    assert_eq!(join_error_chain(&messages), "cause => ");
}
