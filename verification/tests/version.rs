use repakstrap::{Precedence, SemanticVersion};

#[test]
fn parse_reads_the_three_numbers() {
    let v = SemanticVersion::parse("1.4.0").unwrap();
    assert_eq!(v, SemanticVersion::new(1, 4, 0));
}

#[test]
fn parse_keeps_the_identifiers() {
    let v = SemanticVersion::parse("1.2.3-rc.1+build.7").unwrap();
    assert_eq!((v.major, v.minor, v.patch), (1, 2, 3));
    assert_eq!(v.pre, "rc.1");
    assert_eq!(v.build, "build.7");
    assert_eq!(v.to_text(), "1.2.3-rc.1+build.7");
}

#[test]
fn parse_rejects_what_is_no_version() {
    assert!(SemanticVersion::parse("").is_err());
    assert!(SemanticVersion::parse("v1.4.0").is_err());
    assert!(SemanticVersion::parse("1.4").is_err());
    assert!(SemanticVersion::parse("1.q.r").is_err());
}

#[test]
fn numbers_order_before_identifiers() {
    let a = SemanticVersion::parse("1.5.0").unwrap();
    let b = SemanticVersion::parse("1.19.0").unwrap();
    assert_eq!(a.precedence(&b), Some(Precedence::Lower));
    assert_eq!(b.precedence(&a), Some(Precedence::Higher));
    assert_eq!(a.precedence(&a), Some(Precedence::Same));
    assert!(b.is_newer_than(&a));
    assert!(!a.is_newer_than(&b));
    assert!(!a.is_newer_than(&a));
}

#[test]
fn a_prerelease_is_older_than_its_release() {
    let pre = SemanticVersion::parse("1.0.0-alpha.1").unwrap();
    let rel = SemanticVersion::parse("1.0.0").unwrap();
    assert_eq!(pre.precedence(&rel), Some(Precedence::Lower));
    assert_eq!(rel.precedence(&pre), Some(Precedence::Higher));
    let older = SemanticVersion::parse("1.0.0-pre.8").unwrap();
    let newer = SemanticVersion::parse("1.0.0-pre.12").unwrap();
    assert_eq!(older.precedence(&newer), Some(Precedence::Lower));
}

#[test]
fn build_metadata_breaks_the_last_tie() {
    let a = SemanticVersion::parse("1.0.0+2").unwrap();
    let b = SemanticVersion::parse("1.0.0+10").unwrap();
    assert_eq!(a.precedence(&b), Some(Precedence::Lower));
    assert_eq!(b.precedence(&a), Some(Precedence::Higher));
}

#[test]
fn an_identifier_that_is_none_has_no_order() {
    let good = SemanticVersion::new(1, 0, 0);
    let mut bad = SemanticVersion::new(1, 0, 0);
    bad.pre = String::from("not valid!");
    assert_eq!(good.precedence(&bad), None);
    assert!(!bad.is_newer_than(&good));
    let other = SemanticVersion::new(2, 0, 0);
    assert_eq!(other.precedence(&bad), Some(Precedence::Higher));
}

#[test]
fn text_of_a_plain_release() {
    assert_eq!(SemanticVersion::new(0, 0, 0).to_text(), "0.0.0");
    assert_eq!(SemanticVersion::new(10, 200, 3).to_text(), "10.200.3");
    assert_eq!(
        SemanticVersion::new(u64::MAX, 0, 1).to_text(),
        "18446744073709551615.0.1"
    );
}
