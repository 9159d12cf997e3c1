use rainy::toolchain::{ParseError, Toolchain};

fn parse(s: &str) -> Result<Toolchain, ParseError> {
    Toolchain::from_str(s)
}

#[test]
fn parses_master() {
    assert_eq!(parse("master"), Ok(Toolchain::Master));
}

#[test]
fn displays_master() {
    assert_eq!(Toolchain::Master.display(), "master");
}

#[test]
fn parses_version() {
    assert_eq!(
        parse("1.2.3"),
        Ok(Toolchain::Version { major: 1, minor: 2, patch: 3 })
    );
    assert_eq!(
        parse("0.0.0"),
        Ok(Toolchain::Version { major: 0, minor: 0, patch: 0 })
    );
    assert_eq!(
        parse("10.200.3000"),
        Ok(Toolchain::Version { major: 10, minor: 200, patch: 3000 })
    );
}

#[test]
fn parses_leading_zeros() {
    assert_eq!(
        parse("007.0.1"),
        Ok(Toolchain::Version { major: 7, minor: 0, patch: 1 })
    );
}

#[test]
fn displays_version() {
    let t = Toolchain::Version { major: 1, minor: 2, patch: 3 };
    assert_eq!(t.display(), "1.2.3");
    let t = Toolchain::Version { major: 0, minor: 10, patch: 305 };
    assert_eq!(t.display(), "0.10.305");
}

#[test]
fn round_trips_canonical_versions() {
    for s in ["0.0.0", "1.2.3", "10.20.30", "123.0.4567", "18446744073709551615.0.1"] {
        let t = parse(s).unwrap();
        assert_eq!(t.display(), s);
    }
}

#[test]
fn round_trips_master() {
    assert_eq!(parse("master").unwrap().display(), "master");
}

fn assert_rejected(s: &str) {
    match parse(s) {
        Err(ParseError::InvalidToolchain { s: t }) => assert_eq!(t, s),
        other => panic!("expected rejection of {:?}, got {:?}", s, other),
    }
}

#[test]
fn rejects_wrong_segment_count() {
    assert_rejected("1.2");
    assert_rejected("1.2.3.4");
    assert_rejected("1");
    assert_rejected("");
}

#[test]
fn rejects_non_numeric_segments() {
    assert_rejected("1.a.3");
    assert_rejected("a.b.c");
    assert_rejected("1..3");
    assert_rejected(".");
    assert_rejected("..");
    assert_rejected("1.2.");
    assert_rejected(".2.3");
    assert_rejected("+1.2.3");
    assert_rejected("1.2.3 ");
}

#[test]
fn rejects_near_master() {
    assert_rejected("Master");
    assert_rejected("master ");
    assert_rejected("masterx");
    assert_rejected("maste");
}

#[test]
fn rejects_overflowing_segment() {
    // one above usize::MAX on a 64-bit machine
    assert_rejected("18446744073709551616.0.0");
    assert_rejected("0.0.99999999999999999999999999");
}
