use orcs::version::{Version, VersionError};

#[test]
fn parse_plain_versions() {
    assert_eq!(Version::parse("1.2.3"), Ok(Version::new(1, 2, 3)));
    assert_eq!(Version::parse("0.0.0"), Ok(Version::new(0, 0, 0)));
}

#[test]
fn parse_refuses_invalid_and_prerelease() {
    assert_eq!(Version::parse("1.2"), Err(VersionError::Invalid));
    assert_eq!(Version::parse("abc"), Err(VersionError::Invalid));
    assert_eq!(Version::parse("1.0.0-alpha"), Err(VersionError::NotPlain));
    assert_eq!(Version::parse("1.0.0+build5"), Err(VersionError::NotPlain));
}

#[test]
fn text_round_trip() {
    let v = Version::new(10, 0, 42);
    assert_eq!(v.to_text(), "10.0.42");
    assert_eq!(Version::parse(&v.to_text()), Ok(v));
}

#[test]
fn precedence_is_lexicographic() {
    let a = Version::new(1, 9, 9);
    let b = Version::new(2, 0, 0);
    assert!(a.precedes(&b));
    assert!(!b.precedes(&a));
    assert!(Version::new(1, 1, 0).precedes(&Version::new(1, 1, 1)));
    assert!(!a.precedes(&a));
}

#[test]
fn plain_text_reads_back_as_its_version() {
    for v in [Version { major: 1, minor: 0, patch: 0 }, Version { major: 0, minor: 12, patch: 305 }] {
        assert_eq!(Version::parse(&v.to_text()), Ok(v));
    }
    assert_eq!(Version::parse("1.0.0"), Ok(Version { major: 1, minor: 0, patch: 0 }));
}
