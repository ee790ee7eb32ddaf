use simpled::version::{AppVersion, VersionRange};

#[test]
fn versions_are_read_as_semver_reads_them() {
    for text in ["0.0.0", "1.2.3", "10.20.30", "1.0.0-alpha.1", "1.0.0+build.5", "2.0.0-rc.1+x-y"] {
        let version = AppVersion::parse(text).unwrap();
        assert_eq!(version.as_str(), text);
        assert_eq!(version.to_string(), text);
        assert_eq!(version.clone(), version);
    }
    for text in ["", "1", "1.2", "1.2.3.4", "01.2.3", "v1.2.3", " 1.2.3", "1.2.3 ", "1.2.x", "1.2.3-", "a.b.c"] {
        assert!(AppVersion::parse(text).is_none(), "{:?}", text);
    }
}

#[test]
fn ranges_are_read_as_semver_reads_them() {
    for text in ["*", "1", "1.2", "^1.2.3", "~1.2", ">=1.0, <2.0", "=1.2.3", " >1", "1.x"] {
        let range = VersionRange::parse(text).unwrap();
        assert_eq!(range.as_str(), text);
        assert_eq!(range.clone(), range);
    }
    for text in ["", ">=1.0 <2.0", "@1.0.0", "^1.0.0, ", "*.*", "abc"] {
        assert!(VersionRange::parse(text).is_none(), "{:?}", text);
    }
}

#[test]
fn ranges_match_versions_as_semver_matches_them() {
    let matches = |range: &str, version: &str| {
        VersionRange::parse(range).unwrap().matches(&AppVersion::parse(version).unwrap())
    };
    assert!(matches("^1.2.3", "1.2.3"));
    assert!(matches("^1.2.3", "1.9.0"));
    assert!(!matches("^1.2.3", "2.0.0"));
    assert!(!matches("^1.2.3", "1.2.2"));
    assert!(matches("~1.2", "1.2.9"));
    assert!(!matches("~1.2", "1.3.0"));
    assert!(matches(">=1.0, <2.0", "1.5.0"));
    assert!(!matches(">=1.0, <2.0", "2.0.0"));
    assert!(matches("*", "0.0.1"));
    // A range without a pre-release part matches no pre-release.
    assert!(!matches("*", "1.0.0-alpha"));
    assert!(matches(">=1.0.0-alpha", "1.0.0-beta"));
    // Build metadata does not count.
    assert!(matches("=1.2.3", "1.2.3+build"));
}
