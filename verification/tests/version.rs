use unvoid::version::{ParseError, Version};

#[test]
fn test_version_new() {
    let version = Version::new(1, 2, 3);

    assert_eq!(
        version,
        Version {
            major: 1,
            minor: 2,
            patch: 3,
        }
    );
}

#[test]
fn test_version_parse_simple() {
    let version = Version::parse("3.2.1").unwrap();

    assert_eq!(
        version,
        Version {
            major: 3,
            minor: 2,
            patch: 1,
        }
    );
}

#[test]
fn parse_plain_version() {
    assert_eq!(Version::parse("0.1.0").unwrap(), Version::new(0, 1, 0));
}

#[test]
fn parse_discards_pre_release_and_build_suffix() {
    assert_eq!(
        Version::parse("1.2.3-rc.1+build.5").unwrap(),
        Version::new(1, 2, 3)
    );
}

#[test]
fn parse_rejects_malformed_text() {
    assert_eq!(Version::parse("not-a-version"), Err(ParseError::Malformed));
    assert_eq!(Version::parse(""), Err(ParseError::Malformed));
    assert_eq!(Version::parse("1.2"), Err(ParseError::Malformed));
}

#[test]
fn getters_and_setters_cover_all_three_components() {
    let mut version = Version::new(1, 2, 3);
    assert_eq!(version.get_major(), 1);
    assert_eq!(version.get_minor(), 2);
    assert_eq!(version.get_patch(), 3);

    version.set_major(7);
    version.set_minor(8);
    version.set_patch(9);
    assert_eq!(version, Version::new(7, 8, 9));
}
