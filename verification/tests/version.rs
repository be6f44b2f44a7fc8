use spaghetti::version::{EngineVersion, Version, VersionParser};

#[test]
fn parse_known_versions() {
    assert_eq!(VersionParser::parse("5.1"), Some(Version(EngineVersion::VER_UE5_1)));
    assert_eq!(VersionParser::parse("4.27"), Some(Version(EngineVersion::VER_UE4_27)));
    assert_eq!(VersionParser::parse("unknown"), Some(Version(EngineVersion::UNKNOWN)));
    assert_eq!(VersionParser::parse("oldest"), Some(Version(EngineVersion::VER_UE4_OLDEST_LOADABLE_PACKAGE)));
}

#[test]
fn parse_trims_white_space() {
    assert_eq!(VersionParser::parse("  5.0\n"), Some(Version(EngineVersion::VER_UE5_0)));
    assert_eq!(VersionParser::parse("\t4.1 "), Some(Version(EngineVersion::VER_UE4_1)));
}

#[test]
fn parse_rejects_unknown_names() {
    assert_eq!(VersionParser::parse("6.0"), None);
    assert_eq!(VersionParser::parse(""), None);
    assert_eq!(VersionParser::parse("5.1.0"), None);
    assert_eq!(VersionParser::parse("4.2 7"), None);
}
