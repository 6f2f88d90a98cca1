use daml::version::{LanguageV2MinorVersion, LanguageVersion};

#[test]
fn minor_version_ordering() {
    assert!(LanguageV2MinorVersion::V1 < LanguageV2MinorVersion::Dev);
}

#[test]
fn version_matches() {
    assert_eq!(LanguageVersion::V2_1(), LanguageVersion::Lv2(LanguageV2MinorVersion::V1));
    assert_ne!(LanguageVersion::V2_1(), LanguageVersion::V2_DEV());
}

#[test]
fn display_version() {
    assert_eq!("v2.1", LanguageVersion::V2_1().to_string());
    assert_eq!("v2.dev", LanguageVersion::V2_DEV().to_string());
}

#[test]
fn minor_version_text_and_parse() {
    assert_eq!("1", LanguageV2MinorVersion::V1.to_string());
    assert_eq!("dev", LanguageV2MinorVersion::Dev.to_string());
    assert_eq!(LanguageV2MinorVersion::V1, LanguageV2MinorVersion::try_from("1").unwrap());
    assert_eq!(LanguageV2MinorVersion::Dev, LanguageV2MinorVersion::try_from("dev").unwrap());
    assert!(LanguageV2MinorVersion::try_from("2").is_err());
    assert_eq!(LanguageVersion::new_v2(LanguageV2MinorVersion::Dev), LanguageVersion::V2_DEV());
}

#[test]
fn versions_follow_release_order() {
    assert!(LanguageV2MinorVersion::V1 < LanguageV2MinorVersion::Dev);
    assert!(LanguageVersion::new_v2(LanguageV2MinorVersion::V1) < LanguageVersion::new_v2(LanguageV2MinorVersion::Dev));
    assert!(LanguageVersion::V2_DEV() > LanguageVersion::V2_1());
    assert!(LanguageVersion::V2_1() <= LanguageVersion::V2_1());
    assert_eq!(
        LanguageVersion::V2_1().partial_cmp(&LanguageVersion::V2_DEV()),
        Some(std::cmp::Ordering::Less)
    );
}
