use crately::crate_specifier::{CrateSpecifier, CrateSpecifierError, Version};
use std::str::FromStr;

#[test]
fn test_crate_specifier_from_str_valid() {
    let spec = CrateSpecifier::from_str("serde@1.0.0").unwrap();
    assert_eq!(spec.name(), "serde");
    assert_eq!(spec.version(), &Version::parse("1.0.0").unwrap());
    assert_eq!(spec.to_text(), "serde@1.0.0");

    let spec = CrateSpecifier::from_str("tokio-util@0.7.10").unwrap();
    assert_eq!(spec.name(), "tokio-util");
    assert_eq!(spec.version(), &Version::parse("0.7.10").unwrap());
}

#[test]
fn test_crate_specifier_from_str_invalid() {
    assert!(CrateSpecifier::from_str("serde").is_err());
    assert!(CrateSpecifier::from_str("serde@invalid").is_err());
    assert!(CrateSpecifier::from_str("123invalid@1.0.0").is_err());
    assert!(CrateSpecifier::from_str("@1.0.0").is_err());
    let result = CrateSpecifier::from_str("crate@1.0.0@extra");
    assert!(result.is_err());
}

#[test]
fn test_crate_specifier_clone_and_equality() {
    let spec1 = CrateSpecifier::from_str("serde@1.0.0").unwrap();
    let spec2 = spec1.clone();
    assert_eq!(spec1, spec2);

    let spec3 = CrateSpecifier::from_str("serde@1.0.1").unwrap();
    assert_ne!(spec1, spec3);
}

#[test]
fn test_crate_specifier_display() {
    let spec = CrateSpecifier::from_str("my-crate@2.1.3").unwrap();
    assert_eq!(spec.to_text(), "my-crate@2.1.3");
}

#[test]
fn test_crate_specifier_error_messages() {
    let err = CrateSpecifier::from_str("serde").unwrap_err();
    let msg = err.message();
    assert!(msg.contains("Missing version"));
    assert!(msg.contains("name@version"));

    let err = CrateSpecifier::from_str("@1.0.0").unwrap_err();
    let msg = err.message();
    assert!(msg.contains("Invalid crate name"));
}

#[test]
fn test_valid_crate_names() {
    assert!(CrateSpecifier::from_str("serde@1.0.0").is_ok());
    assert!(CrateSpecifier::from_str("serde_json@1.0.0").is_ok());
    assert!(CrateSpecifier::from_str("tokio-util@0.7.0").is_ok());
    assert!(CrateSpecifier::from_str("my_crate123@1.0.0").is_ok());
}

#[test]
fn test_invalid_crate_names() {
    assert!(CrateSpecifier::from_str("@1.0.0").is_err());
    assert!(CrateSpecifier::from_str("123crate@1.0.0").is_err());
    assert!(CrateSpecifier::from_str("-crate@1.0.0").is_err());
    assert!(CrateSpecifier::from_str("crate name@1.0.0").is_err());
}

#[test]
fn missing_version_message_is_exact() {
    let err = CrateSpecifier::parse("serde").unwrap_err();
    assert_eq!(
        err,
        CrateSpecifierError::MissingVersion("serde".to_string())
    );
    assert_eq!(
        err.message(),
        "Missing version in specifier: 'serde'. Expected format: 'name@version'"
    );
}

#[test]
fn version_text_includes_pre_release_and_build() {
    let v = Version::parse("1.2.3-rc.1+build.5").unwrap();
    assert_eq!(v.major(), 1);
    assert_eq!(v.minor(), 2);
    assert_eq!(v.patch(), 3);
    assert_eq!(v.to_text(), "1.2.3-rc.1+build.5");
}

#[test]
fn from_parts_validates_both_parts() {
    let ok = CrateSpecifier::from_parts("tokio".to_string(), "1.35.0").unwrap();
    assert_eq!(ok.to_text(), "tokio@1.35.0");
    assert!(matches!(
        CrateSpecifier::from_parts("tokio".to_string(), "one"),
        Err(CrateSpecifierError::InvalidVersion(_))
    ));
    assert!(matches!(
        CrateSpecifier::from_parts("9tokio".to_string(), "1.0.0"),
        Err(CrateSpecifierError::InvalidCrateName(_))
    ));
}

#[test]
fn duplicate_is_equal() {
    let spec = CrateSpecifier::parse("axum@0.7.0").unwrap();
    assert!(spec.same_as(&spec.duplicate()));
}

#[test]
fn printed_specifier_parses_back_to_itself() {
    for text in ["my-crate@2.1.3", "tokio@1.0.0-rc.1", "serde_json@1.0.0+build.7", "a@0.0.1-alpha.2+x"] {
        let c = CrateSpecifier::from_str(text).unwrap();
        let printed = c.to_text();
        assert_eq!(printed, format!("{}@{}", c.name(), c.version().to_text()));
        assert_eq!(printed, text);
        assert_eq!(CrateSpecifier::from_str(&printed).unwrap(), c);
    }
}

#[test]
fn plain_names_are_accepted() {
    for name in ["tokio", "serde_json", "_private", "Tokio-Util2"] {
        let c = CrateSpecifier::new(name.to_string(), Version::parse("1.0.0").unwrap()).unwrap();
        assert_eq!(c.name(), name);
    }
}

#[test]
fn names_starting_with_other_ascii_are_refused() {
    for name in ["-abc", "1abc", ".x", ""] {
        assert!(CrateSpecifier::new(name.to_string(), Version::parse("1.0.0").unwrap()).is_err());
    }
}
