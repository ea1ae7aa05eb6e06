use hwi::error::Error;
use hwi::kind::DeviceKind;
use hwi::version::Version;

#[test]
fn kind_codes_are_stable() {
    assert_eq!(DeviceKind::Specter.code(), "specter");
    assert_eq!(DeviceKind::SpecterSimulator.code(), "specter-simulator");
    assert_eq!(DeviceKind::Ledger.code(), "ledger");
    assert_eq!(DeviceKind::LedgerSimulator.code(), "ledger-simulator");
    assert_eq!(DeviceKind::BitBox02.code(), "bitbox02");
    assert_eq!(DeviceKind::BitBox02Simulator.code(), "bitbox02-simulator");
}

#[test]
fn kind_code_round_trips() {
    let kinds = vec![
        DeviceKind::Specter,
        DeviceKind::SpecterSimulator,
        DeviceKind::Ledger,
        DeviceKind::LedgerSimulator,
        DeviceKind::BitBox02,
        DeviceKind::BitBox02Simulator,
    ];
    for kind in kinds {
        let code = kind.code();
        assert_eq!(DeviceKind::parse(code.as_str()), Some(kind));
    }
}

#[test]
fn kind_parse_rejects_unknown_codes() {
    assert_eq!(DeviceKind::parse("unknown-code"), None);
    assert_eq!(DeviceKind::parse(""), None);
    assert_eq!(DeviceKind::parse("Specter"), None);
    assert_eq!(DeviceKind::parse("ledger "), None);
    assert_eq!(DeviceKind::parse("bitbox"), None);
}

#[test]
fn version_without_prerelease_displays_three_numbers() {
    assert_eq!(Version::new(1, 2, 3).to_string(), "1.2.3");
    assert_eq!(Version::new(0, 0, 0).to_string(), "0.0.0");
    assert_eq!(Version::new(10, 204, 3009).to_string(), "10.204.3009");
    assert_eq!(
        Version::new(4294967295, 0, 7).to_string(),
        "4294967295.0.7"
    );
}

#[test]
fn version_with_prerelease_appends_tag() {
    let v = Version { major: 1, minor: 2, patch: 3, prerelease: Some("rc1".to_string()) };
    assert_eq!(v.to_string(), "1.2.3-rc1");
    let w = Version { major: 2, minor: 0, patch: 0, prerelease: Some("beta".to_string()) };
    assert_eq!(w.to_string(), "2.0.0-beta");
}

#[test]
fn error_messages_are_exact() {
    assert_eq!(Error::UnsupportedInput.message(), "Unsupported input");
    assert_eq!(Error::UnimplementedMethod.message(), "Unimplemented method");
    assert_eq!(Error::DeviceDisconnected.message(), "Device disconnected");
    assert_eq!(Error::DeviceNotFound.message(), "Device not found");
    assert_eq!(Error::DeviceDidNotSign.message(), "Device did not sign");
    assert_eq!(Error::Device("backend said no".to_string()).message(), "backend said no");
    assert_eq!(
        Error::ParsingPolicy("bad nesting".to_string()).message(),
        "Parsing policy: bad nesting"
    );
    assert_eq!(Error::MissingPolicy.message(), "Missing policy");
    assert_eq!(Error::UnsupportedVersion.message(), "Unsupported version");
    assert_eq!(
        Error::InvalidParameter("path".to_string(), "too short".to_string()).message(),
        "path: too short"
    );
}
