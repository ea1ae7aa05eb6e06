use hwi::address::{AddressScript, DerivationPath, HARDENED};
use hwi::error::Error;
use hwi::keys::Fingerprint;
use hwi::kind::DeviceKind;
use hwi::psbt::{Psbt, PsbtInput};
use hwi::interface::HWI;
use hwi::simulator::SimulatedDevice;
use hwi::version::Version;

fn simulator() -> SimulatedDevice {
    SimulatedDevice::new(
        DeviceKind::SpecterSimulator,
        Version::new(1, 0, 0),
        Fingerprint::new([0xde, 0xad, 0xbe, 0xef]),
    )
}

fn taproot_path() -> DerivationPath {
    DerivationPath::new(vec![86 + HARDENED, HARDENED, HARDENED, 0, 7])
}

const POLICY: &str = "wsh(or_d(pk(A),and_v(v:pkh(B),older(52560))))";

#[test]
fn device_kind_is_bound_at_construction() {
    let d = simulator();
    assert_eq!(d.device_kind(), DeviceKind::SpecterSimulator);
    assert_eq!(d.io_call_count(), 0);
}

#[test]
fn get_version_reports_the_configured_version() {
    let mut d = simulator();
    assert_eq!(d.get_version(), Ok(Version::new(1, 0, 0)));
    assert_eq!(d.io_call_count(), 1);
}

#[test]
fn get_master_fingerprint_requires_a_seed() {
    let mut d = simulator();
    assert_eq!(
        d.get_master_fingerprint(),
        Ok(Fingerprint::new([0xde, 0xad, 0xbe, 0xef]))
    );
    d.set_has_seed(false);
    assert_eq!(d.get_master_fingerprint(), Err(Error::UnsupportedInput));
}

#[test]
fn get_extended_pubkey_returns_the_requested_derivation() {
    let mut d = simulator();
    let path = taproot_path();
    let xpub = d.get_extended_pubkey(&path, false).unwrap();
    assert_eq!(xpub.master, Fingerprint::new([0xde, 0xad, 0xbe, 0xef]));
    assert_eq!(xpub.path, taproot_path());
}

#[test]
fn get_extended_pubkey_rejects_malformed_paths() {
    let mut d = simulator();
    // Wrong purpose marker.
    let legacy = DerivationPath::new(vec![44 + HARDENED, HARDENED, HARDENED, 0, 7]);
    assert_eq!(d.get_extended_pubkey(&legacy, false), Err(Error::UnsupportedInput));
    // Too few steps.
    let short = DerivationPath::new(vec![86 + HARDENED, HARDENED, HARDENED]);
    assert_eq!(d.get_extended_pubkey(&short, false), Err(Error::UnsupportedInput));
    // Hardened index step.
    let hardened_index = DerivationPath::new(vec![
        86 + HARDENED,
        HARDENED,
        HARDENED,
        0,
        7 + HARDENED,
    ]);
    assert_eq!(
        d.get_extended_pubkey(&hardened_index, false),
        Err(Error::UnsupportedInput)
    );
    // Change step out of range.
    let bad_change = DerivationPath::new(vec![86 + HARDENED, HARDENED, HARDENED, 2, 7]);
    assert_eq!(d.get_extended_pubkey(&bad_change, false), Err(Error::UnsupportedInput));
}

#[test]
fn register_wallet_is_idempotent() {
    let mut d = simulator();
    let first = d.register_wallet("w", POLICY).unwrap();
    let second = d.register_wallet("w", POLICY).unwrap();
    assert!(first.is_some());
    assert_eq!(first, second);
    assert_eq!(d.registration_count(), 1);
}

#[test]
fn register_wallet_distinguishes_policies() {
    let mut d = simulator();
    let first = d.register_wallet("w", POLICY).unwrap();
    let other = d.register_wallet("w", "tr(C)").unwrap();
    assert!(first.is_some());
    assert!(other.is_some());
    assert_ne!(first, other);
    assert_eq!(d.registration_count(), 2);
}

#[test]
fn register_wallet_without_identifiers_still_registers() {
    let mut d = simulator();
    d.set_returns_policy_ids(false);
    assert_eq!(d.register_wallet("w", POLICY), Ok(None));
    assert_eq!(d.registration_count(), 1);
}

#[test]
fn register_wallet_needs_policy_support() {
    let mut d = simulator();
    d.set_supports_policies(false);
    assert_eq!(d.register_wallet("w", POLICY), Err(Error::UnsupportedVersion));
    assert_eq!(d.registration_count(), 0);
}

#[test]
fn register_wallet_rejects_ill_formed_descriptors() {
    let mut d = simulator();
    assert!(matches!(
        d.register_wallet("w", "wsh(pk(A)"),
        Err(Error::ParsingPolicy(_))
    ));
    assert!(matches!(d.register_wallet("w", ""), Err(Error::ParsingPolicy(_))));
    assert!(matches!(
        d.register_wallet("w", "wsh)pk(A)("),
        Err(Error::ParsingPolicy(_))
    ));
    assert_eq!(d.registration_count(), 0);
}

#[test]
fn display_address_needs_a_registered_policy() {
    let mut d = simulator();
    let script = AddressScript::Miniscript { index: 0, change: false };
    assert_eq!(d.display_address(&script), Err(Error::MissingPolicy));
    d.register_wallet("w", POLICY).unwrap();
    assert_eq!(d.display_address(&script), Ok(()));
}

#[test]
fn display_address_checks_taproot_path_shape() {
    let mut d = simulator();
    assert_eq!(d.display_address(&AddressScript::P2TR(taproot_path())), Ok(()));
    let legacy = DerivationPath::new(vec![44 + HARDENED, HARDENED, HARDENED, 0, 7]);
    assert_eq!(
        d.display_address(&AddressScript::P2TR(legacy)),
        Err(Error::UnsupportedInput)
    );
}

#[test]
fn sign_tx_attaches_one_signature_per_input() {
    let mut d = simulator();
    let mut tx = Psbt::new(vec![
        PsbtInput { has_derivation: true, signature_count: 0 },
        PsbtInput { has_derivation: true, signature_count: 2 },
    ]);
    assert_eq!(d.sign_tx(&mut tx), Ok(()));
    assert_eq!(tx.inputs[0].signature_count, 1);
    assert_eq!(tx.inputs[1].signature_count, 3);
}

#[test]
fn sign_tx_rejection_leaves_no_signature_behind() {
    let mut d = simulator();
    d.set_approves_signing(false);
    let mut tx = Psbt::new(vec![
        PsbtInput { has_derivation: true, signature_count: 0 },
        PsbtInput { has_derivation: true, signature_count: 0 },
    ]);
    assert_eq!(d.sign_tx(&mut tx), Err(Error::DeviceDidNotSign));
    assert_eq!(tx.inputs[0].signature_count, 0);
    assert_eq!(tx.inputs[1].signature_count, 0);
}

#[test]
fn sign_tx_rejects_inputs_without_derivation_metadata() {
    let mut d = simulator();
    let mut tx = Psbt::new(vec![
        PsbtInput { has_derivation: true, signature_count: 0 },
        PsbtInput { has_derivation: false, signature_count: 0 },
    ]);
    assert_eq!(d.sign_tx(&mut tx), Err(Error::UnsupportedInput));
    assert_eq!(tx.inputs[0].signature_count, 0);
    assert_eq!(tx.inputs[1].signature_count, 0);
}

#[test]
fn disconnect_is_absorbing_and_stops_io() {
    let mut d = simulator();
    assert_eq!(d.is_connected(), Ok(()));
    assert_eq!(d.get_version(), Ok(Version::new(1, 0, 0)));
    let io_before = d.io_call_count();
    assert_eq!(io_before, 2);
    d.disconnect();
    assert_eq!(d.is_connected(), Err(Error::DeviceDisconnected));
    assert_eq!(d.get_version(), Err(Error::DeviceDisconnected));
    assert_eq!(d.get_master_fingerprint(), Err(Error::DeviceDisconnected));
    assert_eq!(
        d.get_extended_pubkey(&taproot_path(), false),
        Err(Error::DeviceDisconnected)
    );
    assert_eq!(d.register_wallet("w", POLICY), Err(Error::DeviceDisconnected));
    let script = AddressScript::Miniscript { index: 0, change: false };
    assert_eq!(d.display_address(&script), Err(Error::DeviceDisconnected));
    let mut tx = Psbt::new(vec![PsbtInput { has_derivation: true, signature_count: 0 }]);
    assert_eq!(d.sign_tx(&mut tx), Err(Error::DeviceDisconnected));
    assert_eq!(tx.inputs[0].signature_count, 0);
    // No I/O was attempted after the disconnect event.
    assert_eq!(d.io_call_count(), io_before);
    // The kind is still known without I/O.
    assert_eq!(d.device_kind(), DeviceKind::SpecterSimulator);
}

#[test]
fn calls_dispatch_through_the_interface() {
    let mut handle: Box<dyn HWI> = Box::new(simulator());
    assert_eq!(handle.device_kind(), DeviceKind::SpecterSimulator);
    assert_eq!(handle.is_connected(), Ok(()));
    assert_eq!(handle.register_wallet("w", POLICY).map(|id| id.is_some()), Ok(true));
    assert_eq!(
        handle.display_address(&AddressScript::Miniscript { index: 0, change: false }),
        Ok(())
    );
}
