//! The unified capability surface every backend implements.
//!
//! Client code obtains an already-identified device handle from an external
//! discovery layer, upcasts it to this interface, and issues one capability
//! call at a time. A handle is bound to exactly one physical or simulated
//! device for its lifetime; callers serialize calls against one handle.
//! Every call either fully succeeds or fails with exactly one kind of the
//! error taxonomy.

use vstd::prelude::*;

use crate::address::AddressScript;
use crate::address::DerivationPath;
use crate::error::Error;
use crate::keys::ExtendedPubKey;
use crate::keys::Fingerprint;
use crate::kind::DeviceKind;
use crate::psbt::Psbt;
use crate::version::Version;

verus! {

/// HWI is the common hardware wallet interface.
///
/// Once the physical or session link of a handle is lost, the handle is
/// disconnected for good: every later call must fail with
/// `Error::DeviceDisconnected` without attempting device I/O.
pub trait HWI: core::fmt::Debug {
    /// The kind of device this handle is bound to; never performs I/O.
    fn device_kind(&self) -> DeviceKind;

    /// Checks that the device is connected, but not necessarily available.
    fn is_connected(&mut self) -> Result<(), Error>;

    /// Queries the backend application or firmware version.
    fn get_version(&mut self) -> Result<Version, Error>;

    /// The fingerprint of the device's master key; requires the device to
    /// hold an initialized seed.
    fn get_master_fingerprint(&mut self) -> Result<Fingerprint, Error>;

    /// Derives, on the device, the extended public key at `path`,
    /// optionally showing it on the device screen.
    fn get_extended_pubkey(&mut self, path: &DerivationPath, display: bool) -> Result<
        ExtendedPubKey,
        Error,
    >;

    /// Teaches the device a named spending policy descriptor; backends
    /// that need no explicit registration step return `Ok(None)`.
    fn register_wallet(&mut self, name: &str, policy: &str) -> Result<Option<[u8; 32]>, Error>;

    /// Drives the device's own screen to show an address for verification
    /// by the holder; blocks until the device renders, not until the user
    /// dismisses it.
    fn display_address(&mut self, script: &AddressScript) -> Result<(), Error>;

    /// Attaches to `tx` the signatures the device produces after user
    /// confirmation.
    fn sign_tx(&mut self, tx: &mut Psbt) -> Result<(), Error>;
}

} // verus!
