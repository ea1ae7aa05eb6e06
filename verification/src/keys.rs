//! Key material identifiers handed back by devices: master fingerprints
//! and extended public keys.
//!
//! The core treats real key material as an externally defined format; what
//! it models is the data its own contracts need — which master a key
//! belongs to and at which path it was derived.

use vstd::prelude::*;

use crate::address::DerivationPath;

verus! {

/// The 4-byte identifier of a device's master public key, used to
/// recognize which device a given key belongs to.
#[derive(Clone, Copy, Debug, PartialEq, Eq)]
pub struct Fingerprint {
    pub bytes: [u8; 4],
}

impl View for Fingerprint {
    type V = Seq<u8>;

    open spec fn view(&self) -> Seq<u8> {
        self.bytes@
    }
}

impl Fingerprint {
    /// A fingerprint made of the given four bytes.
    pub fn new(bytes: [u8; 4]) -> (f: Fingerprint)
        ensures
            f@ == bytes@,
    {
        Fingerprint { bytes }
    }
}

/// Mathematical model of an `ExtendedPubKey`: the master it descends from
/// and the path it was derived at.
pub struct ExtendedPubKeyModel {
    pub master: Seq<u8>,
    pub path: Seq<u32>,
}

/// An extended public key as the core sees it: a key derived by the device
/// from its master seed at a known path.
///
/// The device performs the derivation itself — key material never leaves
/// it — so the core records only the provenance of the key: the master
/// fingerprint and the derivation path.
#[derive(Debug, PartialEq, Eq)]
pub struct ExtendedPubKey {
    /// Fingerprint of the master key this key descends from.
    pub master: Fingerprint,
    /// The path at which the device derived this key.
    pub path: DerivationPath,
}

impl View for ExtendedPubKey {
    type V = ExtendedPubKeyModel;

    open spec fn view(&self) -> ExtendedPubKeyModel {
        ExtendedPubKeyModel { master: self.master@, path: self.path@ }
    }
}

} // verus!
