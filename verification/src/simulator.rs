//! A simulated backend: an in-memory device whose observable behaviour is
//! the unified interface contract itself.
//!
//! The simulator keeps the whole protocol state as plain values — link
//! state, seed presence, taught policies, an I/O attempt counter — and each
//! capability call is specified exactly: which error comes on which state,
//! and how the state moves. Once disconnected, every call fails with
//! `Error::DeviceDisconnected` and the I/O counter stands still.

use vstd::prelude::*;

use crate::address::spec_is_taproot_single_sig_path;
use crate::address::AddressScript;
use crate::address::AddressScriptModel;
use crate::address::DerivationPath;
use crate::error::Error;
use crate::interface::HWI;
use crate::keys::ExtendedPubKey;
use crate::keys::Fingerprint;
use crate::kind::DeviceKind;
use crate::policy::lemma_find_registration_first_match;
use crate::policy::lemma_pow256_pos;
use crate::policy::policy_well_formed;
use crate::policy::spec_find_registration;
use crate::policy::spec_policy_id;
use crate::policy::spec_policy_well_formed;
use crate::policy::spec_pow256;
use crate::policy::spec_regs_after_register;
use crate::policy::spec_registration_index;
use crate::psbt::spec_all_inputs_usable;
use crate::psbt::spec_signed_once;
use crate::psbt::Psbt;
use crate::psbt::PsbtInput;
use crate::text::str_eq;
use crate::version::Version;
use crate::version::VersionModel;
use vstd::arithmetic::div_mod::lemma_div_denominator;

verus! {

broadcast use vstd::array::group_array_axioms;

/// One `(name, policy)` pair taught to the device.
#[derive(Debug)]
struct Registration {
    name: String,
    policy: String,
}

/// One more I/O attempt on the counter, saturating at the machine limit.
pub open spec fn spec_tick(n: u64) -> u64 {
    if n < u64::MAX {
        (n + 1) as u64
    } else {
        n
    }
}

/// Abstract state of a simulated device: everything its contracts speak
/// of, as plain mathematical values.
#[verifier::ext_equal]
pub struct SimulatorModel {
    /// The backend identity the handle is bound to.
    pub kind: DeviceKind,
    /// The version the device reports.
    pub version: VersionModel,
    /// Whether the session link is up; once lost it never comes back on
    /// this handle.
    pub connected: bool,
    /// Whether the device holds an initialized seed.
    pub has_seed: bool,
    /// The master key fingerprint the device reports.
    pub fingerprint: Seq<u8>,
    /// Whether the firmware knows the wallet-policy registration step.
    pub supports_policies: bool,
    /// Whether successful registration hands back an identifier.
    pub returns_policy_ids: bool,
    /// Whether the simulated holder approves signing confirmations.
    pub approves_signing: bool,
    /// The `(name, policy)` pairs taught so far, in teaching order.
    pub registrations: Seq<(Seq<char>, Seq<char>)>,
    /// How many times the device attempted I/O.
    pub io_calls: u64,
}

impl SimulatorModel {
    /// The same state after one more I/O attempt.
    pub open spec fn ticked(self) -> SimulatorModel {
        SimulatorModel { io_calls: spec_tick(self.io_calls), ..self }
    }
}

/// An in-memory device implementing the unified interface, with its whole
/// protocol state fully specified.
#[derive(Debug)]
pub struct SimulatedDevice {
    kind: DeviceKind,
    version: Version,
    connected: bool,
    has_seed: bool,
    fingerprint: Fingerprint,
    supports_policies: bool,
    returns_policy_ids: bool,
    approves_signing: bool,
    registrations: Vec<Registration>,
    io_calls: u64,
}

impl View for SimulatedDevice {
    type V = SimulatorModel;

    closed spec fn view(&self) -> SimulatorModel {
        SimulatorModel {
            kind: self.kind,
            version: self.version@,
            connected: self.connected,
            has_seed: self.has_seed,
            fingerprint: self.fingerprint@,
            supports_policies: self.supports_policies,
            returns_policy_ids: self.returns_policy_ids,
            approves_signing: self.approves_signing,
            registrations: self.registrations@.map_values(|r: Registration| (r.name@, r.policy@)),
            io_calls: self.io_calls,
        }
    }
}

/// The identifier bytes of the registration at `index`.
fn policy_id_bytes(index: usize) -> (id: [u8; 32])
    ensures
        id@ == spec_policy_id(index as nat),
{
    let mut id: [u8; 32] = [0u8; 32];
    let mut v: usize = index;
    let mut j: usize = 0;
    proof {
        assert(spec_pow256(0) == 1);
        assert(index as nat / 1 == index as nat);
    }
    while j < 8
        invariant
            j <= 8,
            v as nat == index as nat / spec_pow256(j as nat),
            forall|k: int| 0 <= k < j ==> id@[k] == spec_policy_id(index as nat)[k],
            forall|k: int| j <= k < 32 ==> id@[k] == 0,
        decreases 8 - j,
    {
        proof {
            lemma_pow256_pos(j as nat);
        }
        id[j] = (v % 256) as u8;
        proof {
            lemma_div_denominator(index as int, spec_pow256(j as nat) as int, 256);
            assert(spec_pow256((j + 1) as nat) == 256 * spec_pow256(j as nat));
        }
        v = v / 256;
        j = j + 1;
    }
    proof {
        assert(id@ =~= spec_policy_id(index as nat));
    }
    id
}

impl SimulatedDevice {
    /// A freshly discovered, connected device of the given identity, with
    /// an initialized seed, policy support with identifiers, and a holder
    /// who approves confirmations. No I/O has been attempted yet.
    pub fn new(kind: DeviceKind, version: Version, fingerprint: Fingerprint) -> (d: SimulatedDevice)
        ensures
            d@ == (SimulatorModel {
                kind,
                version: version@,
                connected: true,
                has_seed: true,
                fingerprint: fingerprint@,
                supports_policies: true,
                returns_policy_ids: true,
                approves_signing: true,
                registrations: Seq::empty(),
                io_calls: 0,
            }),
    {
        let d = SimulatedDevice {
            kind,
            version,
            connected: true,
            has_seed: true,
            fingerprint,
            supports_policies: true,
            returns_policy_ids: true,
            approves_signing: true,
            registrations: Vec::new(),
            io_calls: 0,
        };
        proof {
            assert(d@ =~= (SimulatorModel {
                kind,
                version: version@,
                connected: true,
                has_seed: true,
                fingerprint: fingerprint@,
                supports_policies: true,
                returns_policy_ids: true,
                approves_signing: true,
                registrations: Seq::empty(),
                io_calls: 0,
            }));
        }
        d
    }

    /// Simulates losing the seed, as on a wiped device.
    pub fn set_has_seed(&mut self, has_seed: bool)
        ensures
            final(self)@ == (SimulatorModel { has_seed, ..old(self)@ }),
    {
        self.has_seed = has_seed;
        proof {
            assert(self@ =~= (SimulatorModel { has_seed, ..old(self)@ }));
        }
    }

    /// Simulates firmware that predates (or knows) the wallet-policy
    /// registration step.
    pub fn set_supports_policies(&mut self, supports_policies: bool)
        ensures
            final(self)@ == (SimulatorModel { supports_policies, ..old(self)@ }),
    {
        self.supports_policies = supports_policies;
        proof {
            assert(self@ =~= (SimulatorModel { supports_policies, ..old(self)@ }));
        }
    }

    /// Simulates a backend that needs no explicit registration identifier
    /// (or one that hands identifiers back).
    pub fn set_returns_policy_ids(&mut self, returns_policy_ids: bool)
        ensures
            final(self)@ == (SimulatorModel { returns_policy_ids, ..old(self)@ }),
    {
        self.returns_policy_ids = returns_policy_ids;
        proof {
            assert(self@ =~= (SimulatorModel { returns_policy_ids, ..old(self)@ }));
        }
    }

    /// Configures whether the simulated holder approves signing
    /// confirmations or rejects them all.
    pub fn set_approves_signing(&mut self, approves_signing: bool)
        ensures
            final(self)@ == (SimulatorModel { approves_signing, ..old(self)@ }),
    {
        self.approves_signing = approves_signing;
        proof {
            assert(self@ =~= (SimulatorModel { approves_signing, ..old(self)@ }));
        }
    }

    /// Simulates losing the physical or session link. Disconnection is
    /// absorbing: no later call on this handle attempts I/O again.
    pub fn disconnect(&mut self)
        ensures
            final(self)@ == (SimulatorModel { connected: false, ..old(self)@ }),
    {
        self.connected = false;
        proof {
            assert(self@ =~= (SimulatorModel { connected: false, ..old(self)@ }));
        }
    }

    /// How many times the device attempted I/O so far.
    pub fn io_call_count(&self) -> (n: u64)
        ensures
            n == self@.io_calls,
    {
        self.io_calls
    }

    /// How many policy registrations the device holds.
    pub fn registration_count(&self) -> (n: usize)
        ensures
            n == self@.registrations.len(),
    {
        self.registrations.len()
    }

    /// Records one I/O attempt.
    fn tick(&mut self)
        ensures
            final(self)@ == old(self)@.ticked(),
    {
        if self.io_calls < u64::MAX {
            self.io_calls = self.io_calls + 1;
        }
        proof {
            assert(self@ =~= old(self)@.ticked());
        }
    }

    /// The kind of device this handle is bound to; pure, never fails, and
    /// performs no I/O.
    pub fn device_kind(&self) -> (k: DeviceKind)
        ensures
            k == self@.kind,
    {
        self.kind
    }

    /// Checks that the device link is up.
    pub fn is_connected(&mut self) -> (r: Result<(), Error>)
        ensures
            !old(self)@.connected ==> r == Err::<(), Error>(Error::DeviceDisconnected) && final(self)@ == old(self)@,
            old(self)@.connected ==> r == Ok::<(), Error>(()) && final(self)@ == old(self)@.ticked(),
    {
        if !self.connected {
            return Err(Error::DeviceDisconnected);
        }
        self.tick();
        Ok(())
    }

    /// The version the device reports.
    pub fn get_version(&mut self) -> (r: Result<Version, Error>)
        ensures
            !old(self)@.connected ==> r == Err::<Version, Error>(Error::DeviceDisconnected)
                && final(self)@ == old(self)@,
            old(self)@.connected ==> final(self)@ == old(self)@.ticked() && (r matches Ok(v)
                && v@ == old(self)@.version),
    {
        if !self.connected {
            return Err(Error::DeviceDisconnected);
        }
        self.tick();
        Ok(self.version.clone())
    }

    /// The fingerprint of the device's master key; fails with
    /// `Error::UnsupportedInput` when the device holds no seed.
    pub fn get_master_fingerprint(&mut self) -> (r: Result<Fingerprint, Error>)
        ensures
            !old(self)@.connected ==> r == Err::<Fingerprint, Error>(Error::DeviceDisconnected)
                && final(self)@ == old(self)@,
            old(self)@.connected ==> final(self)@ == old(self)@.ticked(),
            old(self)@.connected && !old(self)@.has_seed ==> r == Err::<Fingerprint, Error>(
                Error::UnsupportedInput,
            ),
            old(self)@.connected && old(self)@.has_seed ==> (r matches Ok(f) && f@ == old(self)@.fingerprint),
    {
        if !self.connected {
            return Err(Error::DeviceDisconnected);
        }
        self.tick();
        if !self.has_seed {
            return Err(Error::UnsupportedInput);
        }
        Ok(self.fingerprint)
    }

    /// Derives, on the device, the extended public key at `path`. The
    /// simulator serves taproot single-signature paths only: any other
    /// shape fails with `Error::UnsupportedInput`, never with a default
    /// key.
    pub fn get_extended_pubkey(&mut self, path: &DerivationPath, _display: bool) -> (r: Result<
        ExtendedPubKey,
        Error,
    >)
        ensures
            !old(self)@.connected ==> r == Err::<ExtendedPubKey, Error>(Error::DeviceDisconnected)
                && final(self)@ == old(self)@,
            old(self)@.connected ==> final(self)@ == old(self)@.ticked(),
            old(self)@.connected && !spec_is_taproot_single_sig_path(path@) ==> r == Err::<
                ExtendedPubKey,
                Error,
            >(Error::UnsupportedInput),
            old(self)@.connected && spec_is_taproot_single_sig_path(path@) ==> (r matches Ok(x)
                && x@.master == old(self)@.fingerprint && x@.path == path@),
    {
        if !self.connected {
            return Err(Error::DeviceDisconnected);
        }
        self.tick();
        if !path.is_taproot_single_sig() {
            return Err(Error::UnsupportedInput);
        }
        Ok(ExtendedPubKey { master: self.fingerprint, path: path.clone() })
    }

    /// The position of the first taught pair equal to `(name, policy)`.
    fn find_registration(&self, name: &str, policy: &str) -> (r: Option<usize>)
        ensures
            match r {
                Some(i) => spec_find_registration(self@.registrations, name@, policy@) == i as int,
                None => spec_find_registration(self@.registrations, name@, policy@) == -1,
            },
    {
        let ghost regs = self@.registrations;
        let mut i: usize = 0;
        proof {
            assert(regs.skip(0) =~= regs);
        }
        while i < self.registrations.len()
            invariant
                regs == self@.registrations,
                regs.len() == self.registrations.len(),
                i <= self.registrations.len(),
                spec_find_registration(regs, name@, policy@) == (if spec_find_registration(
                    regs.skip(i as int),
                    name@,
                    policy@,
                ) < 0 {
                    -1int
                } else {
                    spec_find_registration(regs.skip(i as int), name@, policy@) + i
                }),
            decreases self.registrations.len() - i,
        {
            let reg = &self.registrations[i];
            proof {
                assert(regs[i as int] == (reg.name@, reg.policy@));
                assert(regs.skip(i as int)[0] == regs[i as int]);
            }
            if str_eq(reg.name.as_str(), name) && str_eq(reg.policy.as_str(), policy) {
                return Some(i);
            }
            proof {
                assert(regs.skip(i as int).drop_first() =~= regs.skip(i as int + 1));
            }
            i = i + 1;
        }
        proof {
            assert(regs.skip(i as int) =~= Seq::<(Seq<char>, Seq<char>)>::empty());
        }
        None
    }

    /// Teaches the device a named spending policy descriptor.
    ///
    /// A pair already taught is not stored again and, on a backend that
    /// returns identifiers, yields the identifier it was first given; a
    /// new pair is stored at the next position and identified by it.
    pub fn register_wallet(&mut self, name: &str, policy: &str) -> (r: Result<
        Option<[u8; 32]>,
        Error,
    >)
        ensures
            !old(self)@.connected ==> r == Err::<Option<[u8; 32]>, Error>(
                Error::DeviceDisconnected,
            ) && final(self)@ == old(self)@,
            old(self)@.connected && !old(self)@.supports_policies ==> r == Err::<
                Option<[u8; 32]>,
                Error,
            >(Error::UnsupportedVersion) && final(self)@ == old(self)@.ticked(),
            old(self)@.connected && old(self)@.supports_policies && !spec_policy_well_formed(
                policy@,
            ) ==> final(self)@ == old(self)@.ticked() && (r matches Err(e) && e matches
                Error::ParsingPolicy(m) && m@ == "ill-formed policy descriptor"@),
            old(self)@.connected && old(self)@.supports_policies && spec_policy_well_formed(
                policy@,
            ) ==> final(self)@ == (SimulatorModel {
                registrations: spec_regs_after_register(old(self)@.registrations, name@, policy@),
                io_calls: spec_tick(old(self)@.io_calls),
                ..old(self)@
            }) && (old(self)@.returns_policy_ids ==> (r matches Ok(id) && id matches Some(b)
                && b@ == spec_policy_id(
                spec_registration_index(old(self)@.registrations, name@, policy@) as nat,
            ))) && (!old(self)@.returns_policy_ids ==> r == Ok::<Option<[u8; 32]>, Error>(None)),
    {
        if !self.connected {
            return Err(Error::DeviceDisconnected);
        }
        self.tick();
        if !self.supports_policies {
            return Err(Error::UnsupportedVersion);
        }
        if !policy_well_formed(policy) {
            return Err(Error::ParsingPolicy("ill-formed policy descriptor".to_owned()));
        }
        let index: usize;
        match self.find_registration(name, policy) {
            Some(i) => {
                index = i;
                proof {
                    lemma_find_registration_first_match(self@.registrations, name@, policy@);
                }
            },
            None => {
                index = self.registrations.len();
                let ghost before = self@.registrations;
                self.registrations.push(
                    Registration { name: name.to_owned(), policy: policy.to_owned() },
                );
                proof {
                    assert(self@.registrations =~= before.push((name@, policy@)));
                    assert(self@ =~= (SimulatorModel {
                        registrations: spec_regs_after_register(
                            old(self)@.registrations,
                            name@,
                            policy@,
                        ),
                        io_calls: spec_tick(old(self)@.io_calls),
                        ..old(self)@
                    }));
                }
            },
        }
        if !self.returns_policy_ids {
            return Ok(None);
        }
        let id = policy_id_bytes(index);
        Ok(Some(id))
    }

    /// Shows an address on the device screen for verification.
    ///
    /// A taproot single-signature path of the wrong shape fails with
    /// `Error::UnsupportedInput`; a policy-indexed address issued before
    /// any policy was registered fails with `Error::MissingPolicy`.
    pub fn display_address(&mut self, script: &AddressScript) -> (r: Result<(), Error>)
        ensures
            !old(self)@.connected ==> r == Err::<(), Error>(Error::DeviceDisconnected) && final(self)@ == old(self)@,
            old(self)@.connected ==> final(self)@ == old(self)@.ticked() && (match script@ {
                AddressScriptModel::P2TR(p) => r == (if spec_is_taproot_single_sig_path(p) {
                    Ok::<(), Error>(())
                } else {
                    Err::<(), Error>(Error::UnsupportedInput)
                }),
                AddressScriptModel::Miniscript { .. } => r == (if old(self)@.registrations.len() == 0 {
                    Err::<(), Error>(Error::MissingPolicy)
                } else {
                    Ok::<(), Error>(())
                }),
            }),
    {
        if !self.connected {
            return Err(Error::DeviceDisconnected);
        }
        self.tick();
        match script {
            AddressScript::P2TR(path) => {
                if path.is_taproot_single_sig() {
                    Ok(())
                } else {
                    Err(Error::UnsupportedInput)
                }
            },
            AddressScript::Miniscript { .. } => {
                if self.registrations.len() == 0 {
                    Err(Error::MissingPolicy)
                } else {
                    Ok(())
                }
            },
        }
    }

    /// Attaches the device's signatures to `tx` after the simulated
    /// holder's confirmation.
    ///
    /// When any input lacks derivation metadata, or the holder rejects the
    /// confirmation, the transaction is handed back with no additional
    /// signature attached.
    pub fn sign_tx(&mut self, tx: &mut Psbt) -> (r: Result<(), Error>)
        ensures
            !old(self)@.connected ==> r == Err::<(), Error>(Error::DeviceDisconnected) && final(self)@ == old(self)@ && final(tx)@ == old(tx)@,
            old(self)@.connected ==> final(self)@ == old(self)@.ticked(),
            old(self)@.connected && !spec_all_inputs_usable(old(tx)@) ==> r == Err::<(), Error>(
                Error::UnsupportedInput,
            ) && final(tx)@ == old(tx)@,
            old(self)@.connected && spec_all_inputs_usable(old(tx)@) && !old(self)@.approves_signing ==> r == Err::<(), Error>(Error::DeviceDidNotSign) && final(tx)@
                == old(tx)@,
            old(self)@.connected && spec_all_inputs_usable(old(tx)@) && old(self)@.approves_signing ==> r == Ok::<(), Error>(()) && final(tx)@ == old(tx)@.map_values(|input: PsbtInput| spec_signed_once(input)),
    {
        if !self.connected {
            return Err(Error::DeviceDisconnected);
        }
        self.tick();
        if !tx.all_inputs_usable() {
            return Err(Error::UnsupportedInput);
        }
        if !self.approves_signing {
            return Err(Error::DeviceDidNotSign);
        }
        let mut i: usize = 0;
        while i < tx.inputs.len()
            invariant
                i <= tx.inputs.len(),
                tx.inputs.len() == old(tx)@.len(),
                forall|k: int|
                    0 <= k < i ==> tx.inputs@[k] == spec_signed_once(#[trigger] old(tx)@[k]),
                forall|k: int| i <= k < tx.inputs.len() ==> #[trigger] tx.inputs@[k] == old(tx)@[k],
            decreases tx.inputs.len() - i,
        {
            let input = tx.inputs[i];
            let count = input.signature_count;
            let new_count: u64 = if count < u64::MAX {
                count + 1
            } else {
                count
            };
            tx.inputs.set(
                i,
                PsbtInput { has_derivation: input.has_derivation, signature_count: new_count },
            );
            i = i + 1;
        }
        proof {
            assert(tx.inputs@ =~= old(tx)@.map_values(|input: PsbtInput| spec_signed_once(input)));
        }
        Ok(())
    }
}

impl HWI for SimulatedDevice {
    fn device_kind(&self) -> DeviceKind {
        SimulatedDevice::device_kind(self)
    }

    fn is_connected(&mut self) -> Result<(), Error> {
        SimulatedDevice::is_connected(self)
    }

    fn get_version(&mut self) -> Result<Version, Error> {
        SimulatedDevice::get_version(self)
    }

    fn get_master_fingerprint(&mut self) -> Result<Fingerprint, Error> {
        SimulatedDevice::get_master_fingerprint(self)
    }

    fn get_extended_pubkey(&mut self, path: &DerivationPath, display: bool) -> Result<
        ExtendedPubKey,
        Error,
    > {
        SimulatedDevice::get_extended_pubkey(self, path, display)
    }

    fn register_wallet(&mut self, name: &str, policy: &str) -> Result<Option<[u8; 32]>, Error> {
        SimulatedDevice::register_wallet(self, name, policy)
    }

    fn display_address(&mut self, script: &AddressScript) -> Result<(), Error> {
        SimulatedDevice::display_address(self, script)
    }

    fn sign_tx(&mut self, tx: &mut Psbt) -> Result<(), Error> {
        SimulatedDevice::sign_tx(self, tx)
    }
}

} // verus!
