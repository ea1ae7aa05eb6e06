//! Derivation paths and the closed set of ways a receive address can be
//! derived and verified on-device.

use vstd::prelude::*;

verus! {

/// Marker bit of a hardened derivation step.
pub const HARDENED: u32 = 0x8000_0000;

/// An ordered sequence of child-derivation steps from a master seed.
///
/// Each step is a raw child number: values at or above `HARDENED` denote
/// hardened derivation of index `step - HARDENED`.
#[derive(Debug, PartialEq, Eq)]
pub struct DerivationPath {
    pub steps: Vec<u32>,
}

impl View for DerivationPath {
    type V = Seq<u32>;

    open spec fn view(&self) -> Seq<u32> {
        self.steps@
    }
}

/// The shape required of a taproot single-signature derivation path: five
/// steps `86' / coin' / account' / change / index`, with the purpose fixed
/// to hardened 86, the coin type hardened 0 or 1, the account hardened, the
/// change step 0 or 1, and the index non-hardened.
pub open spec fn spec_is_taproot_single_sig_path(p: Seq<u32>) -> bool {
    &&& p.len() == 5
    &&& p[0] == 86 + HARDENED
    &&& (p[1] == HARDENED || p[1] == 1 + HARDENED)
    &&& p[2] >= HARDENED
    &&& (p[3] == 0 || p[3] == 1)
    &&& p[4] < HARDENED
}

impl Clone for DerivationPath {
    fn clone(&self) -> (r: Self)
        ensures
            r@ == self@,
    {
        let mut steps: Vec<u32> = Vec::new();
        let mut i: usize = 0;
        while i < self.steps.len()
            invariant
                i <= self.steps.len(),
                steps@ == self.steps@.subrange(0, i as int),
            decreases self.steps.len() - i,
        {
            steps.push(self.steps[i]);
            i = i + 1;
        }
        proof {
            assert(steps@ =~= self.steps@);
        }
        DerivationPath { steps }
    }
}

impl DerivationPath {
    /// A path made of the given raw child numbers.
    pub fn new(steps: Vec<u32>) -> (p: DerivationPath)
        ensures
            p@ == steps@,
    {
        DerivationPath { steps }
    }

    /// Whether this path conforms to the taproot single-signature
    /// derivation shape.
    pub fn is_taproot_single_sig(&self) -> (r: bool)
        ensures
            r == spec_is_taproot_single_sig_path(self@),
    {
        if self.steps.len() != 5 {
            return false;
        }
        let purpose = self.steps[0];
        let coin = self.steps[1];
        let account = self.steps[2];
        let change = self.steps[3];
        let index = self.steps[4];
        purpose == 86 + HARDENED && (coin == HARDENED || coin == 1 + HARDENED)
            && account >= HARDENED && (change == 0 || change == 1) && index < HARDENED
    }
}

/// Mathematical model of an `AddressScript`.
pub enum AddressScriptModel {
    P2TR(Seq<u32>),
    Miniscript { index: u32, change: bool },
}

/// How a receive address is derived and verified on-device.
#[derive(Debug, PartialEq, Eq)]
pub enum AddressScript {
    /// A taproot single-key derivation path; the path must conform to the
    /// taproot single-signature derivation shape.
    P2TR(DerivationPath),
    /// A position inside a policy previously taught to the device through
    /// wallet registration: the derivation index and whether it lies on the
    /// change branch.
    Miniscript { index: u32, change: bool },
}

impl View for AddressScript {
    type V = AddressScriptModel;

    open spec fn view(&self) -> AddressScriptModel {
        match self {
            AddressScript::P2TR(p) => AddressScriptModel::P2TR(p@),
            AddressScript::Miniscript { index, change } => AddressScriptModel::Miniscript {
                index: *index,
                change: *change,
            },
        }
    }
}

} // verus!
