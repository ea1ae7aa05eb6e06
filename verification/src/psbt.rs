//! The core's view of a partially-signed transaction.
//!
//! The binary structure of the real format is externally defined and
//! consumed, not redefined, here; the core models of each input exactly
//! what its signing contract speaks of — whether the input carries the
//! derivation metadata a device needs, and how many signatures are
//! attached to it.

use vstd::prelude::*;

verus! {

/// One transaction input as the signing contract sees it.
#[derive(Clone, Copy, Debug, PartialEq, Eq, Structural)]
pub struct PsbtInput {
    /// Whether the input carries the derivation metadata a device needs to
    /// locate its own key.
    pub has_derivation: bool,
    /// How many signatures are attached to the input.
    pub signature_count: u64,
}

/// A partially-signed transaction: the inputs a device is asked to sign.
#[derive(Debug, PartialEq, Eq)]
pub struct Psbt {
    pub inputs: Vec<PsbtInput>,
}

impl View for Psbt {
    type V = Seq<PsbtInput>;

    open spec fn view(&self) -> Seq<PsbtInput> {
        self.inputs@
    }
}

/// Whether every input of the transaction carries derivation metadata.
pub open spec fn spec_all_inputs_usable(tx: Seq<PsbtInput>) -> bool {
    forall|i: int| 0 <= i < tx.len() ==> (#[trigger] tx[i]).has_derivation
}

/// One more signature on an input, saturating at the machine limit.
pub open spec fn spec_signed_once(input: PsbtInput) -> PsbtInput {
    PsbtInput {
        has_derivation: input.has_derivation,
        signature_count: if input.signature_count < u64::MAX {
            (input.signature_count + 1) as u64
        } else {
            input.signature_count
        },
    }
}

impl Psbt {
    /// A transaction with the given inputs.
    pub fn new(inputs: Vec<PsbtInput>) -> (tx: Psbt)
        ensures
            tx@ == inputs@,
    {
        Psbt { inputs }
    }

    /// Whether every input carries the derivation metadata a device needs.
    pub fn all_inputs_usable(&self) -> (r: bool)
        ensures
            r == spec_all_inputs_usable(self@),
    {
        let mut i: usize = 0;
        while i < self.inputs.len()
            invariant
                i <= self.inputs.len(),
                forall|j: int| 0 <= j < i ==> (#[trigger] self.inputs@[j]).has_derivation,
            decreases self.inputs.len() - i,
        {
            if !self.inputs[i].has_derivation {
                return false;
            }
            i = i + 1;
        }
        true
    }
}

} // verus!
