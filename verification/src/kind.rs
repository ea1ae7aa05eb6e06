//! Registry of supported backend identities.
//!
//! Every backend family, and its simulator, has a unique, stable,
//! lowercase-hyphenated string code. The mapping between variants and codes
//! is a total bijection over the defined set: formatting then parsing gives
//! the variant back, and no unrecognized code ever parses to a variant.

use vstd::prelude::*;

use crate::text::str_eq;

verus! {

/// Identity of a backend family, distinguishing real devices from their
/// simulators.
///
/// Produced once by device discovery (an external concern), immutable
/// thereafter, and freely copyable.
#[derive(Clone, Copy, Debug, PartialEq, Eq, Structural)]
pub enum DeviceKind {
    Specter,
    SpecterSimulator,
    Ledger,
    LedgerSimulator,
    BitBox02,
    BitBox02Simulator,
}

/// The canonical string code of a device kind.
pub open spec fn spec_kind_code(k: DeviceKind) -> Seq<char> {
    match k {
        DeviceKind::Specter => "specter"@,
        DeviceKind::SpecterSimulator => "specter-simulator"@,
        DeviceKind::Ledger => "ledger"@,
        DeviceKind::LedgerSimulator => "ledger-simulator"@,
        DeviceKind::BitBox02 => "bitbox02"@,
        DeviceKind::BitBox02Simulator => "bitbox02-simulator"@,
    }
}

/// Which device kind, if any, a string of characters is the code of.
pub open spec fn spec_parse_kind(s: Seq<char>) -> Option<DeviceKind> {
    if s == spec_kind_code(DeviceKind::Specter) {
        Some(DeviceKind::Specter)
    } else if s == spec_kind_code(DeviceKind::SpecterSimulator) {
        Some(DeviceKind::SpecterSimulator)
    } else if s == spec_kind_code(DeviceKind::Ledger) {
        Some(DeviceKind::Ledger)
    } else if s == spec_kind_code(DeviceKind::LedgerSimulator) {
        Some(DeviceKind::LedgerSimulator)
    } else if s == spec_kind_code(DeviceKind::BitBox02) {
        Some(DeviceKind::BitBox02)
    } else if s == spec_kind_code(DeviceKind::BitBox02Simulator) {
        Some(DeviceKind::BitBox02Simulator)
    } else {
        None
    }
}

impl DeviceKind {
    /// The canonical lowercase-hyphenated code of this kind, for
    /// configuration and display.
    pub fn code(&self) -> (s: String)
        ensures
            s@ == spec_kind_code(*self),
    {
        match self {
            DeviceKind::Specter => "specter".to_owned(),
            DeviceKind::SpecterSimulator => "specter-simulator".to_owned(),
            DeviceKind::Ledger => "ledger".to_owned(),
            DeviceKind::LedgerSimulator => "ledger-simulator".to_owned(),
            DeviceKind::BitBox02 => "bitbox02".to_owned(),
            DeviceKind::BitBox02Simulator => "bitbox02-simulator".to_owned(),
        }
    }

    /// Parses a configuration code back into a device kind.
    ///
    /// Returns `None` for every string that is not the canonical code of
    /// some variant; an unrecognized code never maps to a default variant.
    pub fn parse(s: &str) -> (r: Option<DeviceKind>)
        ensures
            r == spec_parse_kind(s@),
    {
        if str_eq(s, "specter") {
            Some(DeviceKind::Specter)
        } else if str_eq(s, "specter-simulator") {
            Some(DeviceKind::SpecterSimulator)
        } else if str_eq(s, "ledger") {
            Some(DeviceKind::Ledger)
        } else if str_eq(s, "ledger-simulator") {
            Some(DeviceKind::LedgerSimulator)
        } else if str_eq(s, "bitbox02") {
            Some(DeviceKind::BitBox02)
        } else if str_eq(s, "bitbox02-simulator") {
            Some(DeviceKind::BitBox02Simulator)
        } else {
            None
        }
    }
}

/// Reveals every canonical code literal, so their character sequences can be
/// compared.
proof fn reveal_kind_codes()
    ensures
        "specter"@.len() == 7,
        "specter-simulator"@.len() == 17,
        "ledger"@.len() == 6,
        "ledger-simulator"@.len() == 16,
        "bitbox02"@.len() == 8,
        "bitbox02-simulator"@.len() == 18,
{
    reveal_strlit("specter");
    reveal_strlit("specter-simulator");
    reveal_strlit("ledger");
    reveal_strlit("ledger-simulator");
    reveal_strlit("bitbox02");
    reveal_strlit("bitbox02-simulator");
}

/// Round-trip law of the registry: parsing the canonical code of any device
/// kind yields that kind back.
pub proof fn lemma_kind_code_round_trip(k: DeviceKind)
    ensures
        spec_parse_kind(spec_kind_code(k)) == Some(k),
{
    reveal_kind_codes();
}

/// Parsing never aliases: a string that parses to some device kind is that
/// kind's canonical code, so distinct codes can never meet in one variant
/// and no unrecognized string reaches any variant.
pub proof fn lemma_parse_kind_no_alias(s: Seq<char>, k: DeviceKind)
    requires
        spec_parse_kind(s) == Some(k),
    ensures
        s == spec_kind_code(k),
{
    reveal_kind_codes();
}

} // verus!
