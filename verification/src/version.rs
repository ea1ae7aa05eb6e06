//! Structured representation of a backend's reported firmware or
//! application version.
//!
//! A pure value type with a single formatting rule: `"major.minor.patch"`,
//! with `"-prerelease"` appended only when a prerelease tag is present. No
//! ordering semantics are defined beyond equality and display.

use vstd::prelude::*;

verus! {

/// The character for one decimal digit.
pub open spec fn spec_digit_char(d: nat) -> char {
    if d == 0 {
        '0'
    } else if d == 1 {
        '1'
    } else if d == 2 {
        '2'
    } else if d == 3 {
        '3'
    } else if d == 4 {
        '4'
    } else if d == 5 {
        '5'
    } else if d == 6 {
        '6'
    } else if d == 7 {
        '7'
    } else if d == 8 {
        '8'
    } else {
        '9'
    }
}

/// The decimal digits of a natural number, most significant first, with no
/// leading zero except for the number zero itself.
pub open spec fn spec_decimal(n: nat) -> Seq<char>
    decreases n,
{
    if n < 10 {
        seq![spec_digit_char(n)]
    } else {
        spec_decimal(n / 10) + seq![spec_digit_char(n % 10)]
    }
}

/// A one-character string slice for a single decimal digit value.
fn digit_str(d: u32) -> (s: &'static str)
    requires
        d < 10,
    ensures
        s@ == seq![spec_digit_char(d as nat)],
{
    proof {
        reveal_strlit("0");
        reveal_strlit("1");
        reveal_strlit("2");
        reveal_strlit("3");
        reveal_strlit("4");
        reveal_strlit("5");
        reveal_strlit("6");
        reveal_strlit("7");
        reveal_strlit("8");
        reveal_strlit("9");
    }
    if d == 0 {
        "0"
    } else if d == 1 {
        "1"
    } else if d == 2 {
        "2"
    } else if d == 3 {
        "3"
    } else if d == 4 {
        "4"
    } else if d == 5 {
        "5"
    } else if d == 6 {
        "6"
    } else if d == 7 {
        "7"
    } else if d == 8 {
        "8"
    } else {
        "9"
    }
}

/// Formats a number in decimal.
pub fn decimal_string(n: u32) -> (s: String)
    ensures
        s@ == spec_decimal(n as nat),
    decreases n,
{
    if n < 10 {
        digit_str(n).to_owned()
    } else {
        proof {
            assert(n as nat / 10 < n as nat) by (nonlinear_arith)
                requires
                    n >= 10,
            ;
        }
        let mut s = decimal_string(n / 10);
        s.append(digit_str(n % 10));
        s
    }
}

/// Mathematical model of a `Version`: the three numbers and the characters
/// of the optional prerelease tag.
pub struct VersionModel {
    pub major: u32,
    pub minor: u32,
    pub patch: u32,
    pub prerelease: Option<Seq<char>>,
}

/// A backend's reported version: `major.minor.patch` plus an optional
/// prerelease tag.
#[derive(Debug, PartialEq, Eq)]
pub struct Version {
    pub major: u32,
    pub minor: u32,
    pub patch: u32,
    pub prerelease: Option<String>,
}

impl View for Version {
    type V = VersionModel;

    open spec fn view(&self) -> VersionModel {
        VersionModel {
            major: self.major,
            minor: self.minor,
            patch: self.patch,
            prerelease: match self.prerelease {
                Some(p) => Some(p@),
                None => None,
            },
        }
    }
}

/// The display form of a version: `"major.minor.patch"`, with
/// `"-prerelease"` appended only when a prerelease tag is present.
pub open spec fn spec_version_chars(v: VersionModel) -> Seq<char> {
    spec_decimal(v.major as nat) + seq!['.'] + spec_decimal(v.minor as nat) + seq!['.']
        + spec_decimal(v.patch as nat) + (match v.prerelease {
        Some(p) => seq!['-'] + p,
        None => Seq::<char>::empty(),
    })
}

impl Clone for Version {
    fn clone(&self) -> (r: Self)
        ensures
            r@ == self@,
    {
        Version {
            major: self.major,
            minor: self.minor,
            patch: self.patch,
            prerelease: match &self.prerelease {
                Some(p) => Some(p.clone()),
                None => None,
            },
        }
    }
}

impl Version {
    /// A version with no prerelease tag.
    pub fn new(major: u32, minor: u32, patch: u32) -> (v: Version)
        ensures
            v@ == (VersionModel { major, minor, patch, prerelease: None }),
    {
        Version { major, minor, patch, prerelease: None }
    }

    /// The display form of this version.
    pub fn to_string(&self) -> (s: String)
        ensures
            s@ == spec_version_chars(self@),
    {
        proof {
            reveal_strlit(".");
            reveal_strlit("-");
        }
        let mut s = decimal_string(self.major);
        s.append(".");
        let minor = decimal_string(self.minor);
        s.append(minor.as_str());
        s.append(".");
        let patch = decimal_string(self.patch);
        s.append(patch.as_str());
        match &self.prerelease {
            Some(p) => {
                s.append("-");
                s.append(p.as_str());
            },
            None => {},
        }
        s
    }
}

} // verus!
