//! Closed taxonomy of failures shared by every backend.
//!
//! Every fallible interface call returns exactly one of these kinds or
//! succeeds; errors are never merged or silently swallowed, and the core
//! never retries on its own.

use vstd::prelude::*;

verus! {

/// One failure kind per way an interface call can go wrong.
///
/// The set is closed: backends map their native diagnostics onto these
/// kinds, with `Device` as the only escape hatch for backend-specific
/// detail (carried verbatim as a message).
#[derive(Clone, Debug, PartialEq, Eq)]
pub enum Error {
    /// The requested operation or parameter shape is not valid for this
    /// backend or device state.
    UnsupportedInput,
    /// The backend has not implemented an optional capability.
    UnimplementedMethod,
    /// The physical or session link was lost before or during the call.
    DeviceDisconnected,
    /// No matching device was present at call time.
    DeviceNotFound,
    /// The device completed its signing flow without producing every
    /// required signature (for instance, the user rejected it).
    DeviceDidNotSign,
    /// Backend-specific diagnostic, opaque to the core.
    Device(String),
    /// The supplied policy descriptor failed structural validation.
    ParsingPolicy(String),
    /// An operation referenced an indexed policy before any policy was
    /// registered.
    MissingPolicy,
    /// The backend firmware or application version cannot serve the
    /// requested operation.
    UnsupportedVersion,
    /// A specific named argument failed its precondition; carries the
    /// argument name and a diagnostic message.
    InvalidParameter(String, String),
}

impl Error {
    /// The characters of the human-readable message for this error.
    pub open spec fn spec_message(self) -> Seq<char> {
        match self {
            Error::UnsupportedInput => "Unsupported input"@,
            Error::UnimplementedMethod => "Unimplemented method"@,
            Error::DeviceDisconnected => "Device disconnected"@,
            Error::DeviceNotFound => "Device not found"@,
            Error::DeviceDidNotSign => "Device did not sign"@,
            Error::Device(m) => m@,
            Error::ParsingPolicy(m) => "Parsing policy: "@ + m@,
            Error::MissingPolicy => "Missing policy"@,
            Error::UnsupportedVersion => "Unsupported version"@,
            Error::InvalidParameter(n, m) => n@ + ": "@ + m@,
        }
    }

    /// Human-readable message, suitable for surfacing to a user.
    pub fn message(&self) -> (s: String)
        ensures
            s@ == self.spec_message(),
    {
        match self {
            Error::UnsupportedInput => "Unsupported input".to_owned(),
            Error::UnimplementedMethod => "Unimplemented method".to_owned(),
            Error::DeviceDisconnected => "Device disconnected".to_owned(),
            Error::DeviceNotFound => "Device not found".to_owned(),
            Error::DeviceDidNotSign => "Device did not sign".to_owned(),
            Error::Device(m) => m.clone(),
            Error::ParsingPolicy(m) => "Parsing policy: ".to_owned().concat(m.as_str()),
            Error::MissingPolicy => "Missing policy".to_owned(),
            Error::UnsupportedVersion => "Unsupported version".to_owned(),
            Error::InvalidParameter(n, m) => {
                let mut s = n.clone();
                s.append(": ");
                s.append(m.as_str());
                s
            },
        }
    }
}

} // verus!
