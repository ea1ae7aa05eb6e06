//! Core contract for driving hardware signing devices through one uniform
//! interface: the error taxonomy, the device-kind registry, the version
//! descriptor, the address-script descriptor, the capability trait that every
//! backend implements, and a simulated backend whose protocol-state behaviour
//! is fully specified and verified.

pub mod address;
pub mod error;
pub mod interface;
pub mod keys;
pub mod kind;
pub mod policy;
pub mod psbt;
pub mod simulator;
pub mod text;
pub mod version;

pub use address::AddressScript;
pub use address::DerivationPath;
pub use error::Error;
pub use interface::HWI;
pub use keys::ExtendedPubKey;
pub use keys::Fingerprint;
pub use kind::DeviceKind;
pub use psbt::Psbt;
pub use psbt::PsbtInput;
pub use simulator::SimulatedDevice;
pub use version::Version;
