use vstd::prelude::*;

verus! {

/// The network identity attached to a public key.
#[derive(Clone, Copy, Debug, PartialEq, Eq, Structural)]
pub enum Network {
    MainNet,
    TestNet,
}

/// The cryptographic family of a key.
#[derive(Clone, Copy, Debug, PartialEq, Eq, Structural)]
pub enum KeyType {
    Ed25519,
    EccCompact,
}

/// A network paired with a key family, used to select protocol behaviour.
#[derive(Clone, Copy, Debug, PartialEq, Eq, Structural)]
pub struct KeyTag {
    pub network: Network,
    pub key_type: KeyType,
}

/// How the trusted environment reports that one of its primitives failed.
#[derive(Clone, Copy, Debug, PartialEq, Eq, Structural)]
pub enum TeeFault {
    /// The environment could not be reached.
    Unavailable,
    /// The addressed slot holds no provisioned key.
    NoKey,
}

/// Every failure that this layer hands to its callers.
#[derive(Clone, Copy, Debug, PartialEq, Eq, Structural)]
pub enum Error {
    HardwareUnavailable,
    InvalidSlot,
    SignatureDecodeFailure,
    PointConversionFailure,
    AgreementFailure,
}

impl Error {
    /// The error that a failed public-key fetch or signing request becomes.
    pub open spec fn spec_from_fault(f: TeeFault) -> Error {
        match f {
            TeeFault::Unavailable => Error::HardwareUnavailable,
            TeeFault::NoKey => Error::InvalidSlot,
        }
    }

    /// Maps a fault of the environment onto this layer's errors.
    pub fn from_fault(f: TeeFault) -> (r: Error)
        ensures
            r == Error::spec_from_fault(f),
    {
        match f {
            TeeFault::Unavailable => Error::HardwareUnavailable,
            TeeFault::NoKey => Error::InvalidSlot,
        }
    }
}

} // verus!
