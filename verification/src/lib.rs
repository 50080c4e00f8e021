//! MCTP message engine: wire codec, flow correlation, network routing decisions
//! and the control-protocol endpoint logic, with machine-checked contracts.
use vstd::prelude::*;
use vstd::std_specs::convert::FromSpecImpl;

pub mod base;
pub mod control;
pub mod endpoint;
pub mod network;
pub mod phys;

verus! {

/// Any failure of the engine, by the layer it comes from.
#[derive(Debug, PartialEq, Eq)]
pub enum MctpEmuError {
    /// The wire codec failed.
    Base(base::MctpBaseLibError),
    /// The physical transport failed.
    Phys(phys::Error),
    /// The network failed.
    Network(network::Error),
    /// Any other failure, described in words.
    Other { msg: String },
    /// A failure of unknown kind.
    Unknown,
}

/// Result type used when a value is returned.
pub type MctpEmuResult<T> = Result<T, MctpEmuError>;

/// Result type used when no value is returned.
pub type MctpEmuEmptyResult = Result<(), MctpEmuError>;

impl From<base::MctpBaseLibError> for MctpEmuError {
    fn from(e: base::MctpBaseLibError) -> (r: Self) {
        MctpEmuError::Base(e)
    }
}

impl FromSpecImpl<base::MctpBaseLibError> for MctpEmuError {
    open spec fn obeys_from_spec() -> bool {
        true
    }

    open spec fn from_spec(e: base::MctpBaseLibError) -> Self {
        MctpEmuError::Base(e)
    }
}

impl From<phys::Error> for MctpEmuError {
    fn from(e: phys::Error) -> (r: Self) {
        MctpEmuError::Phys(e)
    }
}

impl FromSpecImpl<phys::Error> for MctpEmuError {
    open spec fn obeys_from_spec() -> bool {
        true
    }

    open spec fn from_spec(e: phys::Error) -> Self {
        MctpEmuError::Phys(e)
    }
}

impl From<network::Error> for MctpEmuError {
    fn from(e: network::Error) -> (r: Self) {
        MctpEmuError::Network(e)
    }
}

impl FromSpecImpl<network::Error> for MctpEmuError {
    open spec fn obeys_from_spec() -> bool {
        true
    }

    open spec fn from_spec(e: network::Error) -> Self {
        MctpEmuError::Network(e)
    }
}

} // verus!
