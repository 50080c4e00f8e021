//! Errors of the wire codec.
use vstd::prelude::*;

verus! {

/// What can go wrong while turning bytes into typed messages.
#[derive(Debug, PartialEq, Eq)]
pub enum MctpBaseLibError {
    /// The buffer is shorter than the packed layout that was asked for.
    InvalidPayloadSize { expected: usize, found: usize },
    /// A field holds a value with no meaning assigned to it.
    UnknownValue { value: String },
    /// Any other failure, described in words.
    Other { msg: String },
}

/// Result type used when a value is returned.
pub type MctpBaseLibResult<T> = Result<T, MctpBaseLibError>;

/// Result type used when no value is returned.
pub type MctpBaseLibEmptyResult = Result<(), MctpBaseLibError>;

} // verus!
