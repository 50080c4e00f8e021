//! Errors of the endpoint layer.
use vstd::prelude::*;

verus! {

/// What can go wrong in the endpoint layer besides the errors of the layers below.
#[derive(Debug, PartialEq, Eq)]
pub enum Error {
    /// Any failure described in words.
    Other { msg: String },
    /// A failure of unknown kind.
    Unknown,
}

} // verus!
