//! Errors of the network layer.
use vstd::prelude::*;
use crate::network::types::{BindingDescriptor, SocketDescriptor};

verus! {

/// What can go wrong in the network layer.
#[derive(Debug, PartialEq, Eq)]
pub enum Error {
    /// No socket is known under this descriptor.
    InvalidSocketError { sd: SocketDescriptor },
    /// No physical binding is known under this identifier.
    InvalidBindingError { binding_id: BindingDescriptor },
    /// The request was given up before its response came.
    FlowCancelled,
    /// Any other failure, described in words.
    Other { msg: String },
    /// A failure of unknown kind.
    Unknown,
}

} // verus!
