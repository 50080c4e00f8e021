//! Errors of the physical layer.
use vstd::prelude::*;

verus! {

/// What can go wrong between the network and the wire.
#[derive(Debug, PartialEq, Eq)]
pub enum Error {
    /// The datagram socket reported a failure.
    SocketError,
    /// A frame could not be handed to the link, or not as a whole.
    TransmitError { detail: String },
    /// The address is reserved, out of range or otherwise unusable on the bus.
    InvalidAddress { addr: u64 },
    /// Any other failure, described in words.
    Other { msg: String },
    /// A failure of unknown kind.
    Unknown,
}

} // verus!
